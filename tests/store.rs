use lolbase::db::DatabaseArm;
use lolbase::error::{ApiError, StorageFault};
use lolbase::ids::{ColumnId, IntoInner, RecordId, RowId};
use lolbase::media::MediaType;
use lolbase::model::{Column, Record, Row, StoredRow, Timestamp};
use lolbase::value_type::ValueType;
use lolbase::web::{rows_from_requests, RowReq};

fn id_text(v: u128) -> String {
    uuid::Uuid::from_u128(v).to_string()
}

fn row_for(column: ColumnId, value: &str) -> Row {
    Row {
        for_column: column,
        row_id: RowId::from_uuid(0),
        value: value.to_string(),
        value_type: ValueType::String,
    }
}

#[test]
fn empty_store_reads_no_records() {
    let db = DatabaseArm::new();
    let all = db.get_all_records().unwrap();
    assert!(all.is_empty());
}

#[test]
fn created_record_reads_back_without_columns() {
    let mut db = DatabaseArm::new();
    let record = Record::new("users".to_string());
    db.create_record(&record).unwrap();
    let all = db.get_all_records().unwrap();
    assert_eq!(all.len(), 1);
    assert_eq!(all[0].info.name, "users");
    assert_eq!(all[0].info.record_id, record.record_id);
    assert_eq!(all[0].info.created_on, record.created_on);
    assert!(all[0].columns.is_empty());
}

#[test]
fn duplicate_record_is_refused() {
    let mut db = DatabaseArm::new();
    let record = Record::new("users".to_string());
    db.create_record(&record).unwrap();
    assert_eq!(
        db.create_record(&record),
        Err(ApiError::DatabaseError(StorageFault::DuplicateKey))
    );
    assert_eq!(db.get_all_records().unwrap().len(), 1);
}

#[test]
fn created_column_reads_back_without_rows() {
    let mut db = DatabaseArm::new();
    let record = Record::new("users".to_string());
    db.create_record(&record).unwrap();
    let column = Column::new("email", id_text(record.record_id.into_inner())).unwrap();
    assert_eq!(column.for_record, record.record_id);
    db.create_column(&column).unwrap();
    let all = db.get_all_records().unwrap();
    assert_eq!(all.len(), 1);
    assert_eq!(all[0].columns.len(), 1);
    assert_eq!(all[0].columns[0].id, column.id);
    assert_eq!(all[0].columns[0].name, "email");
    assert!(all[0].columns[0].rows.is_empty());
}

#[test]
fn column_without_record_is_refused() {
    let mut db = DatabaseArm::new();
    let column = Column::new("email", id_text(7)).unwrap();
    assert_eq!(
        db.create_column(&column),
        Err(ApiError::DatabaseError(StorageFault::MissingParent))
    );
}

#[test]
fn malformed_parent_identifier_is_refused() {
    assert!(matches!(
        Column::new("email", "not-an-id".to_string()),
        Err(ApiError::MalformedIdentifier)
    ));
    assert!(matches!(
        Column::new("email", String::new()),
        Err(ApiError::MalformedIdentifier)
    ));
}

#[test]
fn parsed_identifier_keeps_its_value() {
    let text = "550e8400-e29b-41d4-a716-446655440000";
    let id = RecordId::parse(text).unwrap();
    assert_eq!(id.into_inner(), 0x550e8400e29b41d4a716446655440000u128);
    assert_eq!(id_text(id.into_inner()), text);
    assert_eq!(ColumnId::parse("xyz"), Err(ApiError::MalformedIdentifier));
}

#[test]
fn fresh_identifiers_differ() {
    assert_ne!(RecordId::new(), RecordId::new());
    assert_ne!(ColumnId::new(), ColumnId::new());
    assert_ne!(RowId::new(), RowId::new());
}

#[test]
fn batch_values_get_distinct_identifiers() {
    let mut db = DatabaseArm::new();
    let record = Record::new("users".to_string());
    db.create_record(&record).unwrap();
    let column = Column::new("email", id_text(record.record_id.into_inner())).unwrap();
    db.create_column(&column).unwrap();
    let mut values = vec![
        row_for(column.id, "x"),
        row_for(column.id, "y"),
        row_for(column.id, "z"),
    ];
    db.store_value(&mut values).unwrap();
    let rows = db.get_all_rows(&column.id).unwrap();
    assert_eq!(rows.len(), 3);
    for a in 0..3 {
        assert_eq!(rows[a].row_id, values[a].row_id);
        for b in 0..3 {
            if a != b {
                assert_ne!(rows[a].row_id, rows[b].row_id);
            }
        }
    }
}

#[test]
fn users_email_scenario() {
    let mut db = DatabaseArm::new();
    let record = Record::new("users".to_string());
    db.create_record(&record).unwrap();
    let column = Column::new("email", id_text(record.record_id.into_inner())).unwrap();
    db.create_column(&column).unwrap();
    let c1 = id_text(column.id.into_inner());
    let reqs = vec![
        RowReq { value: "a@example.com".to_string(), for_column: c1.clone() },
        RowReq { value: "b@example.com".to_string(), for_column: c1 },
    ];
    let mut values = rows_from_requests(&reqs).unwrap();
    db.store_value(&mut values).unwrap();
    let all = db.get_all_records().unwrap();
    assert_eq!(all.len(), 1);
    assert_eq!(all[0].info.record_id, record.record_id);
    assert_eq!(all[0].columns.len(), 1);
    assert_eq!(all[0].columns[0].id, column.id);
    let rows = &all[0].columns[0].rows;
    assert_eq!(rows.len(), 2);
    assert_ne!(rows[0].row_id, rows[1].row_id);
    assert_eq!(rows[0].value, "a@example.com");
    assert_eq!(rows[1].value, "b@example.com");
    assert_eq!(rows[0].value_type, ValueType::String);
    assert_eq!(rows[0].for_column, column.id);
}

#[test]
fn batch_stops_at_missing_column() {
    let mut db = DatabaseArm::new();
    let record = Record::new("users".to_string());
    db.create_record(&record).unwrap();
    let column = Column::new("email", id_text(record.record_id.into_inner())).unwrap();
    db.create_column(&column).unwrap();
    let mut values = vec![
        row_for(column.id, "x"),
        row_for(ColumnId::from_uuid(1), "y"),
        row_for(column.id, "z"),
    ];
    assert_eq!(
        db.store_value(&mut values),
        Err(ApiError::DatabaseError(StorageFault::MissingParent))
    );
    let rows = db.get_all_rows(&column.id).unwrap();
    assert_eq!(rows.len(), 1);
    assert_eq!(rows[0].value, "x");
}

#[test]
fn duplicate_row_identifier_is_refused() {
    let mut db = DatabaseArm::new();
    let record = Record::new("r".to_string());
    db.create_record(&record).unwrap();
    let column = Column::new("c", id_text(record.record_id.into_inner())).unwrap();
    db.create_column(&column).unwrap();
    let row = row_for(column.id, "v");
    db.create_row(&row).unwrap();
    assert_eq!(
        db.create_row(&row),
        Err(ApiError::DatabaseError(StorageFault::DuplicateKey))
    );
}

#[test]
fn unknown_stored_tag_fails_the_read() {
    let mut db = DatabaseArm::new();
    let record = Record::new("r".to_string());
    db.create_record(&record).unwrap();
    let column = Column::new("c", id_text(record.record_id.into_inner())).unwrap();
    db.create_column(&column).unwrap();
    let stored = StoredRow {
        row_id: RowId::from_uuid(5),
        for_column: column.id,
        value: "12".to_string(),
        value_type: "float".to_string(),
    };
    db.insert_stored_row(stored).unwrap();
    assert!(matches!(db.get_all_rows(&column.id), Err(ApiError::DataIntegrity)));
    assert!(matches!(
        db.get_all_columns(&record.record_id),
        Err(ApiError::DataIntegrity)
    ));
    assert!(matches!(db.get_all_records(), Err(ApiError::DataIntegrity)));
}

#[test]
fn stored_tags_are_decoded() {
    let mut db = DatabaseArm::new();
    let record = Record::new("r".to_string());
    db.create_record(&record).unwrap();
    let column = Column::new("c", id_text(record.record_id.into_inner())).unwrap();
    db.create_column(&column).unwrap();
    let mut row = row_for(column.id, "42");
    row.value_type = ValueType::Int;
    db.create_row(&row).unwrap();
    let rows = db.get_all_rows(&column.id).unwrap();
    assert_eq!(rows[0].value_type, ValueType::Int);
    assert!(db.get_all_rows(&ColumnId::from_uuid(9)).unwrap().is_empty());
}

#[test]
fn columns_of_other_records_stay_apart() {
    let mut db = DatabaseArm::new();
    let first = Record::new("a".to_string());
    let second = Record::new("b".to_string());
    db.create_record(&first).unwrap();
    db.create_record(&second).unwrap();
    let c1 = Column::new("x", id_text(first.record_id.into_inner())).unwrap();
    let c2 = Column::new("y", id_text(second.record_id.into_inner())).unwrap();
    db.create_column(&c1).unwrap();
    db.create_column(&c2).unwrap();
    let cols = db.get_all_columns(&second.record_id).unwrap();
    assert_eq!(cols.len(), 1);
    assert_eq!(cols[0].name, "y");
    let all = db.get_all_records().unwrap();
    assert_eq!(all[0].info.name, "a");
    assert_eq!(all[1].info.name, "b");
}

#[test]
fn request_with_bad_column_is_refused() {
    let reqs = vec![RowReq { value: "v".to_string(), for_column: "nope".to_string() }];
    assert!(matches!(rows_from_requests(&reqs), Err(ApiError::MalformedIdentifier)));
}

#[test]
fn media_types_are_classified() {
    assert!(matches!(MediaType::try_from("text/plain"), Err(ApiError::UnsupportedMedia)));
    assert_eq!(MediaType::try_from("image/png"), Ok(MediaType::ImagePng));
    assert_eq!(MediaType::try_from("video/mp4"), Ok(MediaType::VideoMp4));
    assert_eq!(MediaType::try_from("image/jpeg"), Ok(MediaType::ImageJpeg));
    assert_eq!(MediaType::try_from("audio/ogg"), Ok(MediaType::AudioOgg));
    assert_eq!(MediaType::try_from("video/ogg"), Ok(MediaType::VideoOgg));
    assert_eq!(MediaType::try_from("video/mpeg"), Ok(MediaType::VideoMpeg));
    assert_eq!(MediaType::try_from("video/webm"), Ok(MediaType::VideoWebm));
    assert_eq!(MediaType::try_from("image/webp"), Ok(MediaType::ImageWebp));
    assert_eq!(MediaType::try_from("IMAGE/PNG"), Err(ApiError::UnsupportedMedia));
}

#[test]
fn value_tags_round_trip() {
    for t in [ValueType::String, ValueType::Int, ValueType::File] {
        assert_eq!(ValueType::from_text(&t.to_text()), Ok(t));
    }
    assert_eq!(ValueType::String.to_text(), "string");
    assert_eq!(ValueType::Int.to_text(), "int");
    assert_eq!(ValueType::File.to_text(), "file");
}

#[test]
fn unknown_tag_is_an_error() {
    assert_eq!(ValueType::from_text("bool"), Err(ApiError::DataIntegrity));
    assert_eq!(ValueType::from_text(""), Err(ApiError::DataIntegrity));
    assert_eq!(ValueType::from_text("String"), Err(ApiError::DataIntegrity));
}

#[test]
fn errors_map_to_bodies() {
    let body = ApiError::UnsupportedMedia.to_body();
    assert_eq!(body.status_code, 415);
    assert_eq!(body.error, "Unsupported media provided.");
    let body = ApiError::DatabaseError(StorageFault::Unavailable).to_body();
    assert_eq!(body.status_code, 500);
    assert_eq!(body.error, "An error has occured in the database.");
    assert_eq!(ApiError::MalformedIdentifier.status_code(), 400);
    assert_eq!(ApiError::DataIntegrity.status_code(), 500);
}

#[test]
fn new_record_keeps_its_name() {
    let r = Record::new("Users ".to_string());
    assert_eq!(r.name, "Users ");
    let s = Record::new("Users ".to_string());
    assert_ne!(r.record_id, s.record_id);
}

fn store_with_column() -> (DatabaseArm, ColumnId) {
    let mut db = DatabaseArm::new();
    let record = Record::new("r".to_string());
    db.create_record(&record).unwrap();
    let column = Column::new("c", id_text(record.record_id.into_inner())).unwrap();
    db.create_column(&column).unwrap();
    (db, column.id)
}

#[test]
fn batch_with_given_ids_is_stored_in_order() {
    let (mut db, col) = store_with_column();
    let mut values = vec![row_for(col, "a"), row_for(col, "b")];
    let ids = vec![RowId::from_uuid(10), RowId::from_uuid(11)];
    db.store_values_with_ids(&mut values, &ids).unwrap();
    assert_eq!(values[0].row_id, RowId::from_uuid(10));
    assert_eq!(values[1].row_id, RowId::from_uuid(11));
    let rows = db.get_all_rows(&col).unwrap();
    assert_eq!(rows.len(), 2);
    assert_eq!(rows[0].row_id, RowId::from_uuid(10));
    assert_eq!(rows[0].value, "a");
    assert_eq!(rows[1].row_id, RowId::from_uuid(11));
    assert_eq!(rows[1].value, "b");
}

#[test]
fn repeated_id_in_batch_keeps_the_prefix() {
    let (mut db, col) = store_with_column();
    let mut values = vec![row_for(col, "a"), row_for(col, "b"), row_for(col, "c")];
    let ids = vec![RowId::from_uuid(20), RowId::from_uuid(21), RowId::from_uuid(20)];
    assert_eq!(
        db.store_values_with_ids(&mut values, &ids),
        Err(ApiError::DatabaseError(StorageFault::DuplicateKey))
    );
    assert_eq!(values[2].row_id, RowId::from_uuid(20));
    let rows = db.get_all_rows(&col).unwrap();
    assert_eq!(rows.len(), 2);
    assert_eq!(rows[0].value, "a");
    assert_eq!(rows[1].value, "b");
}

#[test]
fn id_taken_before_the_batch_is_refused() {
    let (mut db, col) = store_with_column();
    let mut first = vec![row_for(col, "a")];
    db.store_values_with_ids(&mut first, &vec![RowId::from_uuid(30)]).unwrap();
    let mut second = vec![row_for(col, "b"), row_for(col, "c")];
    let ids = vec![RowId::from_uuid(31), RowId::from_uuid(30)];
    assert_eq!(
        db.store_values_with_ids(&mut second, &ids),
        Err(ApiError::DatabaseError(StorageFault::DuplicateKey))
    );
    let rows = db.get_all_rows(&col).unwrap();
    assert_eq!(rows.len(), 2);
    assert_eq!(rows[1].value, "b");
}

#[test]
fn second_batch_follows_the_first() {
    let (mut db, col) = store_with_column();
    let mut first = vec![row_for(col, "a")];
    db.store_value(&mut first).unwrap();
    let mut second = vec![row_for(col, "b"), row_for(col, "c")];
    db.store_value(&mut second).unwrap();
    let rows = db.get_all_rows(&col).unwrap();
    let got: Vec<&str> = rows.iter().map(|r| r.value.as_str()).collect();
    assert_eq!(got, vec!["a", "b", "c"]);
    assert_ne!(rows[0].row_id, rows[1].row_id);
    assert_ne!(rows[1].row_id, rows[2].row_id);
    assert_ne!(rows[0].row_id, rows[2].row_id);
}

#[test]
fn stamped_constructors_keep_their_arguments() {
    let when = Timestamp { secs: 1_431_648_000, nanos: 5 };
    let r = Record::stamped("users".to_string(), RecordId::from_uuid(3), when);
    assert_eq!(r.name, "users");
    assert_eq!(r.record_id, RecordId::from_uuid(3));
    assert_eq!(r.created_on, when);
    let c = Column::stamped("email", RecordId::from_uuid(3), ColumnId::from_uuid(4), when);
    assert_eq!(c.name, "email");
    assert_eq!(c.for_record, RecordId::from_uuid(3));
    assert_eq!(c.id, ColumnId::from_uuid(4));
    assert_eq!(c.created_on, when);
}

#[test]
fn clock_reading_is_well_formed() {
    let t = Timestamp::now();
    assert!(t.nanos < 2_000_000_000);
    assert!(t.secs > 1_600_000_000);
}
