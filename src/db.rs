use vstd::prelude::*;
use crate::error::{ApiError, StorageFault};
use crate::ids::{ColumnId, RecordId, RowId};
use crate::model::{
    Column, ColumnOutput, ColumnOutputView, ColumnView, Record, RecordOutput, RecordOutputView,
    RecordView, Row, RowOutput, RowOutputView, StoredRow, StoredRowView,
};
use crate::value_type::{ValueType, tag_of, tag_token};

verus! {

/// The three flat relations of the store, each in storage order.
pub struct StoreView {
    pub records: Seq<RecordView>,
    pub columns: Seq<ColumnView>,
    pub rows: Seq<StoredRowView>,
}

impl StoreView {
    pub open spec fn has_record(&self, id: u128) -> bool {
        exists|i: int| 0 <= i < self.records.len() && #[trigger] self.records[i].record_id == id
    }

    pub open spec fn has_column(&self, id: u128) -> bool {
        exists|j: int| 0 <= j < self.columns.len() && #[trigger] self.columns[j].id == id
    }

    pub open spec fn has_row(&self, id: u128) -> bool {
        exists|k: int| 0 <= k < self.rows.len() && #[trigger] self.rows[k].row_id == id
    }

    /// The store after `r` is appended to the records.
    pub open spec fn with_record(&self, r: RecordView) -> StoreView {
        StoreView { records: self.records.push(r), ..*self }
    }

    /// The store after `c` is appended to the columns.
    pub open spec fn with_column(&self, c: ColumnView) -> StoreView {
        StoreView { columns: self.columns.push(c), ..*self }
    }

    /// Each relation is keyed by its identifier, and every column and value
    /// names a stored parent.
    pub open spec fn wf(&self) -> bool {
        &&& forall|i: int, j: int|
            0 <= i < j < self.records.len() ==> #[trigger] self.records[i].record_id
                != #[trigger] self.records[j].record_id
        &&& forall|i: int, j: int|
            0 <= i < j < self.columns.len() ==> #[trigger] self.columns[i].id
                != #[trigger] self.columns[j].id
        &&& forall|i: int, j: int|
            0 <= i < j < self.rows.len() ==> #[trigger] self.rows[i].row_id
                != #[trigger] self.rows[j].row_id
        &&& forall|j: int|
            0 <= j < self.columns.len() ==> self.has_record(#[trigger] self.columns[j].for_record)
        &&& forall|k: int|
            0 <= k < self.rows.len() ==> self.has_column(#[trigger] self.rows[k].for_column)
    }
}

/// The values of column `col`, in storage order.
pub open spec fn column_rows(rows: Seq<StoredRowView>, col: u128) -> Seq<StoredRowView>
    decreases rows.len(),
{
    if rows.len() == 0 {
        seq![]
    } else {
        let prev = column_rows(rows.drop_last(), col);
        if rows.last().for_column == col {
            prev.push(rows.last())
        } else {
            prev
        }
    }
}

/// The columns of record `rec`, in storage order.
pub open spec fn record_columns(columns: Seq<ColumnView>, rec: u128) -> Seq<ColumnView>
    decreases columns.len(),
{
    if columns.len() == 0 {
        seq![]
    } else {
        let prev = record_columns(columns.drop_last(), rec);
        if columns.last().for_record == rec {
            prev.push(columns.last())
        } else {
            prev
        }
    }
}

/// Every stored tag of column `col` is one of the known tokens.
pub open spec fn rows_ok(rows: Seq<StoredRowView>, col: u128) -> bool {
    forall|k: int|
        0 <= k < rows.len() && #[trigger] rows[k].for_column == col ==> tag_of(
            rows[k].value_type,
        ) is Some
}

/// Every stored tag under record `rec` is one of the known tokens.
pub open spec fn columns_ok(v: StoreView, rec: u128) -> bool {
    forall|j: int|
        0 <= j < v.columns.len() && #[trigger] v.columns[j].for_record == rec ==> rows_ok(
            v.rows,
            v.columns[j].id,
        )
}

/// Every stored tag under every record is one of the known tokens.
pub open spec fn records_ok(v: StoreView) -> bool {
    forall|i: int| 0 <= i < v.records.len() ==> columns_ok(v, #[trigger] v.records[i].record_id)
}

pub open spec fn row_output_of(r: StoredRowView) -> RowOutputView {
    RowOutputView {
        row_id: r.row_id,
        value: r.value,
        value_type: tag_of(r.value_type)->Some_0,
        for_column: r.for_column,
    }
}

/// What a read of column `col` returns.
pub open spec fn hydrated_rows(rows: Seq<StoredRowView>, col: u128) -> Seq<RowOutputView> {
    column_rows(rows, col).map_values(|r: StoredRowView| row_output_of(r))
}

pub open spec fn column_output_of(rows: Seq<StoredRowView>, c: ColumnView) -> ColumnOutputView {
    ColumnOutputView {
        created_on: c.created_on,
        name: c.name,
        id: c.id,
        rows: hydrated_rows(rows, c.id),
    }
}

/// What a read of the columns of record `rec` returns.
pub open spec fn hydrated_columns(v: StoreView, rec: u128) -> Seq<ColumnOutputView> {
    record_columns(v.columns, rec).map_values(|c: ColumnView| column_output_of(v.rows, c))
}

pub open spec fn record_output_of(v: StoreView, r: RecordView) -> RecordOutputView {
    RecordOutputView { columns: hydrated_columns(v, r.record_id), info: r }
}

/// What a read of the whole store returns.
pub open spec fn hydrated_records(v: StoreView) -> Seq<RecordOutputView> {
    v.records.map_values(|r: RecordView| record_output_of(v, r))
}

/// How a value that a caller hands in is stored.
pub open spec fn stored_of(row: Row) -> StoredRowView {
    StoredRowView {
        row_id: row.row_id@,
        for_column: row.for_column@,
        value: row.value@,
        value_type: tag_token(row.value_type),
    }
}

/// The values of a batch as they are stored.
pub open spec fn stored_batch(values: Seq<Row>) -> Seq<StoredRowView> {
    values.map_values(|row: Row| stored_of(row))
}

/// The error that storing `batch[n]` meets once the values before it are
/// stored, if any.
pub open spec fn refusal(v: StoreView, batch: Seq<StoredRowView>, n: int) -> Option<ApiError> {
    let pre = StoreView { rows: v.rows + batch.take(n), ..v };
    if pre.has_row(batch[n].row_id) {
        Some(ApiError::DatabaseError(StorageFault::DuplicateKey))
    } else if !v.has_column(batch[n].for_column) {
        Some(ApiError::DatabaseError(StorageFault::MissingParent))
    } else {
        None
    }
}

/// Values that no write refused carry identifiers that differ from each
/// other and from every identifier stored before them.
pub proof fn lemma_unrefused_fresh(v: StoreView, batch: Seq<StoredRowView>, n: int)
    requires
        0 <= n <= batch.len(),
        forall|m: int| 0 <= m < n ==> #[trigger] refusal(v, batch, m) is None,
    ensures
        forall|a: int, b: int| 0 <= a < b < n ==> #[trigger] batch[a].row_id != #[trigger] batch[b].row_id,
        forall|a: int| 0 <= a < n ==> !v.has_row(#[trigger] batch[a].row_id),
{
    assert forall|a: int, b: int| 0 <= a < b < n implies #[trigger] batch[a].row_id
        != #[trigger] batch[b].row_id by {
        assert(refusal(v, batch, b) is None);
        let pre = StoreView { rows: v.rows + batch.take(b), ..v };
        assert(!pre.has_row(batch[b].row_id));
        assert(batch.take(b)[a] == batch[a]);
        assert(pre.rows[v.rows.len() + a] == batch[a]);
        assert(pre.rows[v.rows.len() + a].row_id != batch[b].row_id);
    }
    assert forall|a: int| 0 <= a < n implies !v.has_row(#[trigger] batch[a].row_id) by {
        assert(refusal(v, batch, a) is None);
        let pre = StoreView { rows: v.rows + batch.take(a), ..v };
        assert(!pre.has_row(batch[a].row_id));
        if v.has_row(batch[a].row_id) {
            let k = choose|k: int|
                0 <= k < v.rows.len() && #[trigger] v.rows[k].row_id == batch[a].row_id;
            assert(pre.rows[k] == v.rows[k]);
            assert(pre.rows[k].row_id == batch[a].row_id);
        }
    }
}

/// The store: three flat relations of records, columns and values.
pub struct DatabaseArm {
    records: Vec<Record>,
    columns: Vec<Column>,
    rows: Vec<StoredRow>,
}

impl View for DatabaseArm {
    type V = StoreView;

    closed spec fn view(&self) -> StoreView {
        StoreView {
            records: self.records@.map_values(|r: Record| r@),
            columns: self.columns@.map_values(|c: Column| c@),
            rows: self.rows@.map_values(|r: StoredRow| r@),
        }
    }
}

impl DatabaseArm {
    /// An empty store.
    pub fn new() -> (r: Self)
        ensures
            r@.records.len() == 0,
            r@.columns.len() == 0,
            r@.rows.len() == 0,
            r@.wf(),
    {
        let r = DatabaseArm { records: Vec::new(), columns: Vec::new(), rows: Vec::new() };
        proof {
            assert(r@.records.len() == 0);
        }
        r
    }

    fn find_record(&self, id: RecordId) -> (r: bool)
        ensures
            r == self@.has_record(id@),
    {
        let mut i: usize = 0;
        while i < self.records.len()
            invariant
                i <= self.records@.len(),
                forall|m: int| 0 <= m < i ==> self@.records[m].record_id != id@,
            decreases self.records.len() - i,
        {
            if self.records[i].record_id == id {
                assert(self@.records[i as int].record_id == id@);
                return true;
            }
            i += 1;
        }
        false
    }

    fn find_column(&self, id: ColumnId) -> (r: bool)
        ensures
            r == self@.has_column(id@),
    {
        let mut j: usize = 0;
        while j < self.columns.len()
            invariant
                j <= self.columns@.len(),
                forall|m: int| 0 <= m < j ==> self@.columns[m].id != id@,
            decreases self.columns.len() - j,
        {
            if self.columns[j].id == id {
                assert(self@.columns[j as int].id == id@);
                return true;
            }
            j += 1;
        }
        false
    }

    fn find_row(&self, id: RowId) -> (r: bool)
        ensures
            r == self@.has_row(id@),
    {
        let mut k: usize = 0;
        while k < self.rows.len()
            invariant
                k <= self.rows@.len(),
                forall|m: int| 0 <= m < k ==> self@.rows[m].row_id != id@,
            decreases self.rows.len() - k,
        {
            if self.rows[k].row_id == id {
                assert(self@.rows[k as int].row_id == id@);
                return true;
            }
            k += 1;
        }
        false
    }

    /// Stores `record`; its identifier must not be a stored record's.
    pub fn create_record(&mut self, record: &Record) -> (r: Result<(), ApiError>)
        requires
            old(self)@.wf(),
        ensures
            final(self)@.wf(),
            old(self)@.has_record(record.record_id@) ==> r == Err::<(), ApiError>(
                ApiError::DatabaseError(StorageFault::DuplicateKey),
            ) && final(self)@ == old(self)@,
            !old(self)@.has_record(record.record_id@) ==> r == Ok::<(), ApiError>(())
                && final(self)@ == old(self)@.with_record(record@),
    {
        if self.find_record(record.record_id) {
            return Err(ApiError::DatabaseError(StorageFault::DuplicateKey));
        }
        let ghost pre = self@;
        self.records.push(record.clone());
        proof {
            assert(self@.records =~= pre.records.push(record@));
            assert(self@.columns =~= pre.columns);
            assert(self@.rows =~= pre.rows);
            assert forall|j: int| 0 <= j < self@.columns.len() implies self@.has_record(
                #[trigger] self@.columns[j].for_record,
            ) by {
                let i = choose|i: int|
                    0 <= i < pre.records.len() && #[trigger] pre.records[i].record_id
                        == pre.columns[j].for_record;
                assert(self@.records[i].record_id == self@.columns[j].for_record);
            }
        }
        Ok(())
    }

    /// Stores `column`; its identifier must not be a stored column's, and
    /// it must name a stored record.
    pub fn create_column(&mut self, column: &Column) -> (r: Result<(), ApiError>)
        requires
            old(self)@.wf(),
        ensures
            final(self)@.wf(),
            old(self)@.has_column(column.id@) ==> r == Err::<(), ApiError>(
                ApiError::DatabaseError(StorageFault::DuplicateKey),
            ),
            !old(self)@.has_column(column.id@) && !old(self)@.has_record(column.for_record@) ==> r
                == Err::<(), ApiError>(ApiError::DatabaseError(StorageFault::MissingParent)),
            r is Err ==> final(self)@ == old(self)@,
            !old(self)@.has_column(column.id@) && old(self)@.has_record(column.for_record@) ==> r
                == Ok::<(), ApiError>(()) && final(self)@ == old(self)@.with_column(column@),
    {
        if self.find_column(column.id) {
            return Err(ApiError::DatabaseError(StorageFault::DuplicateKey));
        }
        if !self.find_record(column.for_record) {
            return Err(ApiError::DatabaseError(StorageFault::MissingParent));
        }
        let ghost pre = self@;
        self.columns.push(column.clone());
        proof {
            assert(self@.records =~= pre.records);
            assert(self@.columns =~= pre.columns.push(column@));
            assert(self@.rows =~= pre.rows);
            assert forall|k: int| 0 <= k < self@.rows.len() implies self@.has_column(
                #[trigger] self@.rows[k].for_column,
            ) by {
                let j = choose|j: int|
                    0 <= j < pre.columns.len() && #[trigger] pre.columns[j].id
                        == pre.rows[k].for_column;
                assert(self@.columns[j].id == self@.rows[k].for_column);
            }
            assert forall|j: int| 0 <= j < self@.columns.len() implies self@.has_record(
                #[trigger] self@.columns[j].for_record,
            ) by {
                if j < pre.columns.len() {
                    assert(pre.has_record(pre.columns[j].for_record));
                }
            }
        }
        Ok(())
    }

    /// Stores a value as the backing relation holds it, whatever its tag
    /// token; its identifier must not be a stored value's, and it must name
    /// a stored column.
    pub fn insert_stored_row(&mut self, row: StoredRow) -> (r: Result<(), ApiError>)
        requires
            old(self)@.wf(),
        ensures
            final(self)@.wf(),
            old(self)@.has_row(row.row_id@) ==> r == Err::<(), ApiError>(
                ApiError::DatabaseError(StorageFault::DuplicateKey),
            ),
            !old(self)@.has_row(row.row_id@) && !old(self)@.has_column(row.for_column@) ==> r
                == Err::<(), ApiError>(ApiError::DatabaseError(StorageFault::MissingParent)),
            r is Err ==> final(self)@ == old(self)@,
            !old(self)@.has_row(row.row_id@) && old(self)@.has_column(row.for_column@) ==> r
                == Ok::<(), ApiError>(()) && final(self)@ == (StoreView {
                rows: old(self)@.rows.push(row@),
                ..old(self)@
            }),
    {
        if self.find_row(row.row_id) {
            return Err(ApiError::DatabaseError(StorageFault::DuplicateKey));
        }
        if !self.find_column(row.for_column) {
            return Err(ApiError::DatabaseError(StorageFault::MissingParent));
        }
        let ghost pre = self@;
        let ghost rv = row@;
        self.rows.push(row);
        proof {
            assert(self@.records =~= pre.records);
            assert(self@.columns =~= pre.columns);
            assert(self@.rows =~= pre.rows.push(rv));
            assert forall|k: int| 0 <= k < self@.rows.len() implies self@.has_column(
                #[trigger] self@.rows[k].for_column,
            ) by {
                if k < pre.rows.len() {
                    assert(pre.has_column(pre.rows[k].for_column));
                }
            }
        }
        Ok(())
    }

    /// Stores one value, its tag written as its token.
    pub fn create_row(&mut self, row: &Row) -> (r: Result<(), ApiError>)
        requires
            old(self)@.wf(),
        ensures
            final(self)@.wf(),
            old(self)@.has_row(row.row_id@) ==> r == Err::<(), ApiError>(
                ApiError::DatabaseError(StorageFault::DuplicateKey),
            ),
            !old(self)@.has_row(row.row_id@) && !old(self)@.has_column(row.for_column@) ==> r
                == Err::<(), ApiError>(ApiError::DatabaseError(StorageFault::MissingParent)),
            r is Err ==> final(self)@ == old(self)@,
            !old(self)@.has_row(row.row_id@) && old(self)@.has_column(row.for_column@) ==> r
                == Ok::<(), ApiError>(()) && final(self)@ == (StoreView {
                rows: old(self)@.rows.push(stored_of(*row)),
                ..old(self)@
            }),
    {
        let stored = StoredRow {
            row_id: row.row_id,
            for_column: row.for_column,
            value: row.value.clone(),
            value_type: row.value_type.to_text(),
        };
        self.insert_stored_row(stored)
    }
    /// All values of column `id`, in storage order, with their tags decoded.
    pub fn get_all_rows(&self, id: &ColumnId) -> (r: Result<Vec<RowOutput>, ApiError>)
        ensures
            r is Ok <==> rows_ok(self@.rows, id@),
            r is Err ==> r == Err::<Vec<RowOutput>, ApiError>(ApiError::DataIntegrity),
            r is Ok ==> r->Ok_0@.map_values(|o: RowOutput| o@) == hydrated_rows(self@.rows, id@),
    {
        let ghost rows = self@.rows;
        let mut out: Vec<RowOutput> = Vec::new();
        let mut k: usize = 0;
        while k < self.rows.len()
            invariant
                rows == self@.rows,
                k <= rows.len(),
                forall|m: int|
                    0 <= m < k && #[trigger] rows[m].for_column == id@ ==> tag_of(
                        rows[m].value_type,
                    ) is Some,
                out@.map_values(|o: RowOutput| o@) == hydrated_rows(rows.take(k as int), id@),
            decreases self.rows.len() - k,
        {
            let row = &self.rows[k];
            assert(rows.take(k + 1).drop_last() =~= rows.take(k as int));
            assert(row@ == rows[k as int]);
            if row.for_column == *id {
                match ValueType::from_text(row.value_type.as_str()) {
                    Err(e) => {
                        return Err(e);
                    },
                    Ok(t) => {
                        let ghost prev = out@;
                        out.push(
                            RowOutput {
                                row_id: row.row_id,
                                value: row.value.clone(),
                                value_type: t,
                                for_column: row.for_column,
                            },
                        );
                        assert(out@.map_values(|o: RowOutput| o@) =~= prev.map_values(
                            |o: RowOutput| o@,
                        ).push(row_output_of(rows[k as int])));
                        assert(column_rows(rows.take(k + 1), id@) == column_rows(
                            rows.take(k as int),
                            id@,
                        ).push(rows[k as int]));
                        assert(hydrated_rows(rows.take(k + 1), id@) =~= hydrated_rows(
                            rows.take(k as int),
                            id@,
                        ).push(row_output_of(rows[k as int])));
                    },
                }
            } else {
                assert(column_rows(rows.take(k + 1), id@) == column_rows(
                    rows.take(k as int),
                    id@,
                ));
            }
            k += 1;
        }
        assert(rows.take(k as int) =~= rows);
        Ok(out)
    }

    /// All columns of record `id`, in storage order, each with its values.
    pub fn get_all_columns(&self, id: &RecordId) -> (r: Result<Vec<ColumnOutput>, ApiError>)
        ensures
            r is Ok <==> columns_ok(self@, id@),
            r is Err ==> r == Err::<Vec<ColumnOutput>, ApiError>(ApiError::DataIntegrity),
            r is Ok ==> r->Ok_0@.map_values(|o: ColumnOutput| o@) == hydrated_columns(self@, id@),
    {
        let ghost v = self@;
        let ghost cols = self@.columns;
        let mut out: Vec<ColumnOutput> = Vec::new();
        let mut j: usize = 0;
        while j < self.columns.len()
            invariant
                v == self@,
                cols == v.columns,
                j <= cols.len(),
                forall|m: int|
                    0 <= m < j && #[trigger] cols[m].for_record == id@ ==> rows_ok(
                        v.rows,
                        cols[m].id,
                    ),
                out@.map_values(|o: ColumnOutput| o@) == record_columns(
                    cols.take(j as int),
                    id@,
                ).map_values(|c: ColumnView| column_output_of(v.rows, c)),
            decreases self.columns.len() - j,
        {
            let column = &self.columns[j];
            assert(cols.take(j + 1).drop_last() =~= cols.take(j as int));
            assert(column@ == cols[j as int]);
            if column.for_record == *id {
                let rows = match self.get_all_rows(&column.id) {
                    Err(e) => {
                        assert(v.columns[j as int].for_record == id@);
                        return Err(e);
                    },
                    Ok(rows) => rows,
                };
                let ghost prev = out@;
                out.push(
                    ColumnOutput {
                        created_on: column.created_on,
                        name: column.name.clone(),
                        id: column.id,
                        rows,
                    },
                );
                assert(out@.map_values(|o: ColumnOutput| o@) =~= prev.map_values(
                    |o: ColumnOutput| o@,
                ).push(column_output_of(v.rows, cols[j as int])));
                assert(record_columns(cols.take(j + 1), id@) == record_columns(
                    cols.take(j as int),
                    id@,
                ).push(cols[j as int]));
                assert(record_columns(cols.take(j + 1), id@).map_values(
                    |c: ColumnView| column_output_of(v.rows, c),
                ) =~= record_columns(cols.take(j as int), id@).map_values(
                    |c: ColumnView| column_output_of(v.rows, c),
                ).push(column_output_of(v.rows, cols[j as int])));
            } else {
                assert(record_columns(cols.take(j + 1), id@) == record_columns(
                    cols.take(j as int),
                    id@,
                ));
            }
            j += 1;
        }
        assert(cols.take(j as int) =~= cols);
        Ok(out)
    }

    /// Every record, in storage order, each with its columns and their
    /// values.
    pub fn get_all_records(&self) -> (r: Result<Vec<RecordOutput>, ApiError>)
        ensures
            r is Ok <==> records_ok(self@),
            r is Err ==> r == Err::<Vec<RecordOutput>, ApiError>(ApiError::DataIntegrity),
            r is Ok ==> r->Ok_0@.map_values(|o: RecordOutput| o@) == hydrated_records(self@),
            r is Ok ==> r->Ok_0@.len() == self@.records.len(),
    {
        let ghost v = self@;
        let mut out: Vec<RecordOutput> = Vec::new();
        let mut i: usize = 0;
        while i < self.records.len()
            invariant
                v == self@,
                i <= v.records.len(),
                forall|m: int| 0 <= m < i ==> columns_ok(v, #[trigger] v.records[m].record_id),
                out@.map_values(|o: RecordOutput| o@) =~= v.records.take(i as int).map_values(
                    |r: RecordView| record_output_of(v, r),
                ),
            decreases self.records.len() - i,
        {
            let record = &self.records[i];
            assert(record@ == v.records[i as int]);
            let columns = match self.get_all_columns(&record.record_id) {
                Err(e) => {
                    assert(!columns_ok(v, v.records[i as int].record_id));
                    return Err(e);
                },
                Ok(columns) => columns,
            };
            let ghost prev = out@;
            out.push(RecordOutput { columns, info: record.clone() });
            assert(out@.map_values(|o: RecordOutput| o@) =~= prev.map_values(
                |o: RecordOutput| o@,
            ).push(record_output_of(v, v.records[i as int])));
            assert(v.records.take(i + 1).map_values(|r: RecordView| record_output_of(v, r))
                =~= v.records.take(i as int).map_values(|r: RecordView| record_output_of(v, r)).push(
                record_output_of(v, v.records[i as int]),
            ));
            i += 1;
        }
        assert(v.records.take(i as int) =~= v.records);
        assert(out@.len() == out@.map_values(|o: RecordOutput| o@).len());
        Ok(out)
    }
    /// Gives each value of the batch the identifier at the same place in
    /// `ids`, then stores the values one after another, in order. The first
    /// refused write ends the batch; the values before it stay stored.
    pub fn store_values_with_ids(&mut self, values: &mut Vec<Row>, ids: &Vec<RowId>) -> (r: Result<
        (),
        ApiError,
    >)
        requires
            old(self)@.wf(),
            ids@.len() == old(values)@.len(),
        ensures
            final(self)@.wf(),
            final(self)@.records == old(self)@.records,
            final(self)@.columns == old(self)@.columns,
            final(values)@.len() == old(values)@.len(),
            forall|m: int|
                0 <= m < final(values)@.len() ==> (#[trigger] final(values)@[m]).row_id == ids@[m]
                    && final(values)@[m].for_column == old(values)@[m].for_column
                    && final(values)@[m].value == old(values)@[m].value
                    && final(values)@[m].value_type == old(values)@[m].value_type,
            r is Ok <==> forall|n: int|
                0 <= n < final(values)@.len() ==> #[trigger] refusal(
                    old(self)@,
                    stored_batch(final(values)@),
                    n,
                ) is None,
            r is Ok ==> final(self)@.rows == old(self)@.rows + stored_batch(final(values)@),
            r is Err ==> exists|n: int|
                0 <= n < final(values)@.len() && (forall|m: int|
                    0 <= m < n ==> #[trigger] refusal(old(self)@, stored_batch(final(values)@), m)
                        is None) && refusal(old(self)@, stored_batch(final(values)@), n) == Some(
                    r->Err_0,
                ) && final(self)@.rows == old(self)@.rows + stored_batch(final(values)@).take(n),
    {
        let ghost orig = values@;
        let mut i: usize = 0;
        while i < values.len()
            invariant
                orig == old(values)@,
                ids@.len() == orig.len(),
                values@.len() == orig.len(),
                i <= orig.len(),
                forall|m: int|
                    0 <= m < orig.len() ==> (#[trigger] values@[m]).for_column == orig[m].for_column
                        && values@[m].value == orig[m].value && values@[m].value_type
                        == orig[m].value_type,
                forall|m: int| 0 <= m < i ==> (#[trigger] values@[m]).row_id == ids@[m],
            decreases values.len() - i,
        {
            values[i].row_id = ids[i];
            i += 1;
        }
        let ghost start = self@;
        let ghost fixed = values@;
        let ghost batch = stored_batch(values@);
        let mut k: usize = 0;
        while k < values.len()
            invariant
                values@ == fixed,
                orig == old(values)@,
                ids@.len() == orig.len(),
                fixed.len() == orig.len(),
                forall|m: int|
                    0 <= m < orig.len() ==> (#[trigger] fixed[m]).row_id == ids@[m]
                        && fixed[m].for_column == orig[m].for_column && fixed[m].value
                        == orig[m].value && fixed[m].value_type == orig[m].value_type,
                start == old(self)@,
                start.wf(),
                self@.wf(),
                batch == stored_batch(values@),
                batch.len() == values@.len(),
                k <= values@.len(),
                self@.records == start.records,
                self@.columns == start.columns,
                self@.rows == start.rows + batch.take(k as int),
                forall|m: int| 0 <= m < k ==> #[trigger] refusal(start, batch, m) is None,
            decreases values.len() - k,
        {
            let ghost pre = self@;
            assert(pre == (StoreView { rows: start.rows + batch.take(k as int), ..start }));
            assert(batch[k as int] == stored_of(values@[k as int]));
            let result = self.create_row(&values[k]);
            match result {
                Err(e) => {
                    assert(refusal(start, batch, k as int) == Some(e));
                    return Err(e);
                },
                Ok(()) => {},
            }
            assert(start.rows + batch.take(k + 1) =~= (start.rows + batch.take(k as int)).push(
                batch[k as int],
            ));
            k += 1;
        }
        assert(batch.take(k as int) =~= batch);
        Ok(())
    }

    /// Draws a fresh random identifier for each value of the batch and
    /// stores the values one after another, in order, as
    /// `store_values_with_ids` does with those identifiers. A drawn
    /// identifier that is already taken refuses its value.
    pub fn store_value(&mut self, values: &mut Vec<Row>) -> (r: Result<(), ApiError>)
        requires
            old(self)@.wf(),
        ensures
            final(self)@.wf(),
            final(self)@.records == old(self)@.records,
            final(self)@.columns == old(self)@.columns,
            final(values)@.len() == old(values)@.len(),
            forall|m: int|
                0 <= m < final(values)@.len() ==> (#[trigger] final(values)@[m]).for_column
                    == old(values)@[m].for_column && final(values)@[m].value == old(values)@[m].value
                    && final(values)@[m].value_type == old(values)@[m].value_type,
            r is Ok <==> forall|n: int|
                0 <= n < final(values)@.len() ==> #[trigger] refusal(
                    old(self)@,
                    stored_batch(final(values)@),
                    n,
                ) is None,
            r is Ok ==> final(self)@.rows == old(self)@.rows + stored_batch(final(values)@),
            r is Ok ==> forall|a: int, b: int|
                0 <= a < b < final(values)@.len() ==> (#[trigger] final(values)@[a]).row_id
                    != (#[trigger] final(values)@[b]).row_id,
            r is Ok ==> forall|a: int|
                0 <= a < final(values)@.len() ==> !old(self)@.has_row(
                    (#[trigger] final(values)@[a]).row_id@,
                ),
            r is Err ==> exists|n: int|
                0 <= n < final(values)@.len() && (forall|m: int|
                    0 <= m < n ==> #[trigger] refusal(old(self)@, stored_batch(final(values)@), m)
                        is None) && refusal(old(self)@, stored_batch(final(values)@), n) == Some(
                    r->Err_0,
                ) && final(self)@.rows == old(self)@.rows + stored_batch(final(values)@).take(n),
            (exists|m: int|
                0 <= m < old(values)@.len() && !old(self)@.has_column(
                    #[trigger] old(values)@[m].for_column@,
                )) ==> r is Err,
    {
        let mut ids: Vec<RowId> = Vec::new();
        let mut i: usize = 0;
        while i < values.len()
            invariant
                ids@.len() == i,
                i <= values@.len(),
            decreases values.len() - i,
        {
            ids.push(RowId::new());
            i += 1;
        }
        let ghost start = self@;
        let ghost orig = values@;
        let r = self.store_values_with_ids(values, &ids);
        proof {
            let batch = stored_batch(values@);
            if r is Ok {
                lemma_unrefused_fresh(start, batch, batch.len() as int);
                assert forall|a: int, b: int|
                    0 <= a < b < values@.len() implies (#[trigger] values@[a]).row_id
                    != (#[trigger] values@[b]).row_id by {
                    assert(batch[a].row_id != batch[b].row_id);
                }
                assert forall|a: int| 0 <= a < values@.len() implies !start.has_row(
                    (#[trigger] values@[a]).row_id@,
                ) by {
                    assert(batch[a].row_id == values@[a].row_id@);
                }
            }
            if exists|m: int|
                0 <= m < orig.len() && !start.has_column(#[trigger] orig[m].for_column@) {
                let m = choose|m: int|
                    0 <= m < orig.len() && !start.has_column(#[trigger] orig[m].for_column@);
                assert(batch[m].for_column == orig[m].for_column@);
                if refusal(start, batch, m) is None {
                    assert(false);
                }
            }
        }
        r
    }
}

proof fn lemma_no_columns(columns: Seq<ColumnView>, rec: u128)
    requires
        forall|j: int| 0 <= j < columns.len() ==> (#[trigger] columns[j]).for_record != rec,
    ensures
        record_columns(columns, rec) == Seq::<ColumnView>::empty(),
    decreases columns.len(),
{
    if columns.len() > 0 {
        lemma_no_columns(columns.drop_last(), rec);
    }
}

proof fn lemma_no_rows(rows: Seq<StoredRowView>, col: u128)
    requires
        forall|k: int| 0 <= k < rows.len() ==> (#[trigger] rows[k]).for_column != col,
    ensures
        column_rows(rows, col) == Seq::<StoredRowView>::empty(),
    decreases rows.len(),
{
    if rows.len() > 0 {
        lemma_no_rows(rows.drop_last(), col);
    }
}

/// Creating a record with a fresh identifier and reading the whole store
/// gives what the read gave before, followed by exactly that record with no
/// columns; whether the read succeeds does not change.
pub proof fn lemma_created_record_reads_back(v: StoreView, r: RecordView)
    requires
        v.wf(),
        !v.has_record(r.record_id),
    ensures
        records_ok(v.with_record(r)) == records_ok(v),
        hydrated_records(v.with_record(r)) == hydrated_records(v).push(
            RecordOutputView { columns: Seq::empty(), info: r },
        ),
        forall|i: int|
            0 <= i < v.records.len() ==> (#[trigger] hydrated_records(v)[i]).info.record_id
                != r.record_id,
        forall|i: int|
            0 <= i < hydrated_records(v.with_record(r)).len() ==> ((#[trigger] hydrated_records(
                v.with_record(r),
            )[i]).info.record_id == r.record_id <==> i == v.records.len()),
{
    let w = v.with_record(r);
    assert forall|j: int| 0 <= j < v.columns.len() implies (#[trigger] v.columns[j]).for_record
        != r.record_id by {
        assert(v.has_record(v.columns[j].for_record));
    }
    lemma_no_columns(v.columns, r.record_id);
    assert(hydrated_columns(w, r.record_id) =~= Seq::<ColumnOutputView>::empty());
    assert(hydrated_records(w) =~= hydrated_records(v).push(
        RecordOutputView { columns: Seq::empty(), info: r },
    ));
    assert forall|i: int| 0 <= i < v.records.len() implies (#[trigger] hydrated_records(
        v,
    )[i]).info.record_id != r.record_id by {
        assert(v.records[i].record_id == hydrated_records(v)[i].info.record_id);
    }
    assert forall|i: int| 0 <= i < hydrated_records(w).len() implies ((#[trigger] hydrated_records(
        w,
    )[i]).info.record_id == r.record_id <==> i == v.records.len()) by {
        if i < v.records.len() {
            assert(hydrated_records(w)[i] == hydrated_records(v)[i]);
            assert(v.records[i].record_id == hydrated_records(v)[i].info.record_id);
        }
    }
    if records_ok(v) {
        assert forall|i: int| 0 <= i < w.records.len() implies columns_ok(
            w,
            #[trigger] w.records[i].record_id,
        ) by {
            if i < v.records.len() {
                assert(columns_ok(v, v.records[i].record_id));
            }
        }
    }
    if records_ok(w) {
        assert forall|i: int| 0 <= i < v.records.len() implies columns_ok(
            v,
            #[trigger] v.records[i].record_id,
        ) by {
            assert(columns_ok(w, w.records[i].record_id));
        }
    }
}

/// Creating a column with a fresh identifier under the stored record at
/// index `i`, and reading the whole store, adds exactly that column, with
/// no values, to the end of that record's columns and changes nothing else;
/// whether the read succeeds does not change.
pub proof fn lemma_created_column_reads_back(v: StoreView, c: ColumnView, i: int)
    requires
        v.wf(),
        !v.has_column(c.id),
        0 <= i < v.records.len(),
        v.records[i].record_id == c.for_record,
    ensures
        records_ok(v.with_column(c)) == records_ok(v),
        hydrated_records(v.with_column(c)).len() == hydrated_records(v).len(),
        hydrated_records(v.with_column(c))[i].info == hydrated_records(v)[i].info,
        hydrated_records(v.with_column(c))[i].columns == hydrated_records(v)[i].columns.push(
            ColumnOutputView {
                created_on: c.created_on,
                name: c.name,
                id: c.id,
                rows: Seq::empty(),
            },
        ),
        forall|k: int|
            0 <= k < v.records.len() && k != i ==> #[trigger] hydrated_records(v.with_column(c))[k]
                == hydrated_records(v)[k],
{
    let w = v.with_column(c);
    assert forall|k: int| 0 <= k < v.rows.len() implies (#[trigger] v.rows[k]).for_column
        != c.id by {
        assert(v.has_column(v.rows[k].for_column));
    }
    lemma_no_rows(v.rows, c.id);
    assert(hydrated_rows(v.rows, c.id) =~= Seq::<RowOutputView>::empty());
    assert(w.columns.drop_last() =~= v.columns);
    assert forall|x: int| 0 <= x < v.records.len() && x != i implies #[trigger] hydrated_records(
        w,
    )[x] == hydrated_records(v)[x] by {
        assert(v.records[x].record_id != c.for_record);
        assert(record_columns(w.columns, v.records[x].record_id) == record_columns(
            v.columns,
            v.records[x].record_id,
        ));
    }
    assert(record_columns(w.columns, c.for_record) == record_columns(
        v.columns,
        c.for_record,
    ).push(c));
    assert(hydrated_columns(w, c.for_record) =~= hydrated_columns(v, c.for_record).push(
        column_output_of(v.rows, c),
    ));
    assert(rows_ok(v.rows, c.id));
    assert forall|x: u128| #[trigger] columns_ok(w, x) == columns_ok(v, x) by {
        if columns_ok(v, x) {
            assert forall|j: int|
                0 <= j < w.columns.len() && #[trigger] w.columns[j].for_record == x implies rows_ok(
                w.rows,
                w.columns[j].id,
            ) by {
                if j < v.columns.len() {
                    assert(v.columns[j].for_record == x);
                }
            }
        }
        if columns_ok(w, x) {
            assert forall|j: int|
                0 <= j < v.columns.len() && #[trigger] v.columns[j].for_record == x implies rows_ok(
                v.rows,
                v.columns[j].id,
            ) by {
                assert(w.columns[j].for_record == x);
            }
        }
    }
    assert(w.records == v.records);
}

proof fn lemma_column_rows_append(a: Seq<StoredRowView>, b: Seq<StoredRowView>, col: u128)
    requires
        forall|k: int| 0 <= k < b.len() ==> (#[trigger] b[k]).for_column == col,
    ensures
        column_rows(a + b, col) == column_rows(a, col) + b,
    decreases b.len(),
{
    if b.len() == 0 {
        assert(a + b =~= a);
        assert(column_rows(a, col) + b =~= column_rows(a, col));
    } else {
        lemma_column_rows_append(a, b.drop_last(), col);
        assert((a + b).drop_last() =~= a + b.drop_last());
        assert(column_rows(a, col) + b =~= (column_rows(a, col) + b.drop_last()).push(b.last()));
    }
}

/// Storing a batch of values of column `col` and reading that column gives
/// what the read gave before, followed by the batch's values in the order
/// they were submitted.
pub proof fn lemma_stored_batch_reads_back(
    v: StoreView,
    batch: Seq<StoredRowView>,
    col: u128,
)
    requires
        forall|k: int| 0 <= k < batch.len() ==> (#[trigger] batch[k]).for_column == col,
    ensures
        hydrated_rows(v.rows + batch, col) == hydrated_rows(v.rows, col) + batch.map_values(
            |r: StoredRowView| row_output_of(r),
        ),
{
    lemma_column_rows_append(v.rows, batch, col);
    assert((column_rows(v.rows, col) + batch).map_values(|r: StoredRowView| row_output_of(r))
        =~= hydrated_rows(v.rows, col) + batch.map_values(|r: StoredRowView| row_output_of(r)));
}

} // verus!
