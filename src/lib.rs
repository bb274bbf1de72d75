//! A small tabular data store: records own named columns, columns own typed
//! values, and a read assembles the whole tree from three flat relations.

pub mod db;
pub mod error;
pub mod ids;
pub mod media;
pub mod model;
pub mod value_type;
pub mod web;
