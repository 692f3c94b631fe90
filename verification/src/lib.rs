//! Home cloud: the data model, validation rules and computations of a
//! personal cloud back end (notes, files, plans, journals), verified with Verus.
pub mod error;
pub mod util;
pub mod entity;
pub mod claims;
pub mod service;
