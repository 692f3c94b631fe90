//! The data model: database rows (`domain`, `table`), request payloads (`dto`)
//! and response shapes (`vo`).
pub mod domain;
pub mod dto;
pub mod table;
pub mod vo;
