//! Rows of the primary database in their extended form.
pub mod primary_database_tables;
