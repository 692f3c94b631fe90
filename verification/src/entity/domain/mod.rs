//! Rows of the primary, business and financial databases.
pub mod business_database_tables;
pub mod financial_database_tables;
pub mod primary_database_tables;
