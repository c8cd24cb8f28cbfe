pub mod sqlite;
pub mod queries;
pub mod schema;
