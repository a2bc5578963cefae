pub mod decimal;
pub mod handlers;
pub mod ids;
pub mod json;
pub mod invalid;
pub mod mem;
pub mod models;
pub mod row;
pub mod sql;
pub mod time_provider;
