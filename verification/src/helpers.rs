pub mod ddb;
pub mod json_body;
pub mod text;
