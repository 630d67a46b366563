pub mod data;
pub mod fetch;
pub mod filter;
pub mod model;
pub mod notify;
pub mod text;
