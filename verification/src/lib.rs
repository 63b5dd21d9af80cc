pub mod allocator;
pub mod biz;
pub mod bits;
pub mod clock;
pub mod config;
pub mod data;
pub mod engine;
pub mod error;
pub mod error_handling;
pub mod generator;
pub mod hello_world;
pub mod json_response;
pub mod layout;
pub mod metric;
pub mod middleware;
pub mod proto;
pub mod response;
pub mod text;
