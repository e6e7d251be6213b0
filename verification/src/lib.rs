pub mod common;
pub mod errors;
pub mod imaging;
pub mod pipeline;
pub mod request;
pub mod types;
