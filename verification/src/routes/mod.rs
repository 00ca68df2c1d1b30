pub mod dataa;
pub mod error;
pub mod reply;
pub mod userdata;
pub mod utils;
