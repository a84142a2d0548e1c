pub mod decode;
pub mod encode;
pub mod error;
pub mod json;
pub mod numeral;
pub mod render;
pub mod response;
pub mod urban;

pub use decode::{entries_from_body, first_entry_from_body, tool_tip_from_body};
pub use error::UrbanDictionaryError;
pub use response::Response;
pub use urban::{UrbanDictionary, define_by_id_path, random_path, tool_tip_path};
