//! The decisions of the `Indexed` derive: what the `text_search` attributes
//! of a field say, and which fields hold several values.
pub mod field_info;
pub mod models;
pub mod utils;
