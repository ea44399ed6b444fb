//! A typed model of OpenAPI 3.0 documents and the synthesis of request
//! templates from it, with the contracts of each step proved by Verus.

pub mod address;
pub mod components;
pub mod error;
pub mod external_doc;
pub mod json;
pub mod operation;
pub mod ordered_map;
pub mod path;
pub mod request;
pub mod server;
pub mod spec;
pub mod synthesis;
pub mod text;
pub mod version;
