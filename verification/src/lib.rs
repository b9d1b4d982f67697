//! A typed client for the document operations of an ArangoDB collection.

pub mod client;
pub mod collection;
pub mod document;
pub mod error;
pub mod json;
pub mod options;
pub mod query;
pub mod request;
pub mod response;
pub mod target;

pub use crate::client::ClientExt;
pub use crate::collection::{Collection, CollectionType};
pub use crate::document::Document;
pub use crate::error::ClientError;
