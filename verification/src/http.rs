//! HTTP messages and their parts.

pub mod body;
pub mod header;
pub mod header_map;
pub mod method;
pub mod mime;
pub mod purge;
pub mod request;
pub mod response;
pub mod status;
pub mod url;
pub mod version;
