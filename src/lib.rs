//! Authorization and data access for a collaborative workspace backed by a
//! schemaless key-value store: the record codec, the paginated scan engine,
//! the requests of the entity services, the role check that guards note
//! creation, and the naming of uploaded thumbnails.

pub mod attr;
pub mod authority;
pub mod error;
pub mod flow;
pub mod memstore;
pub mod model;
pub mod scan;
pub mod service;
pub mod upload;
