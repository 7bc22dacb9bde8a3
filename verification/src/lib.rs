//! Read-only OData service core: renders tabular collections as Atom feeds
//! and entries, produces the schema-description (metadata) and service
//! documents, and decides feed-vs-entry routing for keyed addresses.
//!
//! Every document is produced as a complete string whose exact character
//! content is stated by spec functions, so data responses and the advertised
//! schema are proved to agree.

pub mod atom;
pub mod calendar;
pub mod digits;
pub mod edm;
pub mod escape;
pub mod laws;
pub mod metadata;
pub mod router;
pub mod service;
pub mod types;
pub mod url;
pub mod value;
