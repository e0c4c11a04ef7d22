//! An in-memory genealogical record store: people, parent-to-child edges,
//! relationship queries and a rendered family-tree view, each with a
//! machine-checked contract.

pub mod date;
pub mod document;
pub mod error;
pub mod laws;
pub mod listing;
pub mod model;
pub mod order;
pub mod person;
pub mod render;
pub mod store;
pub mod text;

pub use date::GDate;
pub use document::GraphDocument;
pub use error::StoreError;
pub use model::GraphModel;
pub use person::{create_person, Edge, Person};
pub use store::GraphDatabase;
