//! A todo-list repository: the entities, the contract every storage backend
//! meets, an in-memory backend, and the statement planning and reply handling
//! of a backend that keeps its rows in a relational database.

pub mod entity;
pub mod error;
pub mod validation;
pub mod repository;
pub mod memory;
pub mod persistent;
pub mod laws;
