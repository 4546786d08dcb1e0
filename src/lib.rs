//! A catalog of crustacean specimen records: a fixed schema of 24 text
//! attributes, an in-memory repository with insert, single-field update,
//! delete, sorted listing and search, seeding from CSV data, and the
//! statements that persist the table in a relational store.
pub mod columns;
pub mod identifier;
pub mod record;
pub mod repository;
pub mod search;
pub mod seed;
pub mod session;
pub mod sorting;
pub mod sql;
pub mod text;
