//! A repository of fiscal-document identifications with a cache in front of
//! its backing store.
//!
//! The library decides and the caller acts: nothing here opens a connection.
//! [`repository`] lays each operation out as a short run of decisions, from
//! what to ask the cache or the store to what to return. [`query`] writes the
//! statements, [`mapper`] converts between records and rows, and [`cache`]
//! derives the keys and writes the commands of the cache. [`backend`] holds
//! both collaborators as plain maps and states what the operations guarantee
//! against them. [`handlers`] turns results into answers for the transport,
//! and [`config`] reads the address of the store.

pub mod backend;
pub mod cache;
pub mod config;
pub mod errors;
pub mod handlers;
pub mod identifier;
pub mod mapper;
pub mod models;
pub mod query;
pub mod repository;
pub mod text;
pub mod timestamp;
