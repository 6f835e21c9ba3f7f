//! Connector core: one call surface over SQLite, MySQL, PostgreSQL and SQL
//! Server.
//!
//! - [`types`] maps logical field types onto the families used for binding.
//! - [`model`], [`column`], [`unique`] and [`projection`] project the fields
//!   of a data model onto physical columns.
//! - [`urls`], [`connector`] and [`exec_loader`] read connection strings,
//!   describe the connector of each backend and choose one for a datasource.
//! - [`catalog`] states what the native types of every backend have in
//!   common and proves the round trip of a field through a database from it.
//! - [`native_types`], [`native_text`], [`native_parse`] and
//!   [`introspection`] hold the native types of SQL Server and write the
//!   schema of a live database.
//! - [`error`] is the one error shape that leaves the crate, [`text`] a few
//!   operations on strings.

pub mod catalog;
pub mod column;
pub mod connector;
pub mod error;
pub mod exec_loader;
pub mod introspection;
pub mod model;
pub mod native_parse;
pub mod native_text;
pub mod native_types;
pub mod projection;
pub mod text;
pub mod types;
pub mod unique;
pub mod urls;
