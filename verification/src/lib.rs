//! The core of a small todo service, free of I/O.
//!
//! The crate validates request payloads, decides which questions to put to
//! the store and in which order, and maps every outcome to the status and
//! body of an HTTP response. The program around it performs the I/O: it reads
//! the environment, parses requests, talks to the database and writes JSON.
//!
//! - [`config`] reads the settings and writes connection strings.
//! - [`dtos`] and [`validation`] hold the payloads and their constraints.
//! - [`store`] is the protocol between the service and the store, [`service`]
//!   the operations as conversations in that protocol, [`controller`] the routes.
//! - [`errors`], [`responses`] and [`http`] say how an outcome is reported.
//! - [`model`] is a reference model of the store, and [`laws`] proves what
//!   holds of the operations when the store answers as the model says.
//!
//! Everything is verified but one call: the length of a text is checked by the
//! `validator` crate, whose answer [`validation`] takes on trust.

pub mod config;
pub mod controller;
pub mod dtos;
pub mod errors;
pub mod http;
pub mod laws;
pub mod model;
pub mod responses;
pub mod service;
pub mod store;
pub mod text;
pub mod todo;
pub mod validation;
