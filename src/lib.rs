//! Request routing and response decisions for a small personal website.
//!
//! The library decides, for each request, which file (if any) is to be
//! read and what response follows from the outcome of reading it. Reading
//! files, running the HTTP server and its middleware are left to the
//! program that uses it.
pub mod config;
pub mod respond;
pub mod routes;
pub mod serve;
pub mod text;
