//! A verified request pipeline for a single-endpoint text-embedding server.
//!
//! The server accepts text over HTTP, hands it to an in-process embedding
//! model, and answers with the resulting numeric vector.  This crate holds
//! the part of that server worth proving: the ordered middleware chain
//! (access logging outermost, authentication inside it) around the route
//! handlers, content negotiation of the request body, and the exact
//! responses owed on every path.  The embedding model itself is an outside
//! capability; the pipeline stops at a dispatch decision carrying the text
//! to encode, and resumes on the model's outcome.

pub mod auth;
pub mod bytestr;
pub mod http;
pub mod logging;
pub mod negotiate;
pub mod pipeline;
