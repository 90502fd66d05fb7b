//! Resource-handling layer of a small user service: request validation,
//! parameterised statements for a relational store, decoding of the rows
//! that come back, and the mapping of every outcome to a status and
//! a body.
//!
//! The layer does no I/O. Every operation has two halves: the first turns
//! a request into the one statement to send, or into a reply that needs no
//! store; the second turns what the store handed back into the reply.
//!
//! A deployment addresses its resources under one of two identity schemes
//! and uses the module of that scheme: [`integer_keyed`] or
//! [`generated_keyed`].

pub mod digits;
pub mod generated_keyed;
pub mod identity;
pub mod integer_keyed;
pub mod response;
pub mod statement;
pub mod step;
pub mod store;
pub mod validation;
pub mod value;
