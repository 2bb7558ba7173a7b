//! A registry of declarations for the front end of a verification language,
//! and the built-in fuel domain that every context of it starts with.
//!
//! - [`symbol`]: names as handles, and the table that interns them.
//! - [`ast`]: identifiers, types, and the declarations of domains, functions
//!   and variables.
//! - [`tyctx`]: the context that stores declarations and binds their names.
//! - [`limited`]: the fuel domain and its bootstrap.

pub mod ast;
pub mod limited;
pub mod symbol;
pub mod tyctx;
