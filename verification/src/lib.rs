//! The decisions behind the `CRUD`, `Hook`, `Authorizer` and `Relation` derives: which
//! names a derive introduces, which attributes it reads and how, which fields and items it
//! emits, and on which inputs it refuses. Each expansion yields a plan of plain values that
//! a token writer turns into code.

pub mod text;
pub mod syntax;
pub mod helper;
pub mod crud;
pub mod relation;
pub mod hook;
pub mod authorizer;
pub mod validate;
