//! Executes parameterized SQL and returns a uniformly typed row set: the
//! value model, the parameter binder, the result builder, the connection
//! target and the phases of one invocation, each with its contract.
pub mod bind;
pub mod connect;
pub mod executor;
pub mod lemmas;
pub mod result;
pub mod row;
pub mod value;
