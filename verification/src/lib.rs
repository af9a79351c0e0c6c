//! Two tools for a language-model agent, with their behaviour proved: a
//! calculator that adds and subtracts, and a greeter that answers in the
//! language of a shared context. Each tool takes typed arguments and returns
//! a typed result or a `ToolError` that says what was wrong with the request.

pub mod calculator;
pub mod error;
pub mod greeter;
pub mod text;

pub use calculator::{calculator, CalcArgs, CalcOutput, Operation, INVALID_OPERATION};
pub use greeter::{greeter, AppContext, GreetArgs, GreetOutput, Language, UNSUPPORTED_LANGUAGE};
