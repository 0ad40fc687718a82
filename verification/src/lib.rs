//! Build-time assertions: the verdict and the diagnostic of each assertion
//! form, the way a failure is raised under each build configuration, and the
//! grammar and expansion of the `env_id` macro that names the link symbol.

pub mod assertion;
pub mod error;
pub mod expand;
pub mod failure;
pub mod grammar;
pub mod lexeme;
pub mod lexical;
pub mod token;
