//! The front end of a preprocessor for an extended scripting dialect:
//! a position-tracked cursor over a token buffer, a uniform parsing
//! protocol that every grammar construct implements, and a worked
//! recursive-descent construct (argument lists with required, defaulted,
//! optional and variadic parameters) together with its canonical-text
//! serialization, a proved round-trip law, and the mapping from a logical
//! source name to its physical file variants.

pub mod argument_list;
pub mod expression;
pub mod failure;
pub mod fragment;
pub mod helpers;
pub mod identifier;
pub mod source;
pub mod token;
pub mod tokens;
