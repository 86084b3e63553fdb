//! Adds `parse` to `Result`: the success value is read as text and parsed
//! into a target type, and the two ways of failing stay apart.
//!
//! `Err(e)` becomes `Err(OriginalErr(e))` without any parse being attempted;
//! `Ok(text)` becomes the parsed value, or `Err(ParseFailure(p))` with the
//! target type's own parse error.

pub mod error;
pub mod from_text;
pub mod extension;

pub use error::Error;
pub use error::Error::OriginalErr;
pub use error::Error::ParseFailure;
pub use from_text::FromText;
pub use extension::ParseResult;
pub use extension::parse_outcome;
pub use extension::parse_with;
