//! A builder library for desktop toast notifications.
//!
//! A [`toast::Toast`] owns one structured document seeded with the fixed
//! skeleton `toast > visual > binding > text(id=0)` plus an `actions` root.
//! Typed tag builders (text, image, action, input, audio, progress, header,
//! sub-groups) mutate that document under its structural invariants, and the
//! finished document serializes deterministically to the toast markup dialect.
//! Handing the serialized markup to a platform notification service is left to
//! the embedding program.

pub mod decimal;
pub mod dom;
pub mod error;
pub mod laws;
pub mod lookup;
pub mod tags;
pub mod toast;
pub mod utils;
pub mod xml;

pub use crate::toast::Toast;

pub use crate::error::Error;
pub use crate::error::XmlErr;
