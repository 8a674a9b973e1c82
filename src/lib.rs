//! Failures of a small content-serving site, how each maps to an HTTP status,
//! the chain of causes behind a failure, and the markup that presents it.

mod chain;
mod error;
mod render;

pub use chain::{lemma_walk_from_failure, lemma_walk_repeatable, ErrorSourceIter, Link};
pub use error::{
    font_extension_message, lemma_status_classes, Cause, Error, BAD_REQUEST, INTERNAL_SERVER_ERROR,
    NOT_FOUND,
};
