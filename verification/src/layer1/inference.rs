//! The identifier of a model.

use vstd::prelude::*;
use vstd::std_specs::convert::FromSpecImpl;
use uuid::Uuid;
use crate::ids::{is_hyphenated, uuid_text};

verus! {

/// Reads an identifier from its printed form with `Uuid::parse_str`; `None`
/// where the text is not the printed form of an identifier. Nothing is
/// claimed of the identifier.
#[verifier::external_body]
fn parse_uuid(text: &str) -> Option<Uuid> {
    Uuid::parse_str(text).ok()
}

/// The identifier whose bits are all zero, by `Uuid::nil`.
#[verifier::external_body]
fn nil_uuid() -> Uuid {
    Uuid::nil()
}

/// The identifier of a model.
#[derive(Debug, Clone, Copy, PartialEq, Eq, Hash)]
pub struct ModelId(pub Uuid);

impl ModelId {
    /// A fresh random identifier.
    pub fn new() -> ModelId {
        ModelId(Uuid::new_v4())
    }

    /// The identifier in its printed form.
    pub fn to_string(&self) -> (text: String)
        ensures
            is_hyphenated(text@),
    {
        uuid_text(&self.0)
    }
}

impl Default for ModelId {
    /// A fresh random identifier.
    fn default() -> ModelId {
        ModelId::new()
    }
}

impl From<String> for ModelId {
    /// The identifier that `text` is the printed form of, and the identifier
    /// of all zeros where it is the printed form of none.
    fn from(text: String) -> (id: ModelId) {
        match parse_uuid(text.as_str()) {
            Some(parsed) => ModelId(parsed),
            None => ModelId(nil_uuid()),
        }
    }
}

impl FromSpecImpl<String> for ModelId {
    open spec fn obeys_from_spec() -> bool {
        false
    }

    open spec fn from_spec(text: String) -> ModelId {
        arbitrary()
    }
}

impl From<ModelId> for String {
    /// The identifier in its printed form.
    fn from(id: ModelId) -> (text: String) {
        id.to_string()
    }
}

impl FromSpecImpl<ModelId> for String {
    open spec fn obeys_from_spec() -> bool {
        false
    }

    open spec fn from_spec(id: ModelId) -> String {
        arbitrary()
    }
}

} // verus!
