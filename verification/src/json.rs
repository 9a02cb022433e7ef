//! JSON documents, as the library reads and builds them.
use vstd::prelude::*;

verus! {

/// A JSON value. An object keeps its members in the order in which they are read.
#[derive(Debug, PartialEq, Eq)]
pub enum Json {
    Null,
    Bool(bool),
    /// A number, in its JSON text.
    Number(String),
    String(String),
    Array(Vec<Json>),
    Object(Vec<(String, Json)>),
}

impl Default for Json {
    /// `null`.
    fn default() -> (r: Json)
        ensures
            r is Null,
    {
        Json::Null
    }
}

} // verus!
