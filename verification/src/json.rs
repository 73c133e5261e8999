//! The way in from text: the JSON parser hands over a document, and the
//! decoders take it from there.

use crate::error::{outcome, DecodeError};
use crate::models::Forecast;
use crate::value::{Json, Number, Object, ValueTree};
use vstd::prelude::*;

verus! {

/// `serde_json::Value`, the document as the parser builds it. Nothing is
/// known of what a value of it holds.
#[verifier::external_type_specification]
#[verifier::external_body]
pub struct ExParsed(serde_json::Value);

/// The document that `serde_json::from_str` reads from a text, as a tree, and
/// `None` where it finds no JSON document there. The members of an object
/// stand in the order in which the parser's map hands them out.
pub uninterp spec fn document(text: Seq<char>) -> Option<Json>;

/// The number that a `serde_json::Value` holds, by its accessors `as_u64`,
/// `as_i64` and `as_f64`: an integer where the parser kept one, else the bits
/// of the double. The contract claims nothing of it.
#[verifier::external_body]
fn lift_number(n: &serde_json::Value) -> Number {
    match (n.as_u64(), n.as_i64()) {
        (Some(u), _) => Number::PosInt(u),
        (None, Some(i)) => Number::NegInt(i),
        (None, None) => Number::Float(n.as_f64().unwrap_or_default().to_bits()),
    }
}

/// A `serde_json::Value` as a [`ValueTree`], node for node: each variant
/// becomes the variant of the same name, with what it holds moved over. The
/// contract claims nothing of it.
#[verifier::external_body]
fn lift(v: serde_json::Value) -> ValueTree {
    match v {
        serde_json::Value::Null => ValueTree::Null,
        serde_json::Value::Bool(b) => ValueTree::Bool(b),
        serde_json::Value::Number(_) => ValueTree::Number(lift_number(&v)),
        serde_json::Value::String(s) => ValueTree::String(s),
        serde_json::Value::Array(a) => ValueTree::Array(a.into_iter().map(lift).collect()),
        serde_json::Value::Object(m) => ValueTree::Object(
            Object { members: m.into_iter().map(|(k, e)| (k, lift(e))).collect() },
        ),
    }
}

/// `serde_json::from_str`, read as a `serde_json::Value` and handed over as a
/// [`ValueTree`]. The contract claims that what comes back depends on the
/// text alone: the tree is the one that [`document`] names, and an error
/// comes back where `document` names none.
#[verifier::external_body]
fn read(text: &str) -> (r: Result<ValueTree, serde_json::Error>)
    ensures
        match r {
            Ok(tree) => document(text@) == Some(tree@),
            Err(_) => document(text@).is_none(),
        },
{
    serde_json::from_str::<serde_json::Value>(text).map(lift)
}

/// Parses a text as a JSON document.
///
/// A text that is no JSON document is `Malformed`, with the parser's error.
pub fn parse(text: &str) -> (r: Result<ValueTree, DecodeError>)
    ensures
        match document(text@) {
            Some(j) => r matches Ok(tree) && tree@ == j,
            None => r matches Err(e) && e@ is Malformed,
        },
{
    match read(text) {
        Ok(tree) => Ok(tree),
        Err(e) => Err(DecodeError::from(e)),
    }
}

impl Forecast {
    /// Decodes a forecast from the text of a JSON document: the body of the
    /// API's answer.
    ///
    /// A text that is no JSON document is `Malformed`. A document is decoded
    /// as [`Forecast::decode`] decodes it, and so fails only by decoding: the
    /// two kinds of failure are never mistaken for one another, and neither for
    /// a failure of the transport.
    pub fn from_json(text: &str) -> (r: Result<Forecast, DecodeError>)
        ensures
            match document(text@) {
                Some(j) => outcome(r) == Forecast::decoded(j),
                None => r matches Err(e) && e@ is Malformed,
            },
            r matches Err(e) ==> (e@ is Malformed <==> document(text@).is_none()),
            r matches Err(e) ==> !(e@ is Transport),
    {
        proof {
            Forecast::fails_by_decoding();
        }
        match parse(text) {
            Ok(tree) => Forecast::decode(tree),
            Err(e) => Err(e),
        }
    }
}

} // verus!
