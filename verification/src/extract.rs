//! Field extraction: taking one named field out of an object and turning its
//! value into what the field is meant to hold, and the same for every element
//! of an array.
//!
//! A coercion is any function from a [`ValueTree`] to a `Result`. The
//! coercions of this module do not know where a value came from: handed one
//! of the wrong kind, they report a `TypeMismatch` with an empty field name,
//! and the extractor that took the value out of a field puts the field's name
//! on that report. A failure that names a field already, as that of a field
//! deeper in the tree or of the decoder of an enumeration, is passed on
//! unchanged.

use crate::error::{outcome, DecodeError, Failure};
use crate::value::{field, lemma_without_others, without, Json, Members, Number, Object, ValueTree};
use vstd::prelude::*;

verus! {

/// The failure of a coercion that wanted a value of the kind `expected` and
/// was handed `actual`.
pub open spec fn unfit(expected: Seq<char>, actual: Json) -> Failure {
    Failure::TypeMismatch(Seq::empty(), expected, actual)
}

/// An integer field: a number that is an integer from zero to `u64::MAX`.
/// A number with a fraction is not cut down to one.
pub open spec fn integer(j: Json) -> Result<u64, Failure> {
    match j {
        Json::Number(Number::PosInt(n)) => Ok(n),
        _ => Err(unfit("integer"@, j)),
    }
}

/// A floating field: any number.
pub open spec fn number(j: Json) -> Result<Number, Failure> {
    match j {
        Json::Number(n) => Ok(n),
        _ => Err(unfit("number"@, j)),
    }
}

/// A string field: a string.
pub open spec fn string(j: Json) -> Result<Seq<char>, Failure> {
    match j {
        Json::String(s) => Ok(s),
        _ => Err(unfit("string"@, j)),
    }
}

/// A failed result as reported for the field `name`.
pub open spec fn named<T>(r: Result<T, Failure>, name: Seq<char>) -> Result<T, Failure> {
    match r {
        Ok(x) => Ok(x),
        Err(e) => Err(e.in_field(name)),
    }
}

/// What a required field `name` of an object with the members `m` decodes
/// to under the coercion `f`.
#[verifier::opaque]
pub open spec fn required<T>(m: Members, name: Seq<char>, f: spec_fn(Json) -> Result<T, Failure>)
    -> Result<T, Failure> {
    match field(m, name) {
        Some(j) => named(f(j), name),
        None => Err(Failure::Missing(name)),
    }
}

/// What an optional field `name` of an object with the members `m` decodes
/// to under the coercion `f`: a field that is not there is no failure, one
/// that is there and does not fit is.
#[verifier::opaque]
pub open spec fn optional<T>(m: Members, name: Seq<char>, f: spec_fn(Json) -> Result<T, Failure>)
    -> Result<Option<T>, Failure> {
    match field(m, name) {
        Some(j) => match named(f(j), name) {
            Ok(x) => Ok(Some(x)),
            Err(e) => Err(e),
        },
        None => Ok(None),
    }
}

/// Whether `i` is the first element of `s` that `f` fails on.
pub open spec fn fails_first<T>(s: Seq<Json>, f: spec_fn(Json) -> Result<T, Failure>, i: int)
    -> bool {
    &&& 0 <= i < s.len()
    &&& f(s[i]) is Err
    &&& forall|k: int| 0 <= k < i ==> f(s[k]) is Ok
}

/// What an array decodes to under the element decoder `f`: the decoded
/// elements in the order of the array, or the failure of the first element
/// that `f` fails on, as `f` reports it.
#[verifier::opaque]
pub open spec fn elements<T>(j: Json, f: spec_fn(Json) -> Result<T, Failure>) -> Result<
    Seq<T>,
    Failure,
> {
    match j {
        Json::Array(s) => if exists|i: int| fails_first(s, f, i) {
            Err(f(s[choose|i: int| fails_first(s, f, i)])->Err_0)
        } else {
            Ok(Seq::new(s.len(), |i: int| f(s[i])->Ok_0))
        },
        _ => Err(unfit("array"@, j)),
    }
}

/// A field that lists strings: an array whose every element is a string.
pub open spec fn strings(j: Json) -> Result<Seq<Seq<char>>, Failure> {
    elements(j, |e: Json| string(e))
}

/// Coerces a value to an unsigned integer.
pub fn into_u64(value: ValueTree) -> (r: Result<u64, DecodeError>)
    ensures
        outcome(r) == integer(value@),
{
    match value {
        ValueTree::Number(Number::PosInt(n)) => Ok(n),
        other => Err(DecodeError::TypeMismatch(String::new(), "integer".to_owned(), other)),
    }
}

/// Coerces a value to a number.
pub fn into_number(value: ValueTree) -> (r: Result<Number, DecodeError>)
    ensures
        outcome(r) == number(value@),
{
    match value {
        ValueTree::Number(n) => Ok(n),
        other => Err(DecodeError::TypeMismatch(String::new(), "number".to_owned(), other)),
    }
}

/// Coerces a value to a string.
pub fn into_string(value: ValueTree) -> (r: Result<String, DecodeError>)
    ensures
        outcome(r) == string(value@),
{
    match value {
        ValueTree::String(s) => Ok(s),
        other => Err(DecodeError::TypeMismatch(String::new(), "string".to_owned(), other)),
    }
}

/// Takes the required field `name` out of `node` and coerces its value.
///
/// Fails with `Missing(name)` where the object has no such field, and with
/// what `coerce` reports, named for this field, where the value does not fit.
/// The field is gone from the object afterwards, whatever came of its value.
pub fn take_required<T: DeepView, F: FnOnce(ValueTree) -> Result<T, DecodeError>>(
    node: &mut Object,
    name: &str,
    coerce: F,
) -> (r: Result<T, DecodeError>)
    requires
        forall|v: ValueTree| #[trigger] coerce.requires((v,)),
    ensures
        final(node)@ == without(old(node)@, name@),
        match field(old(node)@, name@) {
            None => outcome(r) == Err::<T::V, Failure>(Failure::Missing(name@)),
            Some(j) => exists|v: ValueTree, c: Result<T, DecodeError>|
                v@ == j && #[trigger] coerce.ensures((v,), c) && outcome(r) == named(
                    outcome(c),
                    name@,
                ),
        },
{
    match node.take(name) {
        None => Err(DecodeError::Missing(name.to_owned())),
        Some(v) => {
            let ghost taken = v;
            let c = coerce(v);
            let ghost coerced = c;
            let r = match c {
                Ok(x) => Ok(x),
                Err(e) => Err(e.in_field(name)),
            };
            assert(coerce.ensures((taken,), coerced) && outcome(r) == named(
                outcome(coerced),
                name@,
            ));
            r
        },
    }
}

/// Takes the optional field `name` out of `node` and coerces its value.
///
/// Returns `None` where the object has no such field, and fails with what
/// `coerce` reports, named for this field, where the field is there and its
/// value does not fit. The field is gone from the object afterwards.
pub fn take_optional<T: DeepView, F: FnOnce(ValueTree) -> Result<T, DecodeError>>(
    node: &mut Object,
    name: &str,
    coerce: F,
) -> (r: Result<Option<T>, DecodeError>)
    requires
        forall|v: ValueTree| #[trigger] coerce.requires((v,)),
    ensures
        final(node)@ == without(old(node)@, name@),
        match field(old(node)@, name@) {
            None => outcome(r) == Ok::<Option<T::V>, Failure>(None),
            Some(j) => exists|v: ValueTree, c: Result<T, DecodeError>|
                v@ == j && #[trigger] coerce.ensures((v,), c) && outcome(r) == match named(
                    outcome(c),
                    name@,
                ) {
                    Ok(x) => Ok(Some(x)),
                    Err(e) => Err(e),
                },
        },
{
    match node.take(name) {
        None => Ok(None),
        Some(v) => {
            let ghost taken = v;
            let c = coerce(v);
            let ghost coerced = c;
            let r = match c {
                Ok(x) => Ok(Some(x)),
                Err(e) => Err(e.in_field(name)),
            };
            assert(coerce.ensures((taken,), coerced) && outcome(r) == match named(
                outcome(coerced),
                name@,
            ) {
                Ok(x) => Ok(Some(x)),
                Err(e) => Err(e),
            });
            r
        },
    }
}

/// Whether `decoder` may return a decoded value for `v`.
pub open spec fn accepts<T, F: Fn(ValueTree) -> Result<T, DecodeError>>(
    decoder: F,
    v: ValueTree,
) -> bool {
    exists|x: T| decoder.ensures((v,), Ok(x))
}

/// Decodes every element of an array, in order, with `element_decoder`.
///
/// A value that is no array is a mismatch. The first element that the
/// decoder fails on ends the work, and its failure is the result as the
/// decoder gave it: no part of the array comes back.
pub fn decode_array<T, F: Fn(ValueTree) -> Result<T, DecodeError>>(
    value: ValueTree,
    element_decoder: F,
) -> (r: Result<Vec<T>, DecodeError>)
    requires
        forall|v: ValueTree| #[trigger] element_decoder.requires((v,)),
    ensures
        match value {
            ValueTree::Array(items) => {
                let all = items@;
                match r {
                    Ok(out) => {
                        &&& out.len() == all.len()
                        &&& forall|i: int|
                            0 <= i < all.len() ==> element_decoder.ensures(
                                (#[trigger] all[i],),
                                Ok(out[i]),
                            )
                    },
                    Err(e) => exists|k: int|
                        {
                            &&& 0 <= k < all.len()
                            &&& element_decoder.ensures((#[trigger] all[k],), Err(e))
                            &&& forall|i: int|
                                0 <= i < k ==> accepts(element_decoder, #[trigger] all[i])
                        },
                }
            },
            _ => r is Err && r->Err_0@ == unfit("array"@, value@),
        },
{
    match value {
        ValueTree::Array(items) => {
            let ghost all = items@;
            let mut out: Vec<T> = Vec::new();
            for item in it: items
                invariant
                    it.seq() == all,
                    value == ValueTree::Array(items),
                    all == items@,
                    out.len() == it.index(),
                    forall|v: ValueTree| #[trigger] element_decoder.requires((v,)),
                    forall|i: int|
                        0 <= i < out.len() ==> element_decoder.ensures(
                            (#[trigger] all[i],),
                            Ok(out[i]),
                        ),
            {
                let ghost k = out.len() as int;
                match element_decoder(item) {
                    Ok(x) => {
                        out.push(x);
                    },
                    Err(e) => {
                        assert(item == all[k]);
                        assert(element_decoder.ensures((all[k],), Err(e)));
                        assert forall|i: int| 0 <= i < k implies accepts(
                            element_decoder,
                            #[trigger] all[i],
                        ) by {
                            assert(element_decoder.ensures((all[i],), Ok(out[i])));
                        }
                        return Err(e);
                    },
                }
            }
            Ok(out)
        },
        other => Err(DecodeError::TypeMismatch(String::new(), "array".to_owned(), other)),
    }
}

/// The ghost of a decoder that takes the declared fields of one object out of
/// it, one after the other: the members of the object as it came, and the
/// place of each declared name in the order in which the fields are taken.
pub(crate) struct Trail {
    pub origin: Members,
    pub rank: spec_fn(Seq<char>) -> int,
}

/// Whether the members `m` still hold, for every name that the trail puts at
/// the place `k` or later, what the trail's origin holds for it.
pub(crate) closed spec fn agrees(m: Members, trail: Trail, k: int) -> bool {
    forall|b: Seq<char>| (trail.rank)(b) >= k ==> #[trigger] field(m, b) == field(trail.origin, b)
}

/// An object agrees with itself before a field is taken.
pub(crate) proof fn lemma_agrees_at_start(trail: Trail)
    ensures
        agrees(trail.origin, trail, 0),
{
}

/// [`take_required`], for a step of a decoder that takes the fields of an
/// object in a fixed order: the result is stated of the object as it was
/// before the first field was taken, the origin of the trail.
pub(crate) fn next_required<T: DeepView, F: FnOnce(ValueTree) -> Result<T, DecodeError>>(
    node: &mut Object,
    name: &str,
    coerce: F,
    Ghost(trail): Ghost<Trail>,
    Ghost(f): Ghost<spec_fn(Json) -> Result<T::V, Failure>>,
) -> (r: Result<T, DecodeError>)
    requires
        forall|v: ValueTree| #[trigger] coerce.requires((v,)),
        forall|v: ValueTree, c: Result<T, DecodeError>| #[trigger]
            coerce.ensures((v,), c) ==> outcome(c) == f(v@),
        agrees(old(node)@, trail, (trail.rank)(name@)),
    ensures
        agrees(final(node)@, trail, (trail.rank)(name@) + 1),
        outcome(r) == required(trail.origin, name@, f),
{
    proof {
        lemma_without_others(node@, name@);
        reveal(required);
    }
    take_required(node, name, coerce)
}

/// [`take_optional`], for a step of a decoder that takes the fields of an
/// object in a fixed order: the result is stated of the object as it was
/// before the first field was taken, the origin of the trail.
pub(crate) fn next_optional<T: DeepView, F: FnOnce(ValueTree) -> Result<T, DecodeError>>(
    node: &mut Object,
    name: &str,
    coerce: F,
    Ghost(trail): Ghost<Trail>,
    Ghost(f): Ghost<spec_fn(Json) -> Result<T::V, Failure>>,
) -> (r: Result<Option<T>, DecodeError>)
    requires
        forall|v: ValueTree| #[trigger] coerce.requires((v,)),
        forall|v: ValueTree, c: Result<T, DecodeError>| #[trigger]
            coerce.ensures((v,), c) ==> outcome(c) == f(v@),
        agrees(old(node)@, trail, (trail.rank)(name@)),
    ensures
        agrees(final(node)@, trail, (trail.rank)(name@) + 1),
        outcome(r) == optional(trail.origin, name@, f),
{
    proof {
        lemma_without_others(node@, name@);
        reveal(optional);
    }
    take_optional(node, name, coerce)
}

/// Only one element of an array is the first that `f` fails on.
pub proof fn lemma_fails_first_once<T>(
    s: Seq<Json>,
    f: spec_fn(Json) -> Result<T, Failure>,
    i: int,
    k: int,
)
    requires
        fails_first(s, f, i),
        fails_first(s, f, k),
    ensures
        i == k,
{
    if i < k {
        assert(f(s[i]) is Ok);
    } else if k < i {
        assert(f(s[k]) is Ok);
    }
}

/// [`decode_array`], for an element decoder that computes `f`: the result
/// is the one that [`elements`] gives.
pub(crate) fn array_of<T: DeepView, F: Fn(ValueTree) -> Result<T, DecodeError>>(
    value: ValueTree,
    element_decoder: F,
    Ghost(f): Ghost<spec_fn(Json) -> Result<T::V, Failure>>,
) -> (r: Result<Vec<T>, DecodeError>)
    requires
        forall|v: ValueTree| #[trigger] element_decoder.requires((v,)),
        forall|v: ValueTree, c: Result<T, DecodeError>| #[trigger]
            element_decoder.ensures((v,), c) ==> outcome(c) == f(v@),
    ensures
        outcome(r) == elements(value@, f),
{
    let ghost source = value;
    let r = decode_array(value, element_decoder);
    proof {
        reveal(elements);
        let result = r;
        if let ValueTree::Array(items) = source {
            let all = items@;
            let s = source@->Array_0;
            assert(s.len() == all.len());
            assert forall|i: int| 0 <= i < all.len() implies s[i] == (#[trigger] all[i])@ by {}
            match result {
                Ok(out) => {
                    assert forall|i: int| 0 <= i < s.len() implies f(s[i]) == Ok::<
                        T::V,
                        Failure,
                    >(out[i].deep_view()) by {
                        assert(element_decoder.ensures((all[i],), Ok(out[i])));
                    }
                    assert(!exists|i: int| fails_first(s, f, i));
                    assert(out.deep_view() =~= Seq::new(s.len(), |i: int| f(s[i])->Ok_0));
                },
                Err(e) => {
                    let k = choose|k: int|
                        {
                            &&& 0 <= k < all.len()
                            &&& element_decoder.ensures(
                                (#[trigger] all[k],),
                                Err::<T, DecodeError>(e),
                            )
                            &&& forall|i: int|
                                0 <= i < k ==> accepts(element_decoder, #[trigger] all[i])
                        };
                    assert(f(s[k]) == Err::<T::V, Failure>(e@));
                    assert forall|i: int| 0 <= i < k implies f(s[i]) is Ok by {
                        assert(accepts(element_decoder, all[i]));
                        let x = choose|x: T| element_decoder.ensures((all[i],), Ok(x));
                        assert(outcome(Ok::<T, DecodeError>(x)) == f(all[i]@));
                    }
                    assert(fails_first(s, f, k));
                    lemma_fails_first_once(s, f, k, choose|i: int| fails_first(s, f, i));
                },
            }
        }
    }
    r
}

/// Coerces a value to a list of strings.
pub fn into_strings(value: ValueTree) -> (r: Result<Vec<String>, DecodeError>)
    ensures
        outcome(r) == strings(value@),
{
    array_of(value, into_string, Ghost(|e: Json| string(e)))
}

/// A field that is not there is no failure where it is optional, and is
/// `Missing` under its own name where it is required.
pub proof fn absent_field<T>(m: Members, name: Seq<char>, f: spec_fn(Json) -> Result<T, Failure>)
    requires
        field(m, name).is_none(),
    ensures
        optional(m, name, f) == Ok::<Option<T>, Failure>(None),
        required(m, name, f) == Err::<T, Failure>(Failure::Missing(name)),
{
    reveal(optional);
    reveal(required);
}

/// A field whose value is of the wrong kind is a mismatch that names the
/// field and holds the value as it was found, whether the field is required
/// or optional.
pub proof fn misfit_field<T>(
    m: Members,
    name: Seq<char>,
    f: spec_fn(Json) -> Result<T, Failure>,
    expected: Seq<char>,
)
    requires
        field(m, name) matches Some(j) && f(j) == Err::<T, Failure>(unfit(expected, j)),
    ensures
        required(m, name, f) == Err::<T, Failure>(
            Failure::TypeMismatch(name, expected, field(m, name)->0),
        ),
        optional(m, name, f) == Err::<Option<T>, Failure>(
            Failure::TypeMismatch(name, expected, field(m, name)->0),
        ),
{
    reveal(optional);
    reveal(required);
}

/// A failure from inside a field's value, one that names a field of its own
/// or is no mismatch, is passed on as it is.
pub proof fn inner_failure<T>(
    m: Members,
    name: Seq<char>,
    f: spec_fn(Json) -> Result<T, Failure>,
    e: Failure,
)
    requires
        field(m, name) matches Some(j) && f(j) == Err::<T, Failure>(e),
        e matches Failure::TypeMismatch(n, _, _) ==> n.len() > 0,
    ensures
        required(m, name, f) == Err::<T, Failure>(e),
        optional(m, name, f) == Err::<Option<T>, Failure>(e),
{
    reveal(optional);
    reveal(required);
}

/// An array whose every element decodes gives the decoded elements, as many
/// as the array has and in its order.
pub proof fn elements_in_order<T>(s: Seq<Json>, f: spec_fn(Json) -> Result<T, Failure>)
    requires
        forall|i: int| 0 <= i < s.len() ==> f(#[trigger] s[i]) is Ok,
    ensures
        elements(Json::Array(s), f) matches Ok(out) && out.len() == s.len() && forall|i: int|
            0 <= i < s.len() ==> f(s[i]) == Ok::<T, Failure>(#[trigger] out[i]),
{
    reveal(elements);
    assert(!exists|i: int| fails_first(s, f, i));
}

/// An array with an element that does not decode gives the failure of the
/// first such element, as the element decoder reports it, and nothing of the
/// elements before it.
pub proof fn elements_stop_at_first_failure<T>(
    s: Seq<Json>,
    f: spec_fn(Json) -> Result<T, Failure>,
    k: int,
)
    requires
        fails_first(s, f, k),
    ensures
        elements(Json::Array(s), f) == Err::<Seq<T>, Failure>(f(s[k])->Err_0),
{
    reveal(elements);
    lemma_fails_first_once(s, f, k, choose|i: int| fails_first(s, f, i));
}

/// Whether a result, where it is a failure, is a failure to decode: a
/// missing field or a mismatch, and not the failure of a collaborator.
pub open spec fn within_decoding<T>(r: Result<T, Failure>) -> bool {
    r matches Err(e) ==> e.is_decode()
}

/// Whether every failure of the decoder `f` is a failure to decode.
pub open spec fn fails_by_decoding<T>(f: spec_fn(Json) -> Result<T, Failure>) -> bool {
    forall|j: Json| within_decoding(#[trigger] f(j))
}

/// The coercions to an integer, a number, a string and a list of strings fail
/// only by decoding.
pub proof fn coercions_fail_by_decoding()
    ensures
        fails_by_decoding(|j: Json| integer(j)),
        fails_by_decoding(|j: Json| number(j)),
        fails_by_decoding(|j: Json| string(j)),
        fails_by_decoding(|j: Json| strings(j)),
{
    assert forall|j: Json| within_decoding(#[trigger] strings(j)) by {
        elements_fail_by_decoding(j, |e: Json| string(e));
    }
}

/// A field fails only by decoding where its coercion does.
pub proof fn field_fails_by_decoding<T>(
    m: Members,
    name: Seq<char>,
    f: spec_fn(Json) -> Result<T, Failure>,
)
    requires
        fails_by_decoding(f),
    ensures
        within_decoding(required(m, name, f)),
        within_decoding(optional(m, name, f)),
{
    reveal(required);
    reveal(optional);
    if let Some(j) = field(m, name) {
        assert(within_decoding(f(j)));
    }
}

/// An array fails only by decoding where the decoder of its elements does.
pub proof fn elements_fail_by_decoding<T>(j: Json, f: spec_fn(Json) -> Result<T, Failure>)
    requires
        fails_by_decoding(f),
    ensures
        within_decoding(elements(j, f)),
{
    reveal(elements);
    if let Json::Array(s) = j {
        if exists|i: int| fails_first(s, f, i) {
            let k = choose|i: int| fails_first(s, f, i);
            assert(within_decoding(f(s[k])));
        }
    }
}

} // verus!
