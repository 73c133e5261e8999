//! The JSON value tree that the decoders read, and its mathematical model.
//!
//! A [`ValueTree`] is the document as a parser hands it over. Its view, a
//! [`Json`], is the same tree over sequences: every contract of the decode
//! layer is stated over that view.

use vstd::prelude::*;

verus! {

/// A JSON number, kept in the form in which it was written.
#[derive(Copy, Clone, Debug, PartialEq, Eq, Structural)]
pub enum Number {
    /// An integer that is zero or more.
    PosInt(u64),
    /// An integer below zero.
    NegInt(i64),
    /// A number written with a fraction or an exponent, or an integer too
    /// large for the other two: the bit pattern of its IEEE 754 double.
    Float(u64),
}

/// A JSON object: its members in the order in which they stand.
///
/// Where a name occurs more than once, the first member with that name is
/// the one that counts.
#[derive(Debug, PartialEq)]
pub struct Object {
    pub members: Vec<(String, ValueTree)>,
}

/// A node of a parsed JSON document.
#[derive(Debug, PartialEq)]
pub enum ValueTree {
    Null,
    Bool(bool),
    Number(Number),
    String(String),
    Array(Vec<ValueTree>),
    Object(Object),
}

/// The members of an object, as mathematics: names and values in order.
pub type Members = Seq<(Seq<char>, Json)>;

/// A JSON document as a mathematical tree.
pub enum Json {
    Null,
    Bool(bool),
    Number(Number),
    String(Seq<char>),
    Array(Seq<Json>),
    Object(Members),
}

impl View for Number {
    type V = Number;

    open spec fn view(&self) -> Number {
        *self
    }
}

impl DeepView for Number {
    type V = Number;

    open spec fn deep_view(&self) -> Number {
        *self
    }
}

impl View for ValueTree {
    type V = Json;

    open spec fn view(&self) -> Json
        decreases self,
    {
        match self {
            ValueTree::Null => Json::Null,
            ValueTree::Bool(b) => Json::Bool(*b),
            ValueTree::Number(n) => Json::Number(*n),
            ValueTree::String(s) => Json::String(s@),
            ValueTree::Array(items) => Json::Array(
                Seq::new(
                    items.len() as nat,
                    |i: int|
                        if 0 <= i < items.len() {
                            items[i].view()
                        } else {
                            Json::Null
                        },
                ),
            ),
            ValueTree::Object(o) => Json::Object(o.view()),
        }
    }
}

impl DeepView for ValueTree {
    type V = Json;

    open spec fn deep_view(&self) -> Json {
        self@
    }
}

impl View for Object {
    type V = Members;

    open spec fn view(&self) -> Members
        decreases self,
    {
        Seq::new(
            self.members.len() as nat,
            |i: int|
                if 0 <= i < self.members.len() {
                    (self.members[i].0@, self.members[i].1.view())
                } else {
                    (Seq::empty(), Json::Null)
                },
        )
    }
}

impl DeepView for Object {
    type V = Members;

    open spec fn deep_view(&self) -> Members {
        self@
    }
}

/// The index of the first member of `m` that is named `name`.
#[verifier::opaque]
pub open spec fn position(m: Members, name: Seq<char>) -> Option<int>
    decreases m.len(),
{
    if m.len() == 0 {
        None
    } else if m[0].0 == name {
        Some(0)
    } else {
        match position(m.drop_first(), name) {
            Some(i) => Some(i + 1),
            None => None,
        }
    }
}

/// The value of the field `name` of an object with the members `m`.
pub open spec fn field(m: Members, name: Seq<char>) -> Option<Json> {
    match position(m, name) {
        Some(i) => Some(m[i].1),
        None => None,
    }
}

/// The members `m` once the field `name` has been taken out.
pub open spec fn without(m: Members, name: Seq<char>) -> Members {
    match position(m, name) {
        Some(i) => m.remove(i),
        None => m,
    }
}

/// `position` finds a member with the name that no earlier member has, and
/// finds none only where no member has the name.
pub proof fn lemma_position(m: Members, name: Seq<char>)
    ensures
        match position(m, name) {
            Some(i) => 0 <= i < m.len() && m[i].0 == name && forall|j: int|
                0 <= j < i ==> m[j].0 != name,
            None => forall|j: int| 0 <= j < m.len() ==> m[j].0 != name,
        },
    decreases m.len(),
{
    reveal_with_fuel(position, 2);
    if m.len() != 0 && m[0].0 != name {
        let rest = m.drop_first();
        lemma_position(rest, name);
        match position(rest, name) {
            Some(i) => {
                assert forall|j: int| 0 <= j < i + 1 implies m[j].0 != name by {
                    if j > 0 {
                        assert(rest[j - 1] == m[j]);
                    }
                }
            },
            None => {
                assert forall|j: int| 0 <= j < m.len() implies m[j].0 != name by {
                    if j > 0 {
                        assert(rest[j - 1] == m[j]);
                    }
                }
            },
        }
    }
}

/// The first member with a name is at the position of that name.
pub proof fn lemma_position_is(m: Members, name: Seq<char>, i: int)
    requires
        0 <= i < m.len(),
        m[i].0 == name,
        forall|j: int| 0 <= j < i ==> m[j].0 != name,
    ensures
        position(m, name) == Some(i),
{
    lemma_position(m, name);
}

/// A name that no member has is at no position.
pub proof fn lemma_position_none(m: Members, name: Seq<char>)
    requires
        forall|j: int| 0 <= j < m.len() ==> m[j].0 != name,
    ensures
        position(m, name).is_none(),
{
    lemma_position(m, name);
}

/// Taking one field out leaves every field of another name as it was.
pub proof fn lemma_without_other(m: Members, name: Seq<char>, other: Seq<char>)
    requires
        other != name,
    ensures
        field(without(m, name), other) == field(m, other),
{
    lemma_position(m, name);
    lemma_position(m, other);
    let w = without(m, name);
    lemma_position(w, other);
    if let Some(i) = position(m, name) {
        match position(m, other) {
            None => {
                if let Some(k) = position(w, other) {
                    if k < i {
                        assert(w[k] == m[k]);
                    } else {
                        assert(w[k] == m[k + 1]);
                    }
                }
            },
            Some(p) => {
                let q = if p < i {
                    p
                } else {
                    p - 1
                };
                assert(w[q] == m[p]);
                assert forall|j: int| 0 <= j < q implies w[j].0 != other by {
                    if j < i {
                        assert(w[j] == m[j]);
                    } else {
                        assert(w[j] == m[j + 1]);
                    }
                }
                lemma_position_is(w, other, q);
            },
        }
    }
}

/// Taking one field out leaves all fields of other names as they were.
pub proof fn lemma_without_others(m: Members, name: Seq<char>)
    ensures
        forall|other: Seq<char>|
            other != name ==> #[trigger] field(without(m, name), other) == field(m, other),
{
    assert forall|other: Seq<char>| other != name implies #[trigger] field(
        without(m, name),
        other,
    ) == field(m, other) by {
        lemma_without_other(m, name, other);
    }
}

/// Equality of string slices, `PartialEq::eq` of `str` in std: two slices
/// are equal where they hold the same characters.
pub assume_specification[ <str as PartialEq>::eq ](a: &str, b: &str) -> (r: bool)
    ensures
        r == (a@ == b@),
;

/// Whether two string slices hold the same characters.
pub(crate) fn same(a: &str, b: &str) -> (r: bool)
    ensures
        r == (a@ == b@),
{
    a.eq(b)
}

impl Object {
    /// Removes the field `name` from the object and returns its value, or
    /// returns `None` and leaves the object as it is where it has no such
    /// field.
    pub fn take(&mut self, name: &str) -> (r: Option<ValueTree>)
        ensures
            final(self)@ == without(old(self)@, name@),
            match r {
                Some(v) => field(old(self)@, name@) == Some(v@),
                None => field(old(self)@, name@).is_none(),
            },
    {
        let mut i: usize = 0;
        while i < self.members.len()
            invariant
                i <= self.members.len(),
                *self == *old(self),
                forall|j: int| 0 <= j < i ==> self@[j].0 != name@,
            decreases self.members.len() - i,
        {
            if same(self.members[i].0.as_str(), name) {
                proof {
                    lemma_position_is(self@, name@, i as int);
                }
                let member = self.members.remove(i);
                assert(self@ =~= old(self)@.remove(i as int));
                return Some(member.1);
            }
            i += 1;
        }
        proof {
            lemma_position_none(self@, name@);
        }
        None
    }
}

} // verus!
