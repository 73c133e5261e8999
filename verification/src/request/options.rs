//! The options of a request and the query that carries them.

use crate::request::block::Block;
use crate::request::language::Language;
use crate::request::unit::Unit;
use vstd::prelude::*;
use vstd::string::*;

verus! {

/// The names of the blocks `blocks`, in their order, with a comma between
/// one and the next.
pub open spec fn block_list(blocks: Seq<Block>) -> Seq<char>
    decreases blocks.len(),
{
    if blocks.len() == 0 {
        Seq::empty()
    } else if blocks.len() == 1 {
        blocks[0].token()
    } else {
        block_list(blocks.drop_last()) + ","@ + blocks.last().token()
    }
}

/// What a request asks for beyond the place: a set of query parameters,
/// built up call by call. A parameter that is set twice keeps the later
/// value.
#[derive(Clone, Debug)]
pub struct Options {
    exclude: Option<String>,
    extend: Option<String>,
    lang: Option<String>,
    units: Option<String>,
}

/// The parameter `key` of the query with the parameters `params`, as it is
/// written into an address: nothing where the parameter is not set.
pub open spec fn parameter(params: Map<Seq<char>, Seq<char>>, key: Seq<char>) -> Seq<char> {
    if params.dom().contains(key) {
        key + "="@ + params[key] + "&"@
    } else {
        Seq::empty()
    }
}

/// The query with the parameters `params`, as it is written into an address:
/// the parameters that are set, in the order `exclude`, `extend`, `lang`,
/// `units`, each followed by `&`.
pub open spec fn query(params: Map<Seq<char>, Seq<char>>) -> Seq<char> {
    parameter(params, "exclude"@) + parameter(params, "extend"@) + parameter(params, "lang"@)
        + parameter(params, "units"@)
}

/// One parameter as it is held: set to a value, or not set.
spec fn held(params: Map<Seq<char>, Seq<char>>, key: Seq<char>, value: Option<String>) -> Map<
    Seq<char>,
    Seq<char>,
> {
    match value {
        Some(v) => params.insert(key, v@),
        None => params,
    }
}

/// The four names of parameters differ from one another.
proof fn lemma_keys()
    ensures
        "exclude"@ != "extend"@,
        "exclude"@ != "lang"@,
        "exclude"@ != "units"@,
        "extend"@ != "lang"@,
        "extend"@ != "units"@,
        "lang"@ != "units"@,
{
    reveal_strlit("exclude");
    reveal_strlit("extend");
    reveal_strlit("lang");
    reveal_strlit("units");
    assert("exclude"@ =~= seq!['e', 'x', 'c', 'l', 'u', 'd', 'e']);
    assert("extend"@ =~= seq!['e', 'x', 't', 'e', 'n', 'd']);
    assert("lang"@ =~= seq!['l', 'a', 'n', 'g']);
    assert("units"@ =~= seq!['u', 'n', 'i', 't', 's']);
}

impl View for Options {
    type V = Map<Seq<char>, Seq<char>>;

    /// The parameters that are set, each with its value.
    closed spec fn view(&self) -> Map<Seq<char>, Seq<char>> {
        held(
            held(
                held(held(Map::empty(), "exclude"@, self.exclude), "extend"@, self.extend),
                "lang"@,
                self.lang,
            ),
            "units"@,
            self.units,
        )
    }
}

impl Default for Options {
    /// Options that set no parameter.
    fn default() -> (r: Options)
        ensures
            r@ == Map::<Seq<char>, Seq<char>>::empty(),
    {
        Options { exclude: None, extend: None, lang: None, units: None }
    }
}

impl Options {
    /// Names the blocks that the API is to leave out of its answer.
    pub fn exclude(self, blocks: Vec<Block>) -> (r: Options)
        ensures
            r@ == self@.insert("exclude"@, block_list(blocks@)),
    {
        let mut list = String::new();
        let mut i: usize = 0;
        while i < blocks.len()
            invariant
                i <= blocks.len(),
                list@ == block_list(blocks@.take(i as int)),
            decreases blocks.len() - i,
        {
            let ghost before = blocks@.take(i as int);
            let ghost after = blocks@.take(i + 1);
            assert(after.drop_last() =~= before);
            assert(after.last() == blocks[i as int]);
            if i > 0 {
                list.append(",");
            }
            list.append(blocks[i].name());
            i += 1;
        }
        assert(blocks@.take(blocks.len() as int) =~= blocks@);
        proof {
            lemma_keys();
        }
        let r = Options {
            exclude: Some(list),
            extend: self.extend,
            lang: self.lang,
            units: self.units,
        };
        assert(r@ =~= self@.insert("exclude"@, block_list(blocks@)));
        r
    }

    /// Asks for the hourly block to reach over the whole week and not only
    /// over the next two days.
    pub fn extend_hourly(self) -> (r: Options)
        ensures
            r@ == self@.insert("extend"@, "hourly"@),
    {
        proof {
            lemma_keys();
        }
        let r = Options {
            exclude: self.exclude,
            extend: Some("hourly".to_owned()),
            lang: self.lang,
            units: self.units,
        };
        assert(r@ =~= self@.insert("extend"@, "hourly"@));
        r
    }

    /// Sets the language of the summaries.
    pub fn language(self, language: Language) -> (r: Options)
        ensures
            r@ == self@.insert("lang"@, language.token()),
    {
        proof {
            lemma_keys();
        }
        let r = Options {
            exclude: self.exclude,
            extend: self.extend,
            lang: Some(language.name().to_owned()),
            units: self.units,
        };
        assert(r@ =~= self@.insert("lang"@, language.token()));
        r
    }

    /// Sets the units of the answer.
    pub fn unit(self, unit: Unit) -> (r: Options)
        ensures
            r@ == self@.insert("units"@, unit.token()),
    {
        proof {
            lemma_keys();
        }
        let r = Options {
            exclude: self.exclude,
            extend: self.extend,
            lang: self.lang,
            units: Some(unit.name().to_owned()),
        };
        assert(r@ =~= self@.insert("units"@, unit.token()));
        r
    }

    /// The query that carries these options, as it is written into an
    /// address.
    pub fn query(&self) -> (r: String)
        ensures
            r@ == query(self@),
    {
        proof {
            lemma_keys();
        }
        let mut q = String::new();
        append_parameter(&mut q, "exclude", &self.exclude);
        append_parameter(&mut q, "extend", &self.extend);
        append_parameter(&mut q, "lang", &self.lang);
        append_parameter(&mut q, "units", &self.units);
        q
    }
}

/// Writes one parameter to the end of a query, where it is set.
fn append_parameter(q: &mut String, key: &str, value: &Option<String>)
    ensures
        final(q)@ == old(q)@ + match value {
            Some(v) => key@ + "="@ + v@ + "&"@,
            None => Seq::empty(),
        },
{
    match value {
        Some(v) => {
            q.append(key);
            q.append("=");
            q.append(v.as_str());
            q.append("&");
            assert(q@ =~= old(q)@ + (key@ + "="@ + v@ + "&"@));
        },
        None => {
            assert(q@ =~= old(q)@ + Seq::<char>::empty());
        },
    }
}

} // verus!
