//! Captured path parameters: an association list whose later entries win,
//! viewed as a map from capture name to captured value.

use vstd::prelude::*;

use crate::error::HttpError;
use crate::text::str_eq;

verus! {

/// The character-level view of a list of string pairs.
pub open spec fn pairs_view(s: Seq<(String, String)>) -> Seq<(Seq<char>, Seq<char>)> {
    Seq::new(s.len(), |i: int| (s[i].0@, s[i].1@))
}

/// The map view of an association list: later entries override earlier ones.
pub open spec fn assoc_map(s: Seq<(Seq<char>, Seq<char>)>) -> Map<Seq<char>, Seq<char>>
    decreases s.len(),
{
    if s.len() == 0 {
        Map::empty()
    } else {
        assoc_map(s.drop_last()).insert(s.last().0, s.last().1)
    }
}

/// The value bound to `key`, if any: the last matching entry wins.
pub open spec fn assoc_lookup(s: Seq<(Seq<char>, Seq<char>)>, key: Seq<char>) -> Option<Seq<char>>
    decreases s.len(),
{
    if s.len() == 0 {
        None
    } else if s.last().0 == key {
        Some(s.last().1)
    } else {
        assoc_lookup(s.drop_last(), key)
    }
}

/// Law: looking a key up in the association list is exactly looking it up
/// in the list's map view.
pub proof fn lemma_lookup_is_map_lookup(s: Seq<(Seq<char>, Seq<char>)>, key: Seq<char>)
    ensures
        assoc_lookup(s, key) is Some <==> assoc_map(s).contains_key(key),
        assoc_lookup(s, key) is Some ==> assoc_map(s)[key] == assoc_lookup(s, key)->Some_0,
    decreases s.len(),
{
    if s.len() > 0 {
        lemma_lookup_is_map_lookup(s.drop_last(), key);
    }
}

/// Appends a capture; in the map view this is `insert`.
pub fn push_param(params: &mut Vec<(String, String)>, key: String, value: String)
    ensures
        final(params)@ == old(params)@.push((key, value)),
        pairs_view(final(params)@) == pairs_view(old(params)@).push((key@, value@)),
{
    params.push((key, value));
    proof {
        assert(pairs_view(params@) =~= pairs_view(old(params)@).push((key@, value@)));
    }
}

/// Copies a capture list.
pub fn copy_params(v: &Vec<(String, String)>) -> (r: Vec<(String, String)>)
    ensures
        r@ == v@,
{
    let mut r: Vec<(String, String)> = Vec::new();
    let mut i: usize = 0;
    while i < v.len()
        invariant
            i <= v@.len(),
            r@ == v@.take(i as int),
        decreases v@.len() - i,
    {
        r.push((v[i].0.clone(), v[i].1.clone()));
        proof {
            assert(v@.take(i + 1) =~= v@.take(i as int).push(v@[i as int]));
        }
        i += 1;
    }
    proof {
        assert(v@.take(v@.len() as int) =~= v@);
    }
    r
}

/// The value bound to `key` among the captures, if any.
pub fn get_param(params: &Vec<(String, String)>, key: &str) -> (r: Option<String>)
    ensures
        match assoc_lookup(pairs_view(params@), key@) {
            Some(v) => r is Some && r->0@ == v,
            None => r is None,
        },
{
    let ghost s = pairs_view(params@);
    let mut i: usize = params.len();
    proof {
        assert(s.take(i as int) =~= s);
    }
    while i > 0
        invariant
            s == pairs_view(params@),
            i <= params@.len(),
            assoc_lookup(s, key@) == assoc_lookup(s.take(i as int), key@),
        decreases i,
    {
        i = i - 1;
        proof {
            assert(s.take(i + 1).drop_last() =~= s.take(i as int));
            assert(s.take(i + 1).last() == s[i as int]);
        }
        if str_eq(params[i].0.as_str(), key) {
            return Some(params[i].1.clone());
        }
    }
    None
}

/// The parameters captured while resolving one request, published to the
/// request's extension store after a successful match.
#[derive(Clone)]
pub struct RequestParams {
    pub inner: Vec<(String, String)>,
}

impl View for RequestParams {
    type V = Seq<(Seq<char>, Seq<char>)>;

    open spec fn view(&self) -> Seq<(Seq<char>, Seq<char>)> {
        pairs_view(self.inner@)
    }
}

impl RequestParams {
    /// Wraps the captures accumulated by a resolution.
    pub fn new(inner: Vec<(String, String)>) -> (r: RequestParams)
        ensures
            r@ == pairs_view(inner@),
    {
        RequestParams { inner }
    }

    /// The parameter map the captures denote.
    pub open spec fn map_view(&self) -> Map<Seq<char>, Seq<char>> {
        assoc_map(self@)
    }

    /// The value captured under `key`, if any.
    pub fn get(&self, key: &str) -> (r: Option<String>)
        ensures
            match assoc_lookup(self@, key@) {
                Some(v) => r is Some && r->0@ == v,
                None => r is None,
            },
    {
        get_param(&self.inner, key)
    }

    /// The value captured under `key`, or a status-500 error naming the
    /// missing parameter.
    pub fn param(&self, key: &str) -> (r: Result<String, HttpError>)
        ensures
            match assoc_lookup(self@, key@) {
                Some(v) => r is Ok && r->Ok_0@ == v,
                None => r is Err && r->Err_0.status == 500 && r->Err_0.message@
                    == "invalid/missing request path parameter \""@ + key@ + "\""@,
            },
    {
        match self.get(key) {
            Some(v) => Ok(v),
            None => {
                let mut m = "invalid/missing request path parameter \"".to_owned();
                m.append(key);
                m.append("\"");
                Err(HttpError { message: m, status: 500 })
            },
        }
    }
}

} // verus!
