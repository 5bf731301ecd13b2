//! Route patterns: a method name plus a `/`-separated path whose chunks are
//! literals, dynamic `{name}` captures, or a final `*` wildcard.

use vstd::prelude::*;

use crate::error::PatternError;
use crate::text::alnum;
use crate::text::char_is_alphanumeric;
use crate::text::join_from;
use crate::text::join_segments;
use crate::text::pieces_of;
use crate::text::segments_of;
use crate::text::split_all_pieces;
use crate::text::split_segments;
use crate::text::str_eq;
use crate::text::str_to_uppercase;
use crate::text::upper_of;
use crate::text::views_of;

verus! {

/// A parsed route-matching specification.
#[derive(Debug)]
pub struct Pattern {
    /// HTTP method (free-form, uppercase) or "ALL".
    pub method: String,
    /// The full path.
    pub full_path: String,
    /// Path split into chunks.
    pub chunks: Vec<String>,
}

/// The symbols a chunk may hold besides alphanumeric characters.
pub open spec fn allowed_symbol(c: char) -> bool {
    c == '*' || c == '{' || c == '}' || c == '_' || c == '-'
}

/// Every character of the chunk is alphanumeric or an allowed symbol.
pub open spec fn valid_chunk_chars(s: Seq<char>) -> bool {
    forall|i: int| 0 <= i < s.len() ==> alnum(s[i]) || allowed_symbol(s[i])
}

/// The chunk is the wildcard `*`.
pub open spec fn is_wildcard_chunk(s: Seq<char>) -> bool {
    s.len() == 1 && s[0] == '*'
}

/// The chunk has the dynamic shape `{name}`.
pub open spec fn is_dynamic_chunk(s: Seq<char>) -> bool {
    s.len() >= 2 && s[0] == '{' && s[s.len() - 1] == '}'
}

/// The capture name inside a dynamic chunk, braces stripped.
pub open spec fn dynamic_name(s: Seq<char>) -> Seq<char> {
    s.subrange(1, s.len() - 1)
}

/// Some character of `s` is a brace.
pub open spec fn has_brace(s: Seq<char>) -> bool {
    exists|i: int| 0 <= i < s.len() && (s[i] == '{' || s[i] == '}')
}

/// The first parse error among the chunks from index `i` on, scanning left
/// to right; `after_wildcard` records whether a wildcard stood before.
pub open spec fn chunk_error_scan(
    chunks: Seq<Seq<char>>,
    i: int,
    after_wildcard: bool,
) -> Option<PatternError>
    decreases chunks.len() - i,
{
    if i < 0 || i >= chunks.len() {
        None
    } else {
        let c = chunks[i];
        if !valid_chunk_chars(c) {
            Some(PatternError::InvalidChars)
        } else if after_wildcard {
            Some(PatternError::WildcardPosition)
        } else if is_wildcard_chunk(c) {
            chunk_error_scan(chunks, i + 1, true)
        } else if is_dynamic_chunk(c) && has_brace(dynamic_name(c)) {
            Some(PatternError::InvalidDynamic)
        } else {
            chunk_error_scan(chunks, i + 1, after_wildcard)
        }
    }
}

/// The position of the first `:` in `s` at or after `i`, if any.
pub open spec fn first_colon(s: Seq<char>, i: int) -> Option<int>
    decreases s.len() - i,
{
    if i < 0 || i >= s.len() {
        None
    } else if s[i] == ':' {
        Some(i)
    } else {
        first_colon(s, i + 1)
    }
}

/// The method of a pattern string: the part before the first `:`,
/// uppercased; "ALL" when there is no `:`.
pub open spec fn method_of(s: Seq<char>) -> Seq<char> {
    match first_colon(s, 0) {
        Some(k) => upper_of(s.take(k)),
        None => "ALL"@,
    }
}

/// The path part of a pattern string: everything after the first `:`, or
/// the whole string when there is no `:`.
pub open spec fn path_part(s: Seq<char>) -> Seq<char> {
    match first_colon(s, 0) {
        Some(k) => s.skip(k + 1),
        None => s,
    }
}

/// What parsing a pattern string yields: method, canonical full path and
/// chunks on success, the first error otherwise.
pub open spec fn spec_parse(s: Seq<char>) -> Result<(Seq<char>, Seq<char>, Seq<Seq<char>>), PatternError> {
    let rest = path_part(s);
    if is_wildcard_chunk(rest) {
        Ok((method_of(s), seq!['*'], seq![seq!['*']]))
    } else if rest.len() == 0 || rest[0] != '/' {
        Err(PatternError::PathMustStartWithSlash)
    } else {
        let segs = segments_of(rest.skip(1));
        match chunk_error_scan(segs, 0, false) {
            Some(e) => Err(e),
            None => Ok((method_of(s), seq!['/'] + join_segments(segs), segs)),
        }
    }
}

/// The canonical text of a pattern string: the uppercased method, a colon,
/// and the path with a single `/` before each segment — doubled and
/// trailing slashes gone.
pub open spec fn canonical_pattern_string(s: Seq<char>) -> Seq<char> {
    let rest = path_part(s);
    if is_wildcard_chunk(rest) {
        method_of(s) + seq![':'] + seq!['*']
    } else {
        method_of(s) + seq![':'] + seq!['/'] + join_segments(segments_of(rest.skip(1)))
    }
}

/// Law: for every pattern string that parses, formatting the parsed pattern
/// yields the canonical string: method uppercased, doubled slashes
/// collapsed, trailing slash stripped.
pub proof fn lemma_parse_format_canonical(
    s: Seq<char>,
    m: Seq<char>,
    fp: Seq<char>,
    cs: Seq<Seq<char>>,
)
    requires
        spec_parse(s) == Ok::<(Seq<char>, Seq<char>, Seq<Seq<char>>), PatternError>((m, fp, cs)),
    ensures
        m + seq![':'] + fp == canonical_pattern_string(s),
{
    assert(m + seq![':'] + fp =~= canonical_pattern_string(s));
}

/// True when every character of the chunk is alphanumeric or one of the
/// allowed symbols.
pub fn is_valid_chunk(chunk: &str) -> (r: bool)
    ensures
        r == valid_chunk_chars(chunk@),
{
    let n = chunk.unicode_len();
    let mut i: usize = 0;
    while i < n
        invariant
            n == chunk@.len(),
            i <= n,
            forall|j: int| 0 <= j < i ==> alnum(chunk@[j]) || allowed_symbol(chunk@[j]),
        decreases n - i,
    {
        let c = chunk.get_char(i);
        if !(char_is_alphanumeric(c) || c == '*' || c == '{' || c == '}' || c == '_' || c == '-') {
            return false;
        }
        i += 1;
    }
    true
}

/// Some character of `s` is a brace.
fn str_has_brace(s: &str) -> (r: bool)
    ensures
        r == has_brace(s@),
{
    let n = s.unicode_len();
    let mut i: usize = 0;
    while i < n
        invariant
            n == s@.len(),
            i <= n,
            forall|j: int| 0 <= j < i ==> !(s@[j] == '{' || s@[j] == '}'),
        decreases n - i,
    {
        let c = s.get_char(i);
        if c == '{' || c == '}' {
            return true;
        }
        i += 1;
    }
    false
}

/// The position of the first `:` in `s`, if any.
fn find_colon(s: &str) -> (r: Option<usize>)
    ensures
        match r {
            Some(k) => k < s@.len() && first_colon(s@, 0) == Some(k as int),
            None => first_colon(s@, 0) is None,
        },
{
    let n = s.unicode_len();
    let mut i: usize = 0;
    while i < n
        invariant
            n == s@.len(),
            i <= n,
            first_colon(s@, 0) == first_colon(s@, i as int),
        decreases n - i,
    {
        if s.get_char(i) == ':' {
            return Some(i);
        }
        i += 1;
    }
    None
}

/// The chunk is the wildcard `*`.
pub(crate) fn chunk_is_wildcard(chunk: &str) -> (r: bool)
    ensures
        r == is_wildcard_chunk(chunk@),
{
    chunk.unicode_len() == 1 && chunk.get_char(0) == '*'
}

/// The capture name of a dynamic `{name}` chunk, if the chunk has that
/// shape.
pub(crate) fn chunk_dynamic_name(chunk: &str) -> (r: Option<String>)
    ensures
        match r {
            Some(name) => is_dynamic_chunk(chunk@) && name@ == dynamic_name(chunk@),
            None => !is_dynamic_chunk(chunk@),
        },
{
    let len = chunk.unicode_len();
    if len >= 2 && chunk.get_char(0) == '{' && chunk.get_char(len - 1) == '}' {
        Some(chunk.substring_char(1, len - 1).to_owned())
    } else {
        None
    }
}

/// Splits a path (already stripped of its leading `/`) into its non-empty
/// chunks and validates them, returning the first error if one is found.
pub fn parse_path(pattern: &str) -> (r: Result<Vec<String>, PatternError>)
    ensures
        match chunk_error_scan(segments_of(pattern@), 0, false) {
            Some(e) => r == Err::<Vec<String>, PatternError>(e),
            None => r is Ok && views_of(r->Ok_0@) == segments_of(pattern@),
        },
{
    let chunks = split_segments(pattern);
    let ghost cviews = segments_of(pattern@);
    let mut has_wildcard = false;
    let mut i: usize = 0;
    while i < chunks.len()
        invariant
            cviews == segments_of(pattern@),
            views_of(chunks@) == cviews,
            i <= chunks@.len(),
            chunk_error_scan(cviews, 0, false) == chunk_error_scan(cviews, i as int, has_wildcard),
        decreases chunks@.len() - i,
    {
        proof {
            assert(cviews[i as int] == chunks@[i as int]@);
        }
        let chunk = &chunks[i];
        if !is_valid_chunk(chunk.as_str()) {
            return Err(PatternError::InvalidChars);
        }
        if has_wildcard {
            return Err(PatternError::WildcardPosition);
        }
        if chunk_is_wildcard(chunk.as_str()) {
            has_wildcard = true;
        } else {
            let len = chunk.as_str().unicode_len();
            if len >= 2 && chunk.as_str().get_char(0) == '{' && chunk.as_str().get_char(len - 1)
                == '}' {
                let name = chunk.as_str().substring_char(1, len - 1);
                proof {
                    assert(name@ == dynamic_name(chunks@[i as int]@));
                }
                if str_has_brace(name) {
                    return Err(PatternError::InvalidDynamic);
                }
            }
        }
        i += 1;
    }
    Ok(chunks)
}

impl Pattern {
    /// Unchecked constructor for internally-guaranteed well-formed patterns:
    /// the path is split on every `/`, keeping empty pieces.
    pub fn new(method: &str, path: &str) -> (r: Pattern)
        ensures
            r.method@ == method@,
            r.full_path@ == path@,
            views_of(r.chunks@) == pieces_of(path@),
    {
        Pattern {
            method: method.to_owned(),
            full_path: path.to_owned(),
            chunks: split_all_pieces(path),
        }
    }

    /// Parses a pattern string such as `GET:/users/{id}` or `/files/*`:
    /// the optional method before the first `:` is uppercased (default
    /// "ALL"), the path is split into validated chunks, and the stored full
    /// path is the canonical one.
    pub fn parse(input: &str) -> (r: Result<Pattern, PatternError>)
        ensures
            match spec_parse(input@) {
                Ok(parts) => r is Ok && r->Ok_0.method@ == parts.0 && r->Ok_0.full_path@ == parts.1
                    && views_of(r->Ok_0.chunks@) == parts.2,
                Err(e) => r == Err::<Pattern, PatternError>(e),
            },
    {
        let n = input.unicode_len();
        let colon = find_colon(input);
        let (method, rest): (String, &str) = match colon {
            Some(k) => {
                proof {
                    assert(input@.subrange(0, k as int) =~= input@.take(k as int));
                    assert(input@.subrange(k + 1, n as int) =~= input@.skip(k + 1));
                }
                (str_to_uppercase(input.substring_char(0, k)), input.substring_char(k + 1, n))
            },
            None => ("ALL".to_owned(), input),
        };
        proof {
            reveal_strlit("*");
        }
        if str_eq(rest, "*") {
            proof {
                assert(is_wildcard_chunk(rest@));
            }
            let mut chunks: Vec<String> = Vec::new();
            chunks.push("*".to_owned());
            proof {
                assert(views_of(chunks@) =~~= seq![seq!['*']]);
            }
            return Ok(Pattern { method, full_path: "*".to_owned(), chunks });
        }
        proof {
            if is_wildcard_chunk(rest@) {
                assert(rest@ =~= "*"@);
            }
        }
        let rest_len = rest.unicode_len();
        if rest_len == 0 || rest.get_char(0) != '/' {
            return Err(PatternError::PathMustStartWithSlash);
        }
        let path = rest.substring_char(1, rest_len);
        proof {
            assert(path@ =~= path_part(input@).skip(1));
        }
        let chunks = match parse_path(path) {
            Ok(chunks) => chunks,
            Err(e) => {
                return Err(e);
            },
        };
        proof {
            reveal_strlit("/");
        }
        let mut full_path = "/".to_owned();
        let joined = join_from(&chunks, 0);
        full_path.append(joined.as_str());
        proof {
            assert(views_of(chunks@).skip(0) =~= views_of(chunks@));
            assert(full_path@ =~= seq!['/'] + join_segments(views_of(chunks@)));
        }
        Ok(Pattern { method, full_path, chunks })
    }

    /// Formats the pattern as `METHOD:full_path`.
    pub fn to_string(&self) -> (r: String)
        ensures
            r@ == self.method@ + seq![':'] + self.full_path@,
    {
        let mut r = self.method.clone();
        r.append(":");
        r.append(self.full_path.as_str());
        proof {
            reveal_strlit(":");
            assert(r@ =~= self.method@ + seq![':'] + self.full_path@);
        }
        r
    }
}

} // verus!
