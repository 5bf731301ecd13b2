//! Character and segment utilities shared by pattern parsing and matching:
//! `/`-splitting, joining, and the two character classifications that come
//! from the standard library.

use vstd::prelude::*;

verus! {

/// What `char::is_alphanumeric` returns for a character.
pub uninterp spec fn alnum(c: char) -> bool;

/// Relies on char::is_alphanumeric: the result depends on the character alone.
#[verifier::external_body]
pub(crate) fn char_is_alphanumeric(c: char) -> (r: bool)
    ensures
        r == alnum(c),
{
    c.is_alphanumeric()
}

/// What `str::to_uppercase` returns for a character sequence.
pub uninterp spec fn upper_of(s: Seq<char>) -> Seq<char>;

/// Relies on str::to_uppercase: the result depends on the characters alone.
#[verifier::external_body]
pub(crate) fn str_to_uppercase(s: &str) -> (r: String)
    ensures
        r@ == upper_of(s@),
{
    s.to_uppercase()
}

/// The character sequences of a vector of strings, in order.
pub open spec fn views_of(v: Seq<String>) -> Seq<Seq<char>> {
    Seq::new(v.len(), |i: int| v[i]@)
}

/// One step of scanning `s` for `/`-separated pieces: `cur` is the piece
/// collected so far, `acc` the finished pieces; empty pieces are dropped.
pub open spec fn scan_segments(s: Seq<char>, i: int, cur: Seq<char>, acc: Seq<Seq<char>>) -> Seq<
    Seq<char>,
>
    decreases s.len() - i,
{
    if i < 0 || i >= s.len() {
        if cur.len() > 0 {
            acc.push(cur)
        } else {
            acc
        }
    } else if s[i] == '/' {
        scan_segments(
            s,
            i + 1,
            Seq::empty(),
            if cur.len() > 0 {
                acc.push(cur)
            } else {
                acc
            },
        )
    } else {
        scan_segments(s, i + 1, cur.push(s[i]), acc)
    }
}

/// The non-empty `/`-separated pieces of `s`, in order: doubled and
/// trailing slashes contribute nothing.
pub open spec fn segments_of(s: Seq<char>) -> Seq<Seq<char>> {
    scan_segments(s, 0, Seq::empty(), Seq::empty())
}

/// One step of scanning `s` for `/`-separated pieces, keeping empty ones.
pub open spec fn scan_all_pieces(s: Seq<char>, i: int, cur: Seq<char>, acc: Seq<Seq<char>>) -> Seq<
    Seq<char>,
>
    decreases s.len() - i,
{
    if i < 0 || i >= s.len() {
        acc.push(cur)
    } else if s[i] == '/' {
        scan_all_pieces(s, i + 1, Seq::empty(), acc.push(cur))
    } else {
        scan_all_pieces(s, i + 1, cur.push(s[i]), acc)
    }
}

/// All `/`-separated pieces of `s`, empty ones included; there is always at
/// least one piece.
pub open spec fn pieces_of(s: Seq<char>) -> Seq<Seq<char>> {
    scan_all_pieces(s, 0, Seq::empty(), Seq::empty())
}

/// The segments joined back with a single `/` between consecutive ones,
/// accumulated left to right.
pub open spec fn join_acc(segs: Seq<Seq<char>>, i: int, acc: Seq<char>) -> Seq<char>
    decreases segs.len() - i,
{
    if i < 0 || i >= segs.len() {
        acc
    } else if i == 0 {
        join_acc(segs, 1, segs[0])
    } else {
        join_acc(segs, i + 1, acc + seq!['/'] + segs[i])
    }
}

/// The segments joined with a single `/` between consecutive ones.
pub open spec fn join_segments(segs: Seq<Seq<char>>) -> Seq<char> {
    join_acc(segs, 0, Seq::empty())
}

/// Splits `s` at every `/`, returning the non-empty pieces in order.
pub fn split_segments(s: &str) -> (r: Vec<String>)
    ensures
        views_of(r@) == segments_of(s@),
{
    let n = s.unicode_len();
    let mut acc: Vec<String> = Vec::new();
    let mut start: usize = 0;
    let mut i: usize = 0;
    proof {
        assert(s@.subrange(0, 0) =~= Seq::<char>::empty());
        assert(views_of(acc@) =~= Seq::<Seq<char>>::empty());
    }
    while i < n
        invariant
            n == s@.len(),
            start <= i <= n,
            segments_of(s@) == scan_segments(s@, i as int, s@.subrange(start as int, i as int), views_of(acc@)),
        decreases n - i,
    {
        let c = s.get_char(i);
        if c == '/' {
            if i > start {
                let piece = s.substring_char(start, i).to_owned();
                let ghost old_acc = acc@;
                acc.push(piece);
                proof {
                    assert(views_of(acc@) =~= views_of(old_acc).push(
                        s@.subrange(start as int, i as int),
                    ));
                }
            }
            start = i + 1;
            proof {
                assert(s@.subrange(start as int, start as int) =~= Seq::<char>::empty());
            }
        } else {
            proof {
                assert(s@.subrange(start as int, i + 1) =~= s@.subrange(
                    start as int,
                    i as int,
                ).push(s@[i as int]));
            }
        }
        i += 1;
    }
    if n > start {
        let piece = s.substring_char(start, n).to_owned();
        let ghost old_acc = acc@;
        acc.push(piece);
        proof {
            assert(views_of(acc@) =~= views_of(old_acc).push(s@.subrange(start as int, n as int)));
        }
    }
    acc
}

/// Splits `s` at every `/`, keeping empty pieces.
pub fn split_all_pieces(s: &str) -> (r: Vec<String>)
    ensures
        views_of(r@) == pieces_of(s@),
{
    let n = s.unicode_len();
    let mut acc: Vec<String> = Vec::new();
    let mut start: usize = 0;
    let mut i: usize = 0;
    proof {
        assert(s@.subrange(0, 0) =~= Seq::<char>::empty());
        assert(views_of(acc@) =~= Seq::<Seq<char>>::empty());
    }
    while i < n
        invariant
            n == s@.len(),
            start <= i <= n,
            pieces_of(s@) == scan_all_pieces(s@, i as int, s@.subrange(start as int, i as int), views_of(acc@)),
        decreases n - i,
    {
        let c = s.get_char(i);
        if c == '/' {
            let piece = s.substring_char(start, i).to_owned();
            let ghost old_acc = acc@;
            acc.push(piece);
            proof {
                assert(views_of(acc@) =~= views_of(old_acc).push(
                    s@.subrange(start as int, i as int),
                ));
            }
            start = i + 1;
            proof {
                assert(s@.subrange(start as int, start as int) =~= Seq::<char>::empty());
            }
        } else {
            proof {
                assert(s@.subrange(start as int, i + 1) =~= s@.subrange(
                    start as int,
                    i as int,
                ).push(s@[i as int]));
            }
        }
        i += 1;
    }
    let piece = s.substring_char(start, n).to_owned();
    let ghost old_acc = acc@;
    acc.push(piece);
    proof {
        assert(views_of(acc@) =~= views_of(old_acc).push(s@.subrange(start as int, n as int)));
    }
    acc
}

/// Joins the strings from index `from` on with a single `/` between
/// consecutive ones.
pub fn join_from(v: &Vec<String>, from: usize) -> (r: String)
    requires
        from <= v@.len(),
    ensures
        r@ == join_segments(views_of(v@).skip(from as int)),
{
    let ghost segs = views_of(v@).skip(from as int);
    let mut r = String::new();
    let mut i: usize = from;
    proof {
        reveal_strlit("/");
    }
    while i < v.len()
        invariant
            from <= i <= v@.len(),
            segs == views_of(v@).skip(from as int),
            join_segments(segs) == join_acc(segs, i - from, r@),
            i == from ==> r@ == Seq::<char>::empty(),
        decreases v@.len() - i,
    {
        let ghost r_before = r@;
        if i > from {
            r.append("/");
        }
        r.append(v[i].as_str());
        proof {
            reveal_strlit("/");
            assert(segs[i - from] == v@[i as int]@);
            if i == from {
                assert(r@ =~= segs[0]);
            } else {
                assert(r@ =~= r_before + seq!['/'] + segs[i - from]);
            }
        }
        i += 1;
    }
    r
}

/// Copies the strings of `v` from index `from` on.
pub fn copy_strings_from(v: &Vec<String>, from: usize) -> (r: Vec<String>)
    requires
        from <= v@.len(),
    ensures
        r@ == v@.skip(from as int),
{
    let mut r: Vec<String> = Vec::new();
    let mut i: usize = from;
    while i < v.len()
        invariant
            from <= i <= v@.len(),
            r@ == v@.subrange(from as int, i as int),
        decreases v@.len() - i,
    {
        r.push(v[i].clone());
        proof {
            assert(v@.subrange(from as int, i + 1) =~= v@.subrange(from as int, i as int).push(
                v@[i as int],
            ));
        }
        i += 1;
    }
    proof {
        assert(v@.subrange(from as int, v@.len() as int) =~= v@.skip(from as int));
    }
    r
}

/// True exactly when the two strings hold the same characters.
pub fn str_eq(a: &str, b: &str) -> (r: bool)
    ensures
        r == (a@ == b@),
{
    let n = a.unicode_len();
    if n != b.unicode_len() {
        return false;
    }
    let mut i: usize = 0;
    while i < n
        invariant
            n == a@.len(),
            n == b@.len(),
            i <= n,
            forall|j: int| 0 <= j < i ==> a@[j] == b@[j],
        decreases n - i,
    {
        if a.get_char(i) != b.get_char(i) {
            return false;
        }
        i += 1;
    }
    proof {
        assert(a@ =~= b@);
    }
    true
}

} // verus!
