use vstd::prelude::*;
use crate::claims::{chars_of, string_of};

verus! {

/// The pieces of `s` between the separators `sep`, as `str::split` gives
/// them: one more piece than there are separators.
pub open spec fn split_on(s: Seq<char>, sep: char) -> Seq<Seq<char>>
    decreases s.len(),
{
    if s.len() == 0 {
        seq![Seq::<char>::empty()]
    } else {
        let pieces = split_on(s.drop_last(), sep);
        if s.last() == sep {
            pieces.push(Seq::<char>::empty())
        } else {
            pieces.update(pieces.len() - 1, pieces.last().push(s.last()))
        }
    }
}

/// A text splits into two pieces or more exactly where it holds the
/// separator.
pub proof fn lemma_split_on_pieces(s: Seq<char>, sep: char)
    ensures
        split_on(s, sep).len() >= 1,
        (split_on(s, sep).len() >= 2) == s.contains(sep),
    decreases s.len(),
{
    if s.len() > 0 {
        let t = s.drop_last();
        lemma_split_on_pieces(t, sep);
        if t.contains(sep) {
            let k = choose|k: int| 0 <= k < t.len() && t[k] == sep;
            assert(s[k] == sep);
        }
        if s.contains(sep) && s.last() != sep {
            let k = choose|k: int| 0 <= k < s.len() && s[k] == sep;
            assert(k < s.len() - 1);
            assert(t[k] == sep);
        }
        if s.last() == sep {
            assert(s[s.len() - 1] == sep);
        }
    }
}

proof fn lemma_split_on_nonempty(s: Seq<char>, sep: char)
    ensures
        split_on(s, sep).len() >= 1,
    decreases s.len(),
{
    if s.len() > 0 {
        lemma_split_on_nonempty(s.drop_last(), sep);
    }
}

/// Splits `s` at every `sep` (`str::split` with a character).
pub fn split_char(s: &str, sep: char) -> (pieces: Vec<Vec<char>>)
    ensures
        pieces@.map_values(|p: Vec<char>| p@) == split_on(s@, sep),
{
    let cs = chars_of(s);
    let mut pieces: Vec<Vec<char>> = Vec::new();
    let mut current: Vec<char> = Vec::new();
    let mut i: usize = 0;
    proof {
        assert(cs@.take(0) =~= Seq::<char>::empty());
        assert(pieces@.map_values(|p: Vec<char>| p@).push(current@) =~= split_on(cs@.take(0), sep));
    }
    while i < cs.len()
        invariant
            cs@ == s@,
            i <= cs.len(),
            pieces@.map_values(|p: Vec<char>| p@).push(current@) == split_on(cs@.take(i as int), sep),
        decreases cs.len() - i,
    {
        let ghost before = pieces@.map_values(|p: Vec<char>| p@).push(current@);
        proof {
            assert(cs@.take(i + 1).drop_last() =~= cs@.take(i as int));
            assert(cs@.take(i + 1).last() == cs@[i as int]);
        }
        if cs[i] == sep {
            let piece = current;
            pieces.push(piece);
            current = Vec::new();
            assert(pieces@.map_values(|p: Vec<char>| p@).push(current@) =~= before.push(Seq::<char>::empty()));
        } else {
            current.push(cs[i]);
            assert(pieces@.map_values(|p: Vec<char>| p@).push(current@) =~= before.update(
                before.len() - 1,
                before.last().push(cs@[i as int]),
            ));
        }
        i = i + 1;
    }
    assert(cs@.take(cs.len() as int) =~= cs@);
    pieces.push(current);
    pieces
}

/// Whether `s` begins with `prefix`.
pub open spec fn starts_with(s: Seq<char>, prefix: Seq<char>) -> bool {
    prefix.len() <= s.len() && s.take(prefix.len() as int) == prefix
}

/// Whether `s` begins with `prefix` (`str::starts_with`).
pub fn has_prefix(s: &Vec<char>, prefix: &str) -> (r: bool)
    ensures
        r == starts_with(s@, prefix@),
{
    let p = chars_of(prefix);
    if p.len() > s.len() {
        return false;
    }
    let mut i: usize = 0;
    while i < p.len()
        invariant
            p@ == prefix@,
            p.len() <= s.len(),
            i <= p.len(),
            forall|j: int| 0 <= j < i ==> s@[j] == p@[j],
        decreases p.len() - i,
    {
        if s[i] != p[i] {
            assert(s@.take(p.len() as int)[i as int] == s@[i as int]);
            return false;
        }
        i = i + 1;
    }
    assert(s@.take(p.len() as int) =~= p@);
    true
}

/// What `str::to_lowercase` gives for `s`.
pub uninterp spec fn lowercase(s: Seq<char>) -> Seq<char>;

/// The lower-case form of a string (`str::to_lowercase`); it is a function
/// of the string. Each character is replaced by its Unicode lowercase
/// mapping: a dot stays a dot and no other character maps to one, so the
/// result holds a dot exactly where the string does.
#[verifier::external_body]
pub(crate) fn to_lowercase(s: &str) -> (r: String)
    ensures
        r@ == lowercase(s@),
        r@.contains('.') == s@.contains('.'),
{
    s.to_lowercase()
}

/// What `str::replace` gives for `s` with every `from` replaced by `to`:
/// the occurrences are taken from the left, none overlapping the one before;
/// an empty `from` occurs before every character and at the end.
pub open spec fn replaced(s: Seq<char>, from: Seq<char>, to: Seq<char>) -> Seq<char>
    decreases s.len(),
{
    if from.len() == 0 {
        if s.len() == 0 {
            to
        } else {
            to + seq![s[0]] + replaced(s.drop_first(), from, to)
        }
    } else if s.len() < from.len() {
        s
    } else if s.take(from.len() as int) == from {
        to + replaced(s.skip(from.len() as int), from, to)
    } else {
        seq![s[0]] + replaced(s.drop_first(), from, to)
    }
}

/// Replaces every occurrence of `from` in `s` by `to` (`str::replace`).
#[verifier::external_body]
pub(crate) fn replace_all(s: &str, from: &str, to: &str) -> (r: String)
    ensures
        r@ == replaced(s@, from@, to@),
{
    s.replace(from, to)
}

/// Joins pieces of text into one string.
pub fn concat(parts: &Vec<&str>) -> (r: String)
    ensures
        r@ == parts@.map_values(|p: &str| p@).fold_left(Seq::<char>::empty(), |acc: Seq<char>, p: Seq<char>| acc + p),
{
    let mut out = String::new();
    let mut i: usize = 0;
    while i < parts.len()
        invariant
            i <= parts.len(),
            out@ == parts@.map_values(|p: &str| p@).take(i as int).fold_left(Seq::<char>::empty(), |acc: Seq<char>, p: Seq<char>| acc + p),
        decreases parts.len() - i,
    {
        proof {
            let vs = parts@.map_values(|p: &str| p@);
            assert(vs.take(i + 1).drop_last() =~= vs.take(i as int));
        }
        out.append(parts[i]);
        i = i + 1;
    }
    assert(parts@.map_values(|p: &str| p@).take(parts.len() as int) =~= parts@.map_values(|p: &str| p@));
    out
}

} // verus!
