//! Text primitives of std that the library calls, and the few facts about
//! characters that its parsers rely on.

use vstd::prelude::*;
use crate::ip::{pieces_view, split_chars, split_on, split_on_has_a_piece};
use vstd::std_specs::iter::IteratorSpec;

verus! {

/// The result of `str::to_lowercase` on a string.
pub uninterp spec fn lower_of(s: Seq<char>) -> Seq<char>;

/// The result of `str::to_uppercase` on a string.
pub uninterp spec fn upper_of(s: Seq<char>) -> Seq<char>;

/// A character that `char::is_whitespace` accepts: the Unicode
/// `White_Space` characters.
pub open spec fn is_space(c: char) -> bool {
    let u = c as u32;
    ||| 0x09 <= u && u <= 0x0D
    ||| u == 0x20
    ||| u == 0x85
    ||| u == 0xA0
    ||| u == 0x1680
    ||| 0x2000 <= u && u <= 0x200A
    ||| u == 0x2028
    ||| u == 0x2029
    ||| u == 0x202F
    ||| u == 0x205F
    ||| u == 0x3000
}

/// The words of a string, as `str::split_whitespace` gives them: the
/// maximal runs of characters that are not whitespace, in order.
pub open spec fn words_of(s: Seq<char>) -> Seq<Seq<char>>
    decreases s.len(),
{
    if s.len() == 0 {
        Seq::empty()
    } else {
        let r = words_of(s.drop_last());
        let c = s.last();
        if is_space(c) {
            r
        } else if s.len() >= 2 && !is_space(s[s.len() - 2]) && r.len() > 0 {
            r.update(r.len() - 1, r.last().push(c))
        } else {
            r.push(seq![c])
        }
    }
}

fn is_space_char(c: char) -> (r: bool)
    ensures
        r == is_space(c),
{
    let u = c as u32;
    (0x09 <= u && u <= 0x0D) || u == 0x20 || u == 0x85 || u == 0xA0 || u == 0x1680 || (0x2000 <= u
        && u <= 0x200A) || u == 0x2028 || u == 0x2029 || u == 0x202F || u == 0x205F || u == 0x3000
}

/// A line without the carriage return that ends it, if one does.
pub open spec fn strip_cr(l: Seq<char>) -> Seq<char> {
    if l.len() > 0 && l.last() == '\r' {
        l.drop_last()
    } else {
        l
    }
}

/// The lines of a string, as `str::lines` gives them: the text between
/// newlines, each line that a newline ends without a carriage return before
/// it, and no empty line after a final newline.
pub open spec fn lines_of(s: Seq<char>) -> Seq<Seq<char>> {
    let p = split_on(s, '\n');
    let ended = p.drop_last().map_values(|l: Seq<char>| strip_cr(l));
    if p.last().len() > 0 {
        ended.push(p.last())
    } else {
        ended
    }
}

/// `p` occurs as a contiguous run of characters in `s`.
pub open spec fn has_infix(s: Seq<char>, p: Seq<char>) -> bool {
    exists|i: int| 0 <= i && i + p.len() <= s.len() && #[trigger] s.subrange(i, i + p.len()) == p
}

/// An ASCII upper-case letter.
pub open spec fn is_ascii_upper(c: char) -> bool {
    'A' as u32 <= c as u32 && c as u32 <= 'Z' as u32
}

/// Two characters are equal once ASCII letters are folded to lower case.
pub open spec fn ascii_fold_eq(a: char, b: char) -> bool {
    ||| a == b
    ||| is_ascii_upper(a) && b as u32 == a as u32 + 32
    ||| is_ascii_upper(b) && a as u32 == b as u32 + 32
}

/// Two strings are equal up to the case of ASCII letters.
pub open spec fn ascii_case_eq(a: Seq<char>, b: Seq<char>) -> bool {
    a.len() == b.len() && forall|i: int| 0 <= i < a.len() ==> ascii_fold_eq(#[trigger] a[i], b[i])
}

/// Relies on `str::to_lowercase`: the result depends on the characters alone.
#[verifier::external_body]
pub(crate) fn lowercase(s: &str) -> (r: String)
    ensures
        r@ == lower_of(s@),
{
    s.to_lowercase()
}

/// Relies on `str::to_uppercase`: the result depends on the characters alone.
#[verifier::external_body]
pub(crate) fn uppercase(s: &str) -> (r: String)
    ensures
        r@ == upper_of(s@),
{
    s.to_uppercase()
}

/// The words of a string.
pub(crate) fn words(s: &str) -> (r: Vec<String>)
    ensures
        r.deep_view() == words_of(s@),
{
    let cs = chars_of(s);
    let mut done: Vec<String> = Vec::new();
    let mut cur: Vec<char> = Vec::new();
    let mut i: usize = 0;
    while i < cs.len()
        invariant
            cs@ == s@,
            i <= cs@.len(),
            cur@.len() > 0 ==> done.deep_view().push(cur@) == words_of(cs@.take(i as int)),
            cur@.len() == 0 ==> done.deep_view() == words_of(cs@.take(i as int)),
            cur@.len() > 0 <==> (i > 0 && !is_space(cs@[i - 1])),
        decreases cs.len() - i,
    {
        let c = cs[i];
        let ghost before = done.deep_view();
        let ghost old_cur = cur@;
        proof {
            assert(cs@.take(i + 1).drop_last() =~= cs@.take(i as int));
            assert(cs@.take(i + 1).last() == c);
            if i > 0 {
                assert(cs@.take(i + 1)[i - 1] == cs@[i - 1]);
            }
        }
        if is_space_char(c) {
            if cur.len() > 0 {
                let word = string_of(&cur);
                done.push(word);
                cur = Vec::new();
                assert(done.deep_view() =~= before.push(word@));
            }
        } else {
            cur.push(c);
            proof {
                let w = words_of(cs@.take(i as int));
                if cur@.len() > 1 {
                    assert(cur@ == old_cur.push(c));
                    assert(w == before.push(old_cur));
                    assert(before.push(cur@) =~= w.update(w.len() - 1, w.last().push(c)));
                } else {
                    assert(cur@ =~= seq![c]);
                }
            }
        }
        i += 1;
    }
    assert(cs@.take(i as int) =~= cs@);
    if cur.len() > 0 {
        let ghost before = done.deep_view();
        let word = string_of(&cur);
        done.push(word);
        assert(done.deep_view() =~= before.push(word@));
    }
    done
}
/// The lines of a string.
pub(crate) fn lines(s: &str) -> (r: Vec<String>)
    ensures
        r.deep_view() == lines_of(s@),
{
    let cs = chars_of(s);
    let pieces = split_chars(&cs, '\n');
    proof {
        split_on_has_a_piece(s@, '\n');
    }
    let n = pieces.len() - 1;
    let ghost p = split_on(s@, '\n');
    let ghost f = |l: Seq<char>| strip_cr(l);
    let mut out: Vec<String> = Vec::new();
    let mut i: usize = 0;
    while i < n
        invariant
            n + 1 == pieces@.len(),
            p == pieces_view(pieces@),
            f == (|l: Seq<char>| strip_cr(l)),
            i <= n,
            out@.len() == i,
            forall|j: int| 0 <= j < i ==> (#[trigger] out@[j])@ == strip_cr(p[j]),
        decreases n - i,
    {
        let mut line = pieces[i].clone();
        assert(line@ == p[i as int]);
        let len = line.len();
        if len > 0 && line[len - 1] == '\r' {
            line.pop();
            assert(line@ =~= p[i as int].drop_last());
        }
        out.push(string_of(&line));
        i += 1;
    }
    assert(p[n as int] == pieces@[n as int]@);
    if pieces[n].len() > 0 {
        out.push(string_of(&pieces[n]));
    }
    assert(out.deep_view() =~= lines_of(s@));
    out
}
/// The characters of a string, in order.
pub(crate) fn chars_of(s: &str) -> (r: Vec<char>)
    ensures
        r@ == s@,
{
    broadcast use vstd::string::axiom_spec_iter, vstd::string::next_postcondition;

    let mut it = s.chars();
    let mut out: Vec<char> = Vec::new();
    loop
        invariant
            it.obeys_prophetic_iter_laws(),
            it.decrease() is Some,
            out@ + it.remaining() == s@,
        ensures
            out@ == s@,
        decreases it.decrease()->0,
    {
        let ghost before = it.remaining();
        match it.next() {
            Some(c) => {
                out.push(c);
                assert(out@ + it.remaining() =~= s@) by {
                    assert(before =~= seq![c] + before.drop_first());
                }
            },
            None => {
                assert(out@ =~= s@);
                break;
            },
        }
    }
    out
}
/// Relies on `String::from_iter` over characters: the string of those characters.
#[verifier::external_body]
pub(crate) fn string_of(v: &Vec<char>) -> (r: String)
    ensures
        r@ == v@,
{
    v.iter().collect()
}

/// Every trailing occurrence of a non-empty `p` removed, repeatedly.
pub open spec fn trim_suffixes(s: Seq<char>, p: Seq<char>) -> Seq<char>
    decreases s.len(),
{
    if p.len() > 0 && p.is_suffix_of(s) {
        trim_suffixes(s.subrange(0, s.len() - p.len()), p)
    } else {
        s
    }
}

/// Every leading `c` removed.
pub open spec fn trim_leading(s: Seq<char>, c: char) -> Seq<char>
    decreases s.len(),
{
    if s.len() > 0 && s[0] == c {
        trim_leading(s.drop_first(), c)
    } else {
        s
    }
}

/// The characters before the first `c`, or all of them if there is none.
pub open spec fn before_first(s: Seq<char>, c: char) -> Seq<char>
    decreases s.len(),
{
    if s.len() == 0 {
        s
    } else if s[0] == c {
        Seq::empty()
    } else {
        seq![s[0]] + before_first(s.drop_first(), c)
    }
}

/// Relies on `str::trim_end_matches` with a string pattern: matches at the end
/// are removed for as long as there are any.
#[verifier::external_body]
pub(crate) fn trim_end_matches<'a>(s: &'a str, p: &str) -> (r: &'a str)
    requires
        p@.len() > 0,
    ensures
        r@ == trim_suffixes(s@, p@),
{
    s.trim_end_matches(p)
}

/// Relies on `str::trim_start_matches` with a character pattern.
#[verifier::external_body]
pub(crate) fn trim_start_char<'a>(s: &'a str, c: char) -> (r: &'a str)
    ensures
        r@ == trim_leading(s@, c),
{
    s.trim_start_matches(c)
}

/// Relies on `str::split` with a character pattern, first piece: the text
/// before the first separator. `split` always yields at least one piece.
#[verifier::external_body]
pub(crate) fn first_piece<'a>(s: &'a str, c: char) -> (r: &'a str)
    ensures
        r@ == before_first(s@, c),
{
    s.split(c).next().unwrap_or(s)
}

/// Relies on `str::strip_prefix` with a string pattern: the rest of the
/// string when it starts with the prefix.
#[verifier::external_body]
pub(crate) fn strip_prefix<'a>(s: &'a str, p: &str) -> (r: Option<&'a str>)
    ensures
        match r {
            Some(t) => p@.is_prefix_of(s@) && t@ == s@.subrange(p@.len() as int, s@.len() as int),
            None => !p@.is_prefix_of(s@),
        },
{
    s.strip_prefix(p)
}

fn matches_at(cs: &Vec<char>, ps: &Vec<char>, i: usize) -> (r: bool)
    requires
        i + ps@.len() <= cs@.len(),
    ensures
        r == (cs@.subrange(i as int, i + ps@.len()) == ps@),
{
    let n = cs.len();
    let mut k: usize = 0;
    while k < ps.len()
        invariant
            n == cs@.len(),
            i + ps@.len() <= cs@.len(),
            k <= ps@.len(),
            forall|t: int| 0 <= t < k ==> cs@[i + t] == ps@[t],
        decreases ps.len() - k,
    {
        if cs[i + k] != ps[k] {
            assert(cs@.subrange(i as int, i + ps@.len())[k as int] != ps@[k as int]);
            return false;
        }
        k += 1;
    }
    assert(cs@.subrange(i as int, i + ps@.len()) =~= ps@);
    true
}

/// Whether `p` occurs in `s`.
pub(crate) fn contains(s: &str, p: &str) -> (r: bool)
    ensures
        r == has_infix(s@, p@),
{
    let cs = chars_of(s);
    let ps = chars_of(p);
    if ps.len() > cs.len() {
        return false;
    }
    if ps.len() == 0 {
        assert(s@.subrange(0, 0 + p@.len() as int) =~= p@);
        return true;
    }
    let end = cs.len() - ps.len() + 1;
    let mut i: usize = 0;
    while i < end
        invariant
            cs@ == s@,
            ps@ == p@,
            end - 1 + ps@.len() == cs@.len(),
            i <= end,
            forall|j: int| 0 <= j < i ==> #[trigger] s@.subrange(j, j + p@.len()) != p@,
        decreases end - i,
    {
        if matches_at(&cs, &ps, i) {
            return true;
        }
        i += 1;
    }
    false
}

/// Whether `s` starts with `p`.
pub(crate) fn starts_with(s: &str, p: &str) -> (r: bool)
    ensures
        r == p@.is_prefix_of(s@),
{
    let cs = chars_of(s);
    let ps = chars_of(p);
    if ps.len() > cs.len() {
        return false;
    }
    let r = matches_at(&cs, &ps, 0);
    assert(r == p@.is_prefix_of(s@)) by {
        if p@.is_prefix_of(s@) {
            assert(s@.subrange(0, p@.len() as int) =~= p@);
        } else if r {
            assert forall|t: int| 0 <= t < p@.len() implies p@[t] == s@[t] by {
                assert(s@.subrange(0, p@.len() as int)[t] == s@[t]);
            }
        }
    }
    r
}

fn ascii_fold_char_eq(a: char, b: char) -> (r: bool)
    ensures
        r == ascii_fold_eq(a, b),
{
    let x = a as u32;
    let y = b as u32;
    x == y || ('A' as u32 <= x && x <= 'Z' as u32 && y == x + 32) || ('A' as u32 <= y && y <= 'Z' as u32
        && x == y + 32)
}

/// Whether two strings are equal up to the case of ASCII letters.
pub(crate) fn eq_ignore_ascii_case(a: &str, b: &str) -> (r: bool)
    ensures
        r == ascii_case_eq(a@, b@),
{
    let xs = chars_of(a);
    let ys = chars_of(b);
    if xs.len() != ys.len() {
        return false;
    }
    let mut i: usize = 0;
    while i < xs.len()
        invariant
            xs@ == a@,
            ys@ == b@,
            xs@.len() == ys@.len(),
            i <= xs@.len(),
            forall|j: int| 0 <= j < i ==> ascii_fold_eq(#[trigger] xs@[j], ys@[j]),
        decreases xs.len() - i,
    {
        if !ascii_fold_char_eq(xs[i], ys[i]) {
            return false;
        }
        i += 1;
    }
    true
}

/// Whether two strings hold the same characters.
pub(crate) fn same_text(a: &str, b: &str) -> (r: bool)
    ensures
        r == (a@ == b@),
{
    let xs = chars_of(a);
    let ys = chars_of(b);
    if xs.len() != ys.len() {
        return false;
    }
    let r = matches_at(&xs, &ys, 0);
    assert(r == (a@ == b@)) by {
        assert(xs@.subrange(0, ys@.len() as int) =~= xs@);
    }
    r
}

/// A copy of a string slice.
pub(crate) fn owned(s: &str) -> (r: String)
    ensures
        r@ == s@,
{
    s.to_owned()
}

} // verus!
