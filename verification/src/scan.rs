//! Text scanning for the inventory parsers: splitting on separators, line
//! splitting, whitespace fields, decimal parsing, substring search and
//! suffix stripping, each stated exactly over character sequences.

use vstd::prelude::*;
use vstd::string::*;
use vstd::std_specs::iter::IteratorSpec;
use crate::text::{spec_strs_view, string_push};

verus! {

/// Splitting a sequence at every separator position: one more segment than
/// there are separators, in order, separators dropped. The split of a
/// sequence extends the split of the sequence without its last character.
pub open spec fn spec_split_if(s: Seq<char>, is_sep: spec_fn(char) -> bool) -> Seq<Seq<char>>
    decreases s.len(),
{
    if s.len() == 0 {
        seq![Seq::<char>::empty()]
    } else if is_sep(s.last()) {
        spec_split_if(s.drop_last(), is_sep).push(Seq::<char>::empty())
    } else {
        let p = spec_split_if(s.drop_last(), is_sep);
        p.drop_last().push(p.last().push(s.last()))
    }
}

/// Splitting on one separator character.
pub open spec fn spec_split_char(s: Seq<char>, sep: char) -> Seq<Seq<char>> {
    spec_split_if(s, |c: char| c == sep)
}

/// Splits a string at every occurrence of `sep`.
pub fn split_on(s: &str, sep: char) -> (parts: Vec<String>)
    ensures
        spec_strs_view(parts@) == spec_split_char(s@, sep),
        parts@.len() >= 1,
{
    broadcast use vstd::string::axiom_spec_iter, vstd::string::next_postcondition;

    let mut parts: Vec<String> = Vec::new();
    let mut cur = String::new();
    let ghost mut done: Seq<char> = seq![];
    let mut it = s.chars();
    proof {
        assert(done + it.remaining() =~= s@);
        assert(spec_split_char(done, sep) =~~= seq![Seq::<char>::empty()]);
        assert(spec_strs_view(parts@).push(cur@) =~~= spec_split_char(done, sep));
    }
    loop
        invariant
            done + it.remaining() == s@,
            spec_strs_view(parts@).push(cur@) == spec_split_char(done, sep),
        ensures
            done == s@,
            spec_strs_view(parts@).push(cur@) == spec_split_char(done, sep),
        decreases s@.len() - done.len(),
    {
        match it.next() {
            Some(c) => {
                let ghost done0 = done;
                proof {
                    done = done.push(c);
                    assert(done.drop_last() =~= done0);
                    assert(done + it.remaining() =~= s@);
                }
                if c == sep {
                    let finished = cur;
                    cur = String::new();
                    parts.push(finished);
                    proof {
                        assert(spec_strs_view(parts@).push(cur@) =~~= spec_split_char(
                            done,
                            sep,
                        ));
                    }
                } else {
                    string_push(&mut cur, c);
                    proof {
                        let p = spec_split_char(done0, sep);
                        assert(p.drop_last() =~~= spec_strs_view(parts@));
                        assert(spec_strs_view(parts@).push(cur@) =~~= spec_split_char(
                            done,
                            sep,
                        ));
                    }
                }
            },
            None => {
                proof {
                    assert(it.remaining().len() == 0);
                    assert(done =~= s@);
                }
                break;
            },
        }
    }
    parts.push(cur);
    proof {
        assert(spec_strs_view(parts@) =~~= spec_split_char(s@, sep));
    }
    parts
}

/// A line with a trailing carriage return stripped.
pub open spec fn spec_strip_cr(l: Seq<char>) -> Seq<char> {
    if l.len() > 0 && l.last() == '\r' {
        l.drop_last()
    } else {
        l
    }
}

/// The lines of a text: the newline split without a trailing empty
/// segment, each line stripped of a trailing carriage return.
pub open spec fn spec_lines(s: Seq<char>) -> Seq<Seq<char>> {
    let p = spec_split_char(s, '\n');
    let q = if p.last().len() == 0 {
        p.drop_last()
    } else {
        p
    };
    q.map_values(|l: Seq<char>| spec_strip_cr(l))
}

fn strip_cr(l: &str) -> (r: String)
    ensures
        r@ == spec_strip_cr(l@),
{
    let n = l.unicode_len();
    if n > 0 && l.get_char(n - 1) == '\r' {
        let head = l.substring_char(0, n - 1);
        proof {
            assert(l@.subrange(0, n - 1) =~= l@.drop_last());
        }
        head.to_owned()
    } else {
        l.to_owned()
    }
}

/// Splits a text into its lines.
pub fn split_lines(s: &str) -> (r: Vec<String>)
    ensures
        spec_strs_view(r@) == spec_lines(s@),
{
    let mut parts = split_on(s, '\n');
    let plen = parts.len();
    if parts[plen - 1].as_str().is_empty() {
        parts.pop();
    }
    let mut out: Vec<String> = Vec::new();
    let n = parts.len();
    let mut i: usize = 0;
    while i < n
        invariant
            i <= n,
            n == parts@.len(),
            out@.len() == i,
            forall|j: int| 0 <= j < i ==> (#[trigger] out@[j])@ == spec_strip_cr(parts@[j]@),
        decreases n - i,
    {
        out.push(strip_cr(parts[i].as_str()));
        i = i + 1;
    }
    proof {
        let p = spec_split_char(s@, '\n');
        let q = if p.last().len() == 0 {
            p.drop_last()
        } else {
            p
        };
        assert(spec_strs_view(parts@) =~~= q);
        assert(spec_strs_view(out@) =~~= spec_lines(s@));
    }
    out
}

/// An ASCII whitespace character.
pub open spec fn spec_is_space(c: char) -> bool {
    c == ' ' || c == '\t' || c == '\r' || c == '\n'
}

/// Splitting on every whitespace character, empty segments kept.
pub open spec fn spec_split_spaces(s: Seq<char>) -> Seq<Seq<char>> {
    spec_split_if(s, |c: char| spec_is_space(c))
}

/// The whitespace-separated fields of a line: the space split without its
/// empty segments.
pub open spec fn spec_fields(s: Seq<char>) -> Seq<Seq<char>> {
    spec_split_spaces(s).filter(|l: Seq<char>| l.len() > 0)
}

fn is_space(c: char) -> (r: bool)
    ensures
        r == spec_is_space(c),
{
    c == ' ' || c == '\t' || c == '\r' || c == '\n'
}

fn split_spaces(s: &str) -> (parts: Vec<String>)
    ensures
        spec_strs_view(parts@) == spec_split_spaces(s@),
{
    broadcast use vstd::string::axiom_spec_iter, vstd::string::next_postcondition;

    let mut parts: Vec<String> = Vec::new();
    let mut cur = String::new();
    let ghost mut done: Seq<char> = seq![];
    let mut it = s.chars();
    proof {
        assert(done + it.remaining() =~= s@);
        assert(spec_split_spaces(done) =~~= seq![Seq::<char>::empty()]);
        assert(spec_strs_view(parts@).push(cur@) =~~= spec_split_spaces(done));
    }
    loop
        invariant
            done + it.remaining() == s@,
            spec_strs_view(parts@).push(cur@) == spec_split_spaces(done),
        ensures
            done == s@,
            spec_strs_view(parts@).push(cur@) == spec_split_spaces(done),
        decreases s@.len() - done.len(),
    {
        match it.next() {
            Some(c) => {
                let ghost done0 = done;
                proof {
                    done = done.push(c);
                    assert(done.drop_last() =~= done0);
                    assert(done + it.remaining() =~= s@);
                }
                if is_space(c) {
                    let finished = cur;
                    cur = String::new();
                    parts.push(finished);
                    proof {
                        assert(spec_strs_view(parts@).push(cur@) =~~= spec_split_spaces(done));
                    }
                } else {
                    string_push(&mut cur, c);
                    proof {
                        let p = spec_split_spaces(done0);
                        assert(p.drop_last() =~~= spec_strs_view(parts@));
                        assert(spec_strs_view(parts@).push(cur@) =~~= spec_split_spaces(done));
                    }
                }
            },
            None => {
                proof {
                    assert(it.remaining().len() == 0);
                    assert(done =~= s@);
                }
                break;
            },
        }
    }
    parts.push(cur);
    proof {
        assert(spec_strs_view(parts@) =~~= spec_split_spaces(s@));
    }
    parts
}

fn drop_empty(parts: Vec<String>) -> (r: Vec<String>)
    ensures
        spec_strs_view(r@) == spec_strs_view(parts@).filter(|l: Seq<char>| l.len() > 0),
{
    let mut r: Vec<String> = Vec::new();
    let n = parts.len();
    let mut i: usize = 0;
    proof {
        assert(spec_strs_view(parts@).take(0) =~= Seq::<Seq<char>>::empty());
        assert(spec_strs_view(r@) =~~= spec_strs_view(parts@).take(0).filter(
            |l: Seq<char>| l.len() > 0,
        ));
    }
    while i < n
        invariant
            i <= n,
            n == parts@.len(),
            spec_strs_view(r@) == spec_strs_view(parts@).take(i as int).filter(
                |l: Seq<char>| l.len() > 0,
            ),
        decreases n - i,
    {
        proof {
            assert(spec_strs_view(parts@).take(i + 1).drop_last() =~= spec_strs_view(
                parts@,
            ).take(i as int));
            assert(spec_strs_view(parts@).take(i + 1).last() == parts@[i as int]@);
            reveal_with_fuel(Seq::filter, 2);
        }
        if !parts[i].as_str().is_empty() {
            r.push(parts[i].as_str().to_owned());
            proof {
                assert(spec_strs_view(r@) =~~= spec_strs_view(parts@).take(i + 1).filter(
                    |l: Seq<char>| l.len() > 0,
                ));
            }
        } else {
            proof {
                assert(spec_strs_view(r@) =~~= spec_strs_view(parts@).take(i + 1).filter(
                    |l: Seq<char>| l.len() > 0,
                ));
            }
        }
        i = i + 1;
    }
    proof {
        assert(spec_strs_view(parts@).take(n as int) =~= spec_strs_view(parts@));
    }
    r
}

/// The whitespace-separated fields of a line.
pub fn fields(s: &str) -> (r: Vec<String>)
    ensures
        spec_strs_view(r@) == spec_fields(s@),
{
    drop_empty(split_spaces(s))
}

/// A decimal digit.
pub open spec fn spec_is_digit(c: char) -> bool {
    48 <= c as u32 <= 57
}

/// Every character is a decimal digit.
pub open spec fn spec_all_digits(s: Seq<char>) -> bool {
    forall|i: int| 0 <= i < s.len() ==> spec_is_digit(#[trigger] s[i])
}

/// The value of a digit sequence read in decimal.
pub open spec fn spec_dec_val(s: Seq<char>) -> int
    decreases s.len(),
{
    if s.len() == 0 {
        0
    } else {
        spec_dec_val(s.drop_last()) * 10 + (s.last() as u32 - 48)
    }
}

/// A digit sequence's value is no less than the value of any of its
/// prefixes, and never negative.
proof fn lemma_dec_val_prefix(w: Seq<char>, k: int)
    requires
        spec_all_digits(w),
        0 <= k <= w.len(),
    ensures
        spec_dec_val(w) >= spec_dec_val(w.take(k)),
        spec_dec_val(w) >= 0,
    decreases w.len(),
{
    if w.len() == 0 {
        assert(w.take(k) =~= w);
    } else {
        let head = w.drop_last();
        assert(spec_all_digits(head));
        if k == w.len() {
            assert(w.take(k) =~= w);
            lemma_dec_val_prefix(head, head.len() as int);
        } else {
            lemma_dec_val_prefix(head, k);
            assert(head.take(k) =~= w.take(k));
        }
    }
}

/// Reads an unsigned decimal number, exactly when the string is nonempty,
/// all digits, and in range.
pub fn parse_u32_dec(s: &str) -> (r: Option<u32>)
    ensures
        r is Some <==> (s@.len() > 0 && spec_all_digits(s@) && spec_dec_val(s@) <= u32::MAX),
        r matches Some(v) ==> v as int == spec_dec_val(s@),
{
    broadcast use vstd::string::axiom_spec_iter, vstd::string::next_postcondition;

    if s.is_empty() {
        return None;
    }
    let mut acc: u64 = 0;
    let ghost mut done: Seq<char> = seq![];
    let mut it = s.chars();
    proof {
        assert(done + it.remaining() =~= s@);
    }
    loop
        invariant
            done + it.remaining() == s@,
            spec_all_digits(done),
            acc as int == spec_dec_val(done),
            acc <= 0xffff_ffffu64,
        ensures
            done == s@,
            spec_all_digits(s@),
            acc as int == spec_dec_val(s@),
            acc <= 0xffff_ffffu64,
        decreases s@.len() - done.len(),
    {
        match it.next() {
            Some(c) => {
                let ghost done0 = done;
                proof {
                    done = done.push(c);
                    assert(done.drop_last() =~= done0);
                    assert(done + it.remaining() =~= s@);
                }
                let cu = c as u32;
                if cu < 48 || cu > 57 {
                    proof {
                        assert(s@[done0.len() as int] == c);
                        assert(!spec_all_digits(s@));
                    }
                    return None;
                }
                let d: u64 = (cu - 48) as u64;
                let next: u64 = acc * 10 + d;
                proof {
                    assert(d as int == c as u32 - 48);
                    assert(spec_dec_val(done) == spec_dec_val(done0) * 10 + (c as u32 - 48));
                    assert(spec_dec_val(done) == next as int);
                }
                if next > 0xffff_ffff {
                    proof {
                        if spec_all_digits(s@) {
                            lemma_dec_val_prefix(s@, done.len() as int);
                            assert(s@.take(done.len() as int) =~= done);
                        }
                    }
                    return None;
                }
                acc = next;
            },
            None => {
                proof {
                    assert(it.remaining().len() == 0);
                    assert(done =~= s@);
                }
                break;
            },
        }
    }
    Some(acc as u32)
}

/// One sequence occurs inside another.
pub open spec fn spec_contains(h: Seq<char>, n: Seq<char>) -> bool {
    exists|i: int| 0 <= i <= h.len() - n.len() && #[trigger] h.subrange(i, i + n.len()) == n
}

/// Substring search.
pub fn contains_sub(hay: &str, needle: &str) -> (r: bool)
    ensures
        r == spec_contains(hay@, needle@),
{
    let h = hay.unicode_len();
    let n = needle.unicode_len();
    if n > h {
        return false;
    }
    if n == 0 {
        proof {
            assert(hay@.subrange(0, 0 + needle@.len() as int) =~= needle@);
            assert(spec_contains(hay@, needle@));
        }
        return true;
    }
    let mut i: usize = 0;
    while i <= h - n
        invariant
            1 <= n <= h,
            h == hay@.len(),
            n == needle@.len(),
            i <= h - n + 1,
            forall|j: int| 0 <= j < i ==> #[trigger] hay@.subrange(j, j + needle@.len())
                != needle@,
        decreases h - i,
    {
        let mut k: usize = 0;
        let mut matched = true;
        while k < n
            invariant
                matched ==> forall|t: int| 0 <= t < k ==> hay@[i + t] == needle@[t],
                !matched ==> hay@.subrange(i as int, i + needle@.len()) != needle@,
                k <= n,
                i + n <= h,
                h == hay@.len(),
                n == needle@.len(),
            decreases n - k,
        {
            if hay.get_char(i + k) != needle.get_char(k) {
                proof {
                    assert(hay@.subrange(i as int, i + needle@.len())[k as int] == hay@[i + k]);
                }
                matched = false;
                k = n;
            } else {
                k = k + 1;
            }
        }
        if matched {
            proof {
                assert(hay@.subrange(i as int, i + needle@.len()) =~= needle@);
            }
            return true;
        }
        i = i + 1;
    }
    false
}

/// One sequence ends with another.
pub open spec fn spec_ends_with(s: Seq<char>, suf: Seq<char>) -> bool {
    s.len() >= suf.len() && s.subrange(s.len() - suf.len(), s.len() as int) == suf
}

/// Suffix test.
pub fn ends_with_str(s: &str, suf: &str) -> (r: bool)
    ensures
        r == spec_ends_with(s@, suf@),
{
    let n = s.unicode_len();
    let m = suf.unicode_len();
    if m > n {
        return false;
    }
    let mut k: usize = 0;
    while k < m
        invariant
            m <= n,
            n == s@.len(),
            m == suf@.len(),
            k <= m,
            forall|t: int| 0 <= t < k ==> s@[n - m + t] == suf@[t],
        decreases m - k,
    {
        if s.get_char(n - m + k) != suf.get_char(k) {
            proof {
                assert(s@.subrange(n - m, n as int)[k as int] == s@[n - m + k]);
            }
            return false;
        }
        k = k + 1;
    }
    proof {
        assert(s@.subrange(n - m, n as int) =~= suf@);
    }
    true
}

/// The sequence with every copy of the suffix stripped off its end, one
/// after another.
pub open spec fn spec_trim_end_matches(s: Seq<char>, suf: Seq<char>) -> Seq<char>
    decreases s.len(),
{
    if suf.len() > 0 && spec_ends_with(s, suf) {
        spec_trim_end_matches(s.subrange(0, s.len() - suf.len()), suf)
    } else {
        s
    }
}

/// Strips every trailing copy of `suf` from `s`.
pub fn trim_end_matches_str(s: &str, suf: &str) -> (r: String)
    ensures
        r@ == spec_trim_end_matches(s@, suf@),
{
    let suf_len = suf.unicode_len();
    let mut cur = s.to_owned();
    if suf_len == 0 {
        return cur;
    }
    loop
        invariant
            suf@.len() == suf_len,
            suf_len > 0,
            spec_trim_end_matches(cur@, suf@) == spec_trim_end_matches(s@, suf@),
        ensures
            spec_trim_end_matches(cur@, suf@) == spec_trim_end_matches(s@, suf@),
            !spec_ends_with(cur@, suf@),
        decreases cur@.len(),
    {
        if ends_with_str(cur.as_str(), suf) {
            let n = cur.as_str().unicode_len();
            let head = cur.as_str().substring_char(0, n - suf_len);
            let next = head.to_owned();
            cur = next;
        } else {
            break;
        }
    }
    cur
}

} // verus!
