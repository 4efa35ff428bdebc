//! Verified text utilities over character sequences: trimming, splitting,
//! joining, decimal rendering and parsing.
//!
//! Executable code works on `Vec<char>` (whose view is the same `Seq<char>`
//! as a string's view) and converts to `String` only at the edges.

use vstd::prelude::*;
use vstd::string::*;

verus! {

/// Parses a non-empty string of ASCII digits as a decimal number.
/// Returns `None` on an empty string, a non-digit character, or overflow.
pub fn parse_u64(s: &Vec<char>) -> (r: Option<u64>)
    ensures
        r == spec_parse_u64(s@),
{
    if s.len() == 0 {
        return None;
    }
    let mut acc: u64 = 0;
    let mut i: usize = 0;
    assert(s@.skip(0) =~= s@);
    while i < s.len()
        invariant
            0 < s@.len(),
            0 <= i <= s@.len(),
            spec_parse_u64(s@) == spec_parse_loop(acc as nat, s@.skip(i as int)),
        decreases s@.len() - i,
    {
        let c = s[i];
        if c < '0' || c > '9' {
            return None;
        }
        let d: u64 = (c as u64) - ('0' as u64);
        if acc > (u64::MAX - d) / 10 {
            return None;
        }
        assert(s@.skip(i as int).first() == c);
        assert(s@.skip(i as int).drop_first() == s@.skip(i + 1));
        acc = acc * 10 + d;
        i = i + 1;
    }
    assert(s@.skip(i as int) =~= Seq::<char>::empty());
    Some(acc)
}

/// The number denoted by a string of decimal digits, if it is one
/// and fits in a `u64`.
pub open spec fn spec_parse_u64(s: Seq<char>) -> Option<u64> {
    if s.len() == 0 {
        None
    } else {
        spec_parse_loop(0, s)
    }
}

pub open spec fn spec_parse_loop(acc: nat, s: Seq<char>) -> Option<u64>
    decreases s.len(),
{
    if s.len() == 0 {
        if acc <= u64::MAX as nat {
            Some(acc as u64)
        } else {
            None
        }
    } else if !('0' <= s.first() <= '9') {
        None
    } else {
        let d = (s.first() as int - '0' as int) as nat;
        if acc * 10 + d > u64::MAX as nat {
            None
        } else {
            spec_parse_loop(acc * 10 + d, s.drop_first())
        }
    }
}

/// The decimal digits of `n`, most significant first.
pub open spec fn spec_render_u64(n: u64) -> Seq<char>
    decreases n,
{
    if n < 10 {
        seq![spec_digit_char(n as nat)]
    } else {
        spec_render_u64(n / 10).push(spec_digit_char((n % 10) as nat))
    }
}

/// The character for a single decimal digit.
pub open spec fn spec_digit_char(d: nat) -> char {
    if d == 0 { '0' }
    else if d == 1 { '1' }
    else if d == 2 { '2' }
    else if d == 3 { '3' }
    else if d == 4 { '4' }
    else if d == 5 { '5' }
    else if d == 6 { '6' }
    else if d == 7 { '7' }
    else if d == 8 { '8' }
    else { '9' }
}

fn digit_char(d: u64) -> (c: char)
    requires
        d < 10,
    ensures
        c == spec_digit_char(d as nat),
{
    if d == 0 { '0' }
    else if d == 1 { '1' }
    else if d == 2 { '2' }
    else if d == 3 { '3' }
    else if d == 4 { '4' }
    else if d == 5 { '5' }
    else if d == 6 { '6' }
    else if d == 7 { '7' }
    else if d == 8 { '8' }
    else { '9' }
}

/// The decimal digits of `n`.
pub fn render_u64(n: u64) -> (r: Vec<char>)
    ensures
        r@ == spec_render_u64(n),
    decreases n,
{
    if n < 10 {
        let mut r: Vec<char> = Vec::new();
        r.push(digit_char(n));
        assert(r@ =~= seq![spec_digit_char(n as nat)]);
        r
    } else {
        let mut r = render_u64(n / 10);
        r.push(digit_char(n % 10));
        r
    }
}

/// The decimal rendering of `n` as a string.
pub fn u64_string(n: u64) -> (r: String)
    ensures
        r@ == spec_render_u64(n),
{
    let v = render_u64(n);
    string_of(&v)
}

proof fn lemma_parse_loop_push(acc: nat, s: Seq<char>, d: nat)
    requires
        d < 10,
        spec_parse_loop(acc, s) is Some,
        spec_parse_loop(acc, s).unwrap() * 10 + d <= u64::MAX as nat,
    ensures
        spec_parse_loop(acc, s.push(spec_digit_char(d))) == Some(
            (spec_parse_loop(acc, s).unwrap() * 10 + d) as u64,
        ),
    decreases s.len(),
{
    if s.len() == 0 {
        let q = s.push(spec_digit_char(d));
        assert(q.len() == 1);
        assert(q.first() == spec_digit_char(d));
        assert(q.drop_first() =~= Seq::<char>::empty());
        assert(acc <= u64::MAX as nat);
        assert('0' <= spec_digit_char(d) <= '9');
        assert((spec_digit_char(d) as int - '0' as int) as nat == d);
        assert(acc * 10 + d <= u64::MAX as nat);
        assert(spec_parse_loop(acc, q) == spec_parse_loop(acc * 10 + d, Seq::<char>::empty()));
        assert(spec_parse_loop((acc * 10 + d) as nat, Seq::<char>::empty()) == Some(
            ((acc * 10 + d) as nat) as u64,
        ));
    } else {
        assert(s.push(spec_digit_char(d)).first() == s.first());
        assert(s.push(spec_digit_char(d)).drop_first() =~= s.drop_first().push(
            spec_digit_char(d),
        ));
        if '0' <= s.first() <= '9' {
            let d0 = (s.first() as int - '0' as int) as nat;
            if acc * 10 + d0 <= u64::MAX as nat {
                lemma_parse_loop_push(acc * 10 + d0, s.drop_first(), d);
            }
        }
    }
}

/// Parsing inverts rendering: the decimal digits of `n` read back as `n`.
pub proof fn lemma_parse_render(n: u64)
    ensures
        spec_parse_u64(spec_render_u64(n)) == Some(n),
    decreases n,
{
    if n < 10 {
        let q = spec_render_u64(n);
        assert(q =~= seq![spec_digit_char(n as nat)]);
        assert(q.len() == 1);
        assert(q.first() == spec_digit_char(n as nat));
        assert(q.drop_first() =~= Seq::<char>::empty());
        assert('0' <= spec_digit_char(n as nat) <= '9');
        assert((spec_digit_char(n as nat) as int - '0' as int) as nat == n as nat);
        assert(spec_parse_loop(0, q) == spec_parse_loop(n as nat, Seq::<char>::empty()));
    } else {
        lemma_parse_render(n / 10);
        assert(spec_parse_loop(0, spec_render_u64(n / 10)) == Some((n / 10) as u64));
        lemma_parse_loop_push(0, spec_render_u64(n / 10), (n % 10) as nat);
        assert((n / 10) * 10 + n % 10 == n);
        assert(spec_render_u64(n).len() > 0);
    }
}

/// A character with Unicode's `White_Space` property, the set that
/// `str::trim` removes at either end.
pub open spec fn is_space(c: char) -> bool {
    c == ' ' || c == '\t' || c == '\n' || c == '\r' || c == '\u{0B}' || c == '\u{0C}'
        || c == '\u{85}' || c == '\u{A0}' || c == '\u{1680}'
        || ('\u{2000}' <= c <= '\u{200A}') || c == '\u{2028}' || c == '\u{2029}'
        || c == '\u{202F}' || c == '\u{205F}' || c == '\u{3000}'
}

fn is_space_char(c: char) -> (r: bool)
    ensures
        r == is_space(c),
{
    c == ' ' || c == '\t' || c == '\n' || c == '\r' || c == '\u{0B}' || c == '\u{0C}'
        || c == '\u{85}' || c == '\u{A0}' || c == '\u{1680}'
        || ('\u{2000}' <= c && c <= '\u{200A}') || c == '\u{2028}' || c == '\u{2029}'
        || c == '\u{202F}' || c == '\u{205F}' || c == '\u{3000}'
}

/// Relies on `String::push`: appends exactly the one character.
#[verifier::external_body]
fn push_char(s: &mut String, c: char)
    ensures
        final(s)@ == old(s)@.push(c),
{
    s.push(c)
}

/// The characters of a string, as a vector with the same view.
pub fn chars_of(s: &str) -> (r: Vec<char>)
    ensures
        r@ == s@,
{
    let n = s.unicode_len();
    let mut r: Vec<char> = Vec::new();
    let mut i: usize = 0;
    while i < n
        invariant
            n == s@.len(),
            0 <= i <= n,
            r@ == s@.take(i as int),
        decreases n - i,
    {
        r.push(s.get_char(i));
        assert(s@.take(i + 1) =~= s@.take(i as int).push(s@[i as int]));
        i = i + 1;
    }
    assert(s@.take(n as int) =~= s@);
    r
}

/// A string with the same view as the given characters.
pub fn string_of(v: &Vec<char>) -> (r: String)
    ensures
        r@ == v@,
{
    let mut r = String::new();
    let mut i: usize = 0;
    while i < v.len()
        invariant
            0 <= i <= v@.len(),
            r@ == v@.take(i as int),
        decreases v@.len() - i,
    {
        push_char(&mut r, v[i]);
        assert(v@.take(i + 1) =~= v@.take(i as int).push(v@[i as int]));
        i = i + 1;
    }
    assert(v@.take(v@.len() as int) =~= v@);
    r
}

/// Whether two strings have the same characters.
pub fn str_eq(a: &str, b: &str) -> (r: bool)
    ensures
        r == (a@ == b@),
{
    let na = a.unicode_len();
    let nb = b.unicode_len();
    if na != nb {
        assert(a@ != b@);
        return false;
    }
    let mut i: usize = 0;
    while i < na
        invariant
            na == a@.len() && na == b@.len(),
            0 <= i <= na,
            forall|j: int| 0 <= j < i ==> a@[j] == b@[j],
        decreases na - i,
    {
        if a.get_char(i) != b.get_char(i) {
            assert(a@ != b@);
            return false;
        }
        i = i + 1;
    }
    assert(a@ =~= b@);
    true
}

/// What is left of `s` once every leading white-space character is gone.
pub open spec fn trim_start_spec(s: Seq<char>) -> Seq<char>
    decreases s.len(),
{
    if s.len() > 0 && is_space(s.first()) {
        trim_start_spec(s.drop_first())
    } else {
        s
    }
}

/// What is left of `s` once every trailing white-space character is gone.
pub open spec fn trim_end_spec(s: Seq<char>) -> Seq<char>
    decreases s.len(),
{
    if s.len() > 0 && is_space(s.last()) {
        trim_end_spec(s.drop_last())
    } else {
        s
    }
}

/// `s` without leading and trailing white space, as `str::trim` leaves it.
pub open spec fn trim_spec(s: Seq<char>) -> Seq<char> {
    trim_end_spec(trim_start_spec(s))
}

proof fn lemma_trim_start_skip(s: Seq<char>, i: int)
    requires
        0 <= i <= s.len(),
        forall|j: int| 0 <= j < i ==> is_space(s[j]),
        i < s.len() ==> !is_space(s[i]),
    ensures
        trim_start_spec(s) == s.skip(i),
    decreases i,
{
    if i == 0 {
        assert(s.skip(0) =~= s);
    } else {
        assert(is_space(s.first()));
        assert(trim_start_spec(s) == trim_start_spec(s.drop_first()));
        lemma_trim_start_skip(s.drop_first(), i - 1);
        assert(s.drop_first().skip(i - 1) =~= s.skip(i));
    }
}

proof fn lemma_trim_end_take(s: Seq<char>, i: int)
    requires
        0 <= i <= s.len(),
        forall|j: int| i <= j < s.len() ==> is_space(s[j]),
        i > 0 ==> !is_space(s[i - 1]),
    ensures
        trim_end_spec(s) == s.take(i),
    decreases s.len() - i,
{
    if i == s.len() {
        assert(s.take(i) =~= s);
    } else {
        assert(is_space(s.last()));
        assert(trim_end_spec(s) == trim_end_spec(s.drop_last()));
        lemma_trim_end_take(s.drop_last(), i);
        assert(s.drop_last().take(i) =~= s.take(i));
    }
}

/// The characters of `v` without leading and trailing white space.
pub fn trim_chars(v: &Vec<char>) -> (r: Vec<char>)
    ensures
        r@ == trim_spec(v@),
{
    let n = v.len();
    let mut start: usize = 0;
    while start < n && is_space_char(v[start])
        invariant
            n == v@.len(),
            0 <= start <= n,
            forall|j: int| 0 <= j < start ==> is_space(v@[j]),
        decreases n - start,
    {
        start = start + 1;
    }
    proof {
        lemma_trim_start_skip(v@, start as int);
    }
    let mut end: usize = n;
    while end > start && is_space_char(v[end - 1])
        invariant
            n == v@.len(),
            start <= end <= n,
            forall|j: int| end <= j < n ==> is_space(v@[j]),
        decreases end,
    {
        end = end - 1;
    }
    let mut r: Vec<char> = Vec::new();
    let mut i: usize = start;
    while i < end
        invariant
            n == v@.len(),
            start <= i <= end <= n,
            r@ == v@.subrange(start as int, i as int),
        decreases end - i,
    {
        r.push(v[i]);
        assert(v@.subrange(start as int, i + 1) =~= v@.subrange(start as int, i as int).push(
            v@[i as int],
        ));
        i = i + 1;
    }
    proof {
        let t = v@.skip(start as int);
        assert(forall|j: int| end - start <= j < t.len() ==> is_space(#[trigger] t[j]));
        lemma_trim_end_take(t, end - start);
        assert(t.take(end - start) =~= v@.subrange(start as int, end as int));
    }
    r
}

/// `s` without leading and trailing white space.
pub fn trim_str(s: &str) -> (r: String)
    ensures
        r@ == trim_spec(s@),
{
    let v = chars_of(s);
    let t = trim_chars(&v);
    string_of(&t)
}

/// The pieces of `s` between occurrences of `sep`, in order; one more
/// piece than separators, so an empty `s` yields one empty piece.
pub open spec fn split_spec(s: Seq<char>, sep: char) -> Seq<Seq<char>>
    decreases s.len(),
{
    if s.len() == 0 {
        seq![Seq::<char>::empty()]
    } else if s.first() == sep {
        seq![Seq::<char>::empty()] + split_spec(s.drop_first(), sep)
    } else {
        prepend_first(seq![s.first()], split_spec(s.drop_first(), sep))
    }
}

/// `pieces` with `p` glued onto the front of its first piece.
pub open spec fn prepend_first(p: Seq<char>, pieces: Seq<Seq<char>>) -> Seq<Seq<char>> {
    seq![p + pieces.first()] + pieces.drop_first()
}

pub proof fn lemma_split_len(s: Seq<char>, sep: char)
    ensures
        split_spec(s, sep).len() >= 1,
    decreases s.len(),
{
    if s.len() > 0 {
        lemma_split_len(s.drop_first(), sep);
    }
}

proof fn lemma_prepend_glue(a: Seq<char>, b: Seq<char>, pieces: Seq<Seq<char>>)
    requires
        pieces.len() >= 1,
    ensures
        prepend_first(a, prepend_first(b, pieces)) == prepend_first(a + b, pieces),
{
    assert(prepend_first(b, pieces).first() == b + pieces.first());
    assert(prepend_first(b, pieces).drop_first() =~= pieces.drop_first());
    assert(a + (b + pieces.first()) =~= (a + b) + pieces.first());
    assert(prepend_first(a, prepend_first(b, pieces)) =~= prepend_first(a + b, pieces));
}

proof fn lemma_prepend_empty(pieces: Seq<Seq<char>>)
    requires
        pieces.len() >= 1,
    ensures
        prepend_first(Seq::<char>::empty(), pieces) == pieces,
{
    assert(Seq::<char>::empty() + pieces.first() =~= pieces.first());
    assert(prepend_first(Seq::<char>::empty(), pieces) =~= pieces);
}

/// A vector of characters views deeply as its own character sequence.
pub proof fn lemma_chars_deep(v: &Vec<char>)
    ensures
        v.deep_view() == v@,
{
    assert(v.deep_view() =~= v@);
}

/// The pieces of `v` between occurrences of `sep`.
pub fn split_chars(v: &Vec<char>, sep: char) -> (r: Vec<Vec<char>>)
    ensures
        r.deep_view() == split_spec(v@, sep),
        r@.len() >= 1,
{
    let mut r: Vec<Vec<char>> = Vec::new();
    let mut piece: Vec<char> = Vec::new();
    let mut i: usize = 0;
    proof {
        assert(v@.skip(0) =~= v@);
        lemma_split_len(v@, sep);
    }
    while i < v.len()
        invariant
            0 <= i <= v@.len(),
            split_spec(v@, sep) == r.deep_view() + prepend_first(
                piece@,
                split_spec(v@.skip(i as int), sep),
            ),
        decreases v@.len() - i,
    {
        let ghost rest = v@.skip(i as int);
        let ghost rest1 = v@.skip(i + 1);
        proof {
            assert(rest.len() > 0);
            assert(rest.first() == v@[i as int]);
            assert(rest.drop_first() =~= rest1);
            lemma_split_len(rest1, sep);
        }
        let c = v[i];
        if c == sep {
            proof {
                assert(split_spec(rest, sep) == seq![Seq::<char>::empty()] + split_spec(
                    rest1,
                    sep,
                ));
                assert(prepend_first(piece@, split_spec(rest, sep)) =~= seq![piece@] + split_spec(
                    rest1,
                    sep,
                ));
                assert((r.deep_view() + (seq![piece@] + split_spec(rest1, sep))) =~= (
                r.deep_view().push(piece@) + split_spec(rest1, sep)));
                lemma_prepend_empty(split_spec(rest1, sep));
                lemma_chars_deep(&piece);
            }
            let ghost prev = r.deep_view();
            let ghost pv = piece@;
            r.push(piece);
            proof {
                assert(r.deep_view() =~= prev.push(pv));
            }
            piece = Vec::new();
        } else {
            proof {
                assert(split_spec(rest, sep) == prepend_first(
                    seq![rest.first()],
                    split_spec(rest1, sep),
                ));
                lemma_prepend_glue(piece@, seq![rest.first()], split_spec(rest1, sep));
                assert(piece@ + seq![rest.first()] =~= piece@.push(v@[i as int]));
            }
            piece.push(c);
        }
        i = i + 1;
    }
    proof {
        assert(v@.skip(i as int) =~= Seq::<char>::empty());
        assert(split_spec(Seq::<char>::empty(), sep) == seq![Seq::<char>::empty()]);
        assert(prepend_first(piece@, seq![Seq::<char>::empty()]) =~= seq![piece@]);
        assert(r.deep_view() + seq![piece@] =~= r.deep_view().push(piece@));
        lemma_chars_deep(&piece);
        lemma_split_len(v@, sep);
    }
    let ghost prev = r.deep_view();
    let ghost pv = piece@;
    r.push(piece);
    proof {
        assert(r.deep_view() =~= prev.push(pv));
    }
    r
}

/// The final piece of `s` after its last `sep`; all of `s` when `sep`
/// does not occur.
pub open spec fn last_segment_spec(s: Seq<char>, sep: char) -> Seq<char> {
    split_spec(s, sep).last()
}

/// The final piece of `v` after its last `sep`.
pub fn last_segment(v: &Vec<char>, sep: char) -> (r: Vec<char>)
    ensures
        r@ == last_segment_spec(v@, sep),
{
    let parts = split_chars(v, sep);
    proof {
        assert(parts.deep_view().len() == parts@.len());
        assert(parts.deep_view().last() == parts@[parts@.len() - 1].deep_view());
        lemma_chars_deep(&parts@[parts@.len() - 1]);
    }
    let n = parts.len();
    let mut r: Vec<char> = Vec::new();
    let last = &parts[n - 1];
    let mut i: usize = 0;
    while i < last.len()
        invariant
            0 <= i <= last@.len(),
            r@ == last@.take(i as int),
        decreases last@.len() - i,
    {
        r.push(last[i]);
        assert(last@.take(i + 1) =~= last@.take(i as int).push(last@[i as int]));
        i = i + 1;
    }
    assert(last@.take(last@.len() as int) =~= last@);
    r
}

/// All the given pieces, one after the other.
pub open spec fn concat_spec(parts: Seq<Seq<char>>) -> Seq<char>
    decreases parts.len(),
{
    if parts.len() == 0 {
        Seq::empty()
    } else {
        parts.first() + concat_spec(parts.drop_first())
    }
}

proof fn lemma_concat_push(parts: Seq<Seq<char>>, p: Seq<char>)
    ensures
        concat_spec(parts.push(p)) == concat_spec(parts) + p,
    decreases parts.len(),
{
    if parts.len() == 0 {
        let q = parts.push(p);
        assert(q.len() == 1);
        assert(q.first() == p);
        assert(q.drop_first() =~= Seq::<Seq<char>>::empty());
        assert(concat_spec(q) == q.first() + concat_spec(Seq::<Seq<char>>::empty()));
        assert(p + Seq::<char>::empty() =~= p);
        assert(concat_spec(parts) + p =~= p);
    } else {
        assert(parts.push(p).drop_first() =~= parts.drop_first().push(p));
        lemma_concat_push(parts.drop_first(), p);
        assert(parts.push(p).first() == parts.first());
        assert(parts.first() + (concat_spec(parts.drop_first()) + p) =~= (parts.first()
            + concat_spec(parts.drop_first())) + p);
    }
}

/// All the given strings, one after the other.
pub fn concat_all(parts: &Vec<String>) -> (r: String)
    ensures
        r@ == concat_spec(parts.deep_view()),
{
    let mut r = String::new();
    let mut i: usize = 0;
    while i < parts.len()
        invariant
            0 <= i <= parts@.len(),
            r@ == concat_spec(parts.deep_view().take(i as int)),
        decreases parts@.len() - i,
    {
        r.append(parts[i].as_str());
        proof {
            assert(parts.deep_view().take(i + 1) =~= parts.deep_view().take(i as int).push(
                parts@[i as int]@,
            ));
            lemma_concat_push(parts.deep_view().take(i as int), parts@[i as int]@);
        }
        i = i + 1;
    }
    assert(parts.deep_view().take(parts@.len() as int) =~= parts.deep_view());
    r
}

/// The given pieces with `sep` between each adjacent pair.
pub open spec fn join_spec(parts: Seq<Seq<char>>, sep: Seq<char>) -> Seq<char>
    decreases parts.len(),
{
    if parts.len() == 0 {
        Seq::empty()
    } else if parts.len() == 1 {
        parts.first()
    } else {
        parts.first() + sep + join_spec(parts.drop_first(), sep)
    }
}

/// The given strings with `sep` between each adjacent pair.
pub fn join_all(parts: &Vec<String>, sep: &str) -> (r: String)
    ensures
        r@ == join_spec(parts.deep_view(), sep@),
{
    if parts.len() == 0 {
        let r = String::new();
        return r;
    }
    let mut i: usize = parts.len() - 1;
    let mut r = parts[i].clone();
    proof {
        assert(parts.deep_view().skip(i as int).len() == 1);
        assert(parts.deep_view().skip(i as int).first() == parts@[i as int]@);
    }
    while i > 0
        invariant
            0 <= i < parts@.len(),
            r@ == join_spec(parts.deep_view().skip(i as int), sep@),
        decreases i,
    {
        i = i - 1;
        let mut piece = String::new();
        piece.append(sep);
        piece.append(r.as_str());
        let mut next = parts[i].clone();
        next.append(piece.as_str());
        r = next;
        proof {
            let dv = parts.deep_view();
            assert(dv.skip(i as int).len() >= 2);
            assert(dv.skip(i as int).first() == parts@[i as int]@);
            assert(dv.skip(i as int).drop_first() =~= dv.skip(i + 1));
        }
    }
    assert(parts.deep_view().skip(0) =~= parts.deep_view());
    r
}

/// The two strings with a single space between them.
pub fn space_join(a: &str, b: &str) -> (r: String)
    ensures
        r@ == a@ + " "@ + b@,
{
    let mut r = a.to_owned();
    r.append(" ");
    r.append(b);
    proof {
        assert(r@ =~= a@ + " "@ + b@);
    }
    r
}

/// The two strings with a space between them, in parentheses.
pub fn parenthesize_pair(a: &str, b: &str) -> (r: String)
    ensures
        r@ == "("@ + a@ + " "@ + b@ + ")"@,
{
    let mut r = String::from_str("(");
    r.append(a);
    r.append(" ");
    r.append(b);
    r.append(")");
    proof {
        assert(r@ =~= "("@ + a@ + " "@ + b@ + ")"@);
    }
    r
}

/// Those characters of `s` that are not curly double quotation marks.
pub open spec fn unquoted_spec(s: Seq<char>) -> Seq<char> {
    s.filter(|c: char| c != '\u{201C}' && c != '\u{201D}')
}

/// `v` without any curly double quotation marks.
pub fn remove_curly_quotes(v: &Vec<char>) -> (r: Vec<char>)
    ensures
        r@ == unquoted_spec(v@),
{
    let mut r: Vec<char> = Vec::new();
    let mut i: usize = 0;
    proof {
        assert(v@.take(0).filter(|c: char| c != '\u{201C}' && c != '\u{201D}') =~= Seq::empty());
    }
    while i < v.len()
        invariant
            0 <= i <= v@.len(),
            r@ == v@.take(i as int).filter(|c: char| c != '\u{201C}' && c != '\u{201D}'),
        decreases v@.len() - i,
    {
        let c = v[i];
        proof {
            let p = |c: char| c != '\u{201C}' && c != '\u{201D}';
            let t = v@.take(i as int);
            let u = t.push(v@[i as int]);
            assert(v@.take(i + 1) =~= u);
            reveal(Seq::filter);
            assert(u.drop_last() =~= t);
            assert(u.last() == v@[i as int]);
        }
        if c != '\u{201C}' && c != '\u{201D}' {
            r.push(c);
        }
        i = i + 1;
    }
    assert(v@.take(v@.len() as int) =~= v@);
    r
}

} // verus!
