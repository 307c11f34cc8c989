//! Character-level text operations with their meaning stated over `Seq<char>`.
use vstd::prelude::*;

verus! {

// ---------------------------------------------------------------------------
// Specifications
// ---------------------------------------------------------------------------

/// `p` occurs in `s` starting at position `i`.
pub open spec fn occurs_at(s: Seq<char>, p: Seq<char>, i: int) -> bool {
    0 <= i && i + p.len() <= s.len() && s.subrange(i, i + p.len()) == p
}

/// `s` begins with `p`.
pub open spec fn has_prefix(s: Seq<char>, p: Seq<char>) -> bool {
    occurs_at(s, p, 0)
}

/// `p` occurs somewhere in `s` (the empty pattern occurs in every text).
pub open spec fn has_substring(s: Seq<char>, p: Seq<char>) -> bool {
    exists|i: int| occurs_at(s, p, i)
}

/// `s` with every occurrence of the non-empty `from` replaced by `to`,
/// scanning from the left and never re-reading replaced text.
pub open spec fn replaced_nonempty(s: Seq<char>, from: Seq<char>, to: Seq<char>) -> Seq<char>
    decreases s.len(),
{
    if s.len() == 0 {
        Seq::empty()
    } else if from.len() > 0 && occurs_at(s, from, 0) {
        to + replaced_nonempty(s.skip(from.len() as int), from, to)
    } else {
        seq![s[0]] + replaced_nonempty(s.drop_first(), from, to)
    }
}

/// `to` put before every character of `s` and once more at its end: what
/// replacing the empty pattern does.
pub open spec fn interleaved(s: Seq<char>, to: Seq<char>) -> Seq<char>
    decreases s.len(),
{
    if s.len() == 0 {
        to
    } else {
        to + seq![s[0]] + interleaved(s.drop_first(), to)
    }
}

/// `s` with every occurrence of `from` replaced by `to` (`str::replace`): an
/// empty `from` occurs at every character boundary.
pub open spec fn replaced(s: Seq<char>, from: Seq<char>, to: Seq<char>) -> Seq<char> {
    if from.len() == 0 {
        interleaved(s, to)
    } else {
        replaced_nonempty(s, from, to)
    }
}

/// The pieces of `s` between the occurrences of the non-empty `sep`, from
/// position `start`, the search for the next occurrence being at `i`.
pub open spec fn split_from(s: Seq<char>, sep: Seq<char>, start: int, i: int) -> Seq<Seq<char>>
    decreases s.len() - i,
{
    if sep.len() == 0 || i + sep.len() > s.len() {
        seq![s.subrange(start, s.len() as int)]
    } else if occurs_at(s, sep, i) {
        seq![s.subrange(start, i)] + split_from(s, sep, i + sep.len(), i + sep.len())
    } else {
        split_from(s, sep, start, i + 1)
    }
}

/// The pieces of `s` between the occurrences of the non-empty `sep`, found
/// from the left (`str::split`): one more piece than there are occurrences.
pub open spec fn split_by(s: Seq<char>, sep: Seq<char>) -> Seq<Seq<char>> {
    split_from(s, sep, 0, 0)
}

/// The text of an optional string slice.
pub open spec fn opt_str(o: Option<&str>) -> Option<Seq<char>> {
    match o {
        Some(s) => Some(s@),
        None => None,
    }
}

/// The characters with the Unicode `White_Space` property.
pub open spec fn is_white_space(c: char) -> bool {
    ||| ('\u{9}' <= c && c <= '\u{d}')
    ||| c == ' '
    ||| c == '\u{85}'
    ||| c == '\u{a0}'
    ||| c == '\u{1680}'
    ||| ('\u{2000}' <= c && c <= '\u{200a}')
    ||| c == '\u{2028}'
    ||| c == '\u{2029}'
    ||| c == '\u{202f}'
    ||| c == '\u{205f}'
    ||| c == '\u{3000}'
}

/// The longest prefix of `s` without white space.
pub open spec fn word_prefix(s: Seq<char>) -> Seq<char>
    decreases s.len(),
{
    if s.len() == 0 || is_white_space(s[0]) {
        Seq::empty()
    } else {
        seq![s[0]] + word_prefix(s.drop_first())
    }
}

/// The first white-space separated word of `s`, or the empty text when `s`
/// holds only white space.
pub open spec fn first_word(s: Seq<char>) -> Seq<char>
    decreases s.len(),
{
    if s.len() == 0 {
        Seq::empty()
    } else if is_white_space(s[0]) {
        first_word(s.drop_first())
    } else {
        word_prefix(s)
    }
}

/// ASCII upper-case letters made lower-case; every other character kept.
pub open spec fn ascii_lower_char(c: char) -> char {
    if 'A' <= c && c <= 'Z' {
        ((c as u32) + 32) as char
    } else {
        c
    }
}

/// `s` with its ASCII upper-case letters made lower-case.
pub open spec fn ascii_lower(s: Seq<char>) -> Seq<char> {
    s.map_values(|c: char| ascii_lower_char(c))
}

/// The decimal digit `d` (below ten) as a character.
pub open spec fn digit_char(d: nat) -> char {
    (48 + d) as char
}

/// The decimal notation of `n`, without leading zeros.
pub open spec fn decimal(n: nat) -> Seq<char>
    decreases n,
{
    if n < 10 {
        seq![digit_char(n)]
    } else {
        decimal(n / 10).push(digit_char(n % 10))
    }
}

// ---------------------------------------------------------------------------
// Trusted std calls
// ---------------------------------------------------------------------------

/// `String::push`: appends `c` to the end of `s`.
#[verifier::external_body]
fn push_char(s: &mut String, c: char)
    ensures
        final(s)@ == old(s)@.push(c),
{
    s.push(c);
}

// ---------------------------------------------------------------------------
// Executable operations
// ---------------------------------------------------------------------------

/// The characters of `s`, in order.
pub fn chars_of(s: &str) -> (r: Vec<char>)
    ensures
        r@ == s@,
{
    let mut r: Vec<char> = Vec::new();
    for c in it: s.chars()
        invariant
            r@ == it.seq().take(it.index() as int),
    {
        r.push(c);
    }
    r
}

/// The string made of the characters of `v`.
pub fn string_of(v: &Vec<char>) -> (r: String)
    ensures
        r@ == v@,
{
    let mut r = String::new();
    let mut i: usize = 0;
    while i < v.len()
        invariant
            i <= v.len(),
            r@ == v@.take(i as int),
        decreases v.len() - i,
    {
        push_char(&mut r, v[i]);
        i = i + 1;
        assert(v@.take(i as int) == v@.take(i - 1).push(v@[i - 1]));
    }
    assert(v@.take(v.len() as int) == v@);
    r
}

/// An owned copy of `s`.
pub fn owned(s: &str) -> (r: String)
    ensures
        r@ == s@,
{
    String::from_str(s)
}

/// `a` followed by `b`.
pub fn joined(a: &str, b: &str) -> (r: String)
    ensures
        r@ == a@ + b@,
{
    let mut r = String::from_str(a);
    r.append(b);
    r
}

/// Whether `p` occurs in `s` at position `i`.
fn occurs_at_exec(s: &Vec<char>, p: &Vec<char>, i: usize) -> (r: bool)
    requires
        i <= s.len(),
    ensures
        r == occurs_at(s@, p@, i as int),
{
    if p.len() > s.len() - i {
        return false;
    }
    let mut k: usize = 0;
    while k < p.len()
        invariant
            i + p.len() <= s.len(),
            k <= p.len(),
            forall|j: int| 0 <= j < k ==> s@[i + j] == p@[j],
        decreases p.len() - k,
    {
        if s[i + k] != p[k] {
            assert(s@.subrange(i as int, i + p.len())[k as int] != p@[k as int]);
            return false;
        }
        k = k + 1;
    }
    assert(s@.subrange(i as int, i + p.len()) =~= p@);
    true
}

/// Whether the two texts are equal.
pub fn same_text(a: &str, b: &str) -> (r: bool)
    ensures
        r == (a@ == b@),
{
    let va = chars_of(a);
    let vb = chars_of(b);
    if va.len() != vb.len() {
        return false;
    }
    let r = occurs_at_exec(&va, &vb, 0);
    proof {
        if r {
            assert(va@.subrange(0, vb@.len() as int) == va@);
        } else {
            assert(va@.subrange(0, vb@.len() as int) =~= va@);
        }
    }
    r
}

/// Whether `s` begins with `p` (`str::starts_with`).
pub fn starts_with(s: &str, p: &str) -> (r: bool)
    ensures
        r == has_prefix(s@, p@),
{
    let vs = chars_of(s);
    let vp = chars_of(p);
    occurs_at_exec(&vs, &vp, 0)
}

/// Whether `p` occurs in `s` (`str::contains`).
pub fn contains(s: &str, p: &str) -> (r: bool)
    ensures
        r == has_substring(s@, p@),
{
    let vs = chars_of(s);
    let vp = chars_of(p);
    if vp.len() > vs.len() {
        assert forall|i: int| !occurs_at(s@, p@, i) by {}
        return false;
    }
    let last: usize = vs.len() - vp.len();
    let mut i: usize = 0;
    loop
        invariant
            last + vp@.len() == vs@.len(),
            vs@ == s@,
            vp@ == p@,
            i <= last,
            forall|j: int| 0 <= j < i ==> !occurs_at(s@, p@, j),
        decreases last - i,
    {
        if occurs_at_exec(&vs, &vp, i) {
            return true;
        }
        if i == last {
            assert forall|j: int| !occurs_at(s@, p@, j) by {}
            return false;
        }
        i = i + 1;
    }
}

/// Two unfoldings of `replaced` that the loop below needs.
proof fn lemma_replaced_step(s: Seq<char>, from: Seq<char>, to: Seq<char>, i: int)
    requires
        0 <= i < s.len(),
        from.len() > 0,
    ensures
        occurs_at(s, from, i) ==> replaced_nonempty(s.skip(i), from, to) == to + replaced_nonempty(
            s.skip(i + from.len()),
            from,
            to,
        ),
        !occurs_at(s, from, i) ==> replaced_nonempty(s.skip(i), from, to) == seq![s[i]] + replaced_nonempty(
            s.skip(i + 1),
            from,
            to,
        ),
{
    let t = s.skip(i);
    assert(t.len() > 0);
    if occurs_at(s, from, i) {
        assert(t.subrange(0, from.len() as int) =~= s.subrange(i, i + from.len()));
        assert(t.skip(from.len() as int) =~= s.skip(i + from.len()));
    } else {
        if i + from.len() <= s.len() {
            assert(t.subrange(0, from.len() as int) =~= s.subrange(i, i + from.len()));
        }
        assert(t.drop_first() =~= s.skip(i + 1));
    }
}

/// `s` with every occurrence of the non-empty `from` replaced by `to`.
fn replace_nonempty(s: &str, from: &str, to: &str) -> (r: String)
    requires
        from@.len() > 0,
    ensures
        r@ == replaced_nonempty(s@, from@, to@),
{
    let vs = chars_of(s);
    let vf = chars_of(from);
    let vt = chars_of(to);
    let mut out: Vec<char> = Vec::new();
    let mut i: usize = 0;
    assert(s@.skip(0) =~= s@);
    while i < vs.len()
        invariant
            vs@ == s@,
            vf@ == from@,
            vt@ == to@,
            vf@.len() > 0,
            i <= vs.len(),
            out@ + replaced_nonempty(s@.skip(i as int), from@, to@) == replaced_nonempty(s@, from@, to@),
        decreases vs.len() - i,
    {
        proof {
            lemma_replaced_step(s@, from@, to@, i as int);
        }
        if occurs_at_exec(&vs, &vf, i) {
            let ghost before = out@;
            append_chars(&mut out, &vt);
            assert(out@ + replaced_nonempty(s@.skip(i + vf.len()), from@, to@) =~= before + (to@
                + replaced_nonempty(s@.skip(i + vf.len()), from@, to@)));
            i = i + vf.len();
        } else {
            let ghost before = out@;
            out.push(vs[i]);
            assert(out@ + replaced_nonempty(s@.skip(i + 1), from@, to@) =~= before + (seq![s@[i as int]]
                + replaced_nonempty(s@.skip(i + 1), from@, to@)));
            i = i + 1;
        }
    }
    assert(s@.skip(i as int) =~= Seq::<char>::empty());
    assert(out@ + Seq::<char>::empty() =~= out@);
    string_of(&out)
}

/// `to` put before every character of `s` and once more at its end.
fn interleave(s: &str, to: &str) -> (r: String)
    ensures
        r@ == interleaved(s@, to@),
{
    let vs = chars_of(s);
    let vt = chars_of(to);
    let mut out: Vec<char> = Vec::new();
    let mut i: usize = 0;
    assert(s@.skip(0) =~= s@);
    while i < vs.len()
        invariant
            vs@ == s@,
            vt@ == to@,
            i <= vs.len(),
            out@ + interleaved(s@.skip(i as int), to@) == interleaved(s@, to@),
        decreases vs.len() - i,
    {
        let ghost before = out@;
        assert(s@.skip(i as int).drop_first() =~= s@.skip(i + 1));
        assert(s@.skip(i as int)[0] == s@[i as int]);
        append_chars(&mut out, &vt);
        out.push(vs[i]);
        assert(out@ + interleaved(s@.skip(i + 1), to@) =~= before + (to@ + seq![s@[i as int]]
            + interleaved(s@.skip(i + 1), to@)));
        i = i + 1;
    }
    assert(s@.skip(i as int) =~= Seq::<char>::empty());
    append_chars(&mut out, &vt);
    string_of(&out)
}

/// `s` with every occurrence of `from` replaced by `to` (`str::replace`);
/// an empty `from` puts `to` at every character boundary.
pub fn replace_all(s: &str, from: &str, to: &str) -> (r: String)
    ensures
        r@ == replaced(s@, from@, to@),
{
    if from.is_empty() {
        interleave(s, to)
    } else {
        replace_nonempty(s, from, to)
    }
}

/// Appends the characters of `v` to `out`.
fn append_chars(out: &mut Vec<char>, v: &Vec<char>)
    ensures
        final(out)@ == old(out)@ + v@,
{
    let ghost before = out@;
    let mut k: usize = 0;
    while k < v.len()
        invariant
            k <= v.len(),
            out@ == before + v@.take(k as int),
        decreases v.len() - k,
    {
        out.push(v[k]);
        k = k + 1;
        assert(v@.take(k as int) =~= v@.take(k - 1).push(v@[k - 1]));
    }
    assert(v@.take(v.len() as int) =~= v@);
}

/// Whether `c` has the Unicode `White_Space` property (`char::is_whitespace`).
pub fn white_space(c: char) -> (r: bool)
    ensures
        r == is_white_space(c),
{
    ('\u{9}' <= c && c <= '\u{d}') || c == ' ' || c == '\u{85}' || c == '\u{a0}' || c
        == '\u{1680}' || ('\u{2000}' <= c && c <= '\u{200a}') || c == '\u{2028}' || c
        == '\u{2029}' || c == '\u{202f}' || c == '\u{205f}' || c == '\u{3000}'
}

/// The first white-space separated word of `s`, or the empty text
/// (`s.split_whitespace().next().unwrap_or("")`).
pub fn first_word_of(s: &str) -> (r: String)
    ensures
        r@ == first_word(s@),
{
    let v = chars_of(s);
    let mut i: usize = 0;
    assert(s@.skip(0) =~= s@);
    while i < v.len() && white_space(v[i])
        invariant
            v@ == s@,
            i <= v.len(),
            first_word(s@.skip(i as int)) == first_word(s@),
        decreases v.len() - i,
    {
        assert(s@.skip(i as int).drop_first() =~= s@.skip(i + 1));
        i = i + 1;
    }
    let start: usize = i;
    if i < v.len() {
        assert(first_word(s@.skip(i as int)) == word_prefix(s@.skip(i as int)));
    } else {
        assert(s@.skip(i as int) =~= Seq::<char>::empty());
        assert(word_prefix(s@.skip(i as int)) == Seq::<char>::empty());
    }
    let mut out: Vec<char> = Vec::new();
    while i < v.len() && !white_space(v[i])
        invariant
            v@ == s@,
            start <= i <= v.len(),
            out@ + word_prefix(s@.skip(i as int)) == first_word(s@),
        decreases v.len() - i,
    {
        assert(s@.skip(i as int).drop_first() =~= s@.skip(i + 1));
        let ghost before = out@;
        out.push(v[i]);
        assert(out@ + word_prefix(s@.skip(i + 1)) =~= before + (seq![s@[i as int]] + word_prefix(
            s@.skip(i + 1),
        )));
        i = i + 1;
    }
    assert(word_prefix(s@.skip(i as int)) == Seq::<char>::empty());
    assert(out@ + Seq::<char>::empty() =~= out@);
    string_of(&out)
}

/// `c` made lower-case if it is an ASCII upper-case letter.
fn ascii_lower_char_exec(c: char) -> (r: char)
    ensures
        r == ascii_lower_char(c),
{
    if 'A' <= c && c <= 'Z' {
        let n: u32 = c as u32;
        let r = ((n as u8) + 32) as char;
        assert(r == ((c as u32) + 32) as char);
        r
    } else {
        c
    }
}

/// `s` with its ASCII upper-case letters made lower-case.
pub fn to_ascii_lower(s: &str) -> (r: Vec<char>)
    ensures
        r@ == ascii_lower(s@),
{
    let v = chars_of(s);
    let mut out: Vec<char> = Vec::new();
    let mut i: usize = 0;
    while i < v.len()
        invariant
            v@ == s@,
            i <= v.len(),
            out@ == ascii_lower(s@.take(i as int)),
        decreases v.len() - i,
    {
        out.push(ascii_lower_char_exec(v[i]));
        i = i + 1;
        assert(ascii_lower(s@.take(i as int)) =~= ascii_lower(s@.take(i - 1)).push(
            ascii_lower_char(s@[i - 1]),
        ));
    }
    assert(s@.take(v.len() as int) =~= s@);
    out
}

/// Appends the decimal notation of `n` to `out`.
fn push_decimal(out: &mut Vec<char>, n: u64)
    ensures
        final(out)@ == old(out)@ + decimal(n as nat),
    decreases n,
{
    if n >= 10 {
        push_decimal(out, n / 10);
    }
    let d: u8 = (n % 10) as u8;
    let c = (48u8 + d) as char;
    out.push(c);
    assert(c == digit_char((n % 10) as nat));
    if n >= 10 {
        assert(decimal(n as nat) == decimal((n / 10) as nat).push(digit_char((n % 10) as nat)));
    }
}

/// The decimal notation of `n` (`n.to_string()`).
pub fn decimal_string(n: u64) -> (r: String)
    ensures
        r@ == decimal(n as nat),
{
    let mut v: Vec<char> = Vec::new();
    push_decimal(&mut v, n);
    assert(Seq::<char>::empty() + decimal(n as nat) =~= decimal(n as nat));
    string_of(&v)
}

/// The string made of the characters of `v` from position `start` up to,
/// not including, position `end`.
pub fn string_between(v: &Vec<char>, start: usize, end: usize) -> (r: String)
    requires
        start <= end <= v.len(),
    ensures
        r@ == v@.subrange(start as int, end as int),
{
    let mut r = String::new();
    let mut i: usize = start;
    while i < end
        invariant
            start <= i <= end <= v.len(),
            r@ == v@.subrange(start as int, i as int),
        decreases end - i,
    {
        push_char(&mut r, v[i]);
        i = i + 1;
        assert(v@.subrange(start as int, i as int) =~= v@.subrange(start as int, i - 1).push(
            v@[i - 1],
        ));
    }
    r
}

/// The pieces of `s` between the occurrences of the non-empty `sep`
/// (`s.split(sep)`).
pub fn split_text(s: &str, sep: &str) -> (r: Vec<String>)
    requires
        sep@.len() > 0,
    ensures
        r@.map_values(|t: String| t@) == split_by(s@, sep@),
{
    let vs = chars_of(s);
    let vp = chars_of(sep);
    let mut out: Vec<String> = Vec::new();
    let mut start: usize = 0;
    let mut i: usize = 0;
    while vp.len() <= vs.len() - i
        invariant
            vs@ == s@,
            vp@ == sep@,
            vp@.len() > 0,
            start <= i <= vs.len(),
            out@.map_values(|t: String| t@) + split_from(s@, sep@, start as int, i as int)
                == split_by(s@, sep@),
        decreases vs.len() - i,
    {
        if occurs_at_exec(&vs, &vp, i) {
            let piece = string_between(&vs, start, i);
            let ghost before = out@.map_values(|t: String| t@);
            out.push(piece);
            assert(out@.map_values(|t: String| t@) =~= before.push(piece@));
            assert(before.push(piece@) + split_from(s@, sep@, (i + vp.len()) as int, (i
                + vp.len()) as int) =~= before + (seq![piece@] + split_from(
                s@,
                sep@,
                (i + vp.len()) as int,
                (i + vp.len()) as int,
            )));
            i = i + vp.len();
            start = i;
        } else {
            i = i + 1;
        }
    }
    let last = string_between(&vs, start, vs.len());
    let ghost before = out@.map_values(|t: String| t@);
    out.push(last);
    assert(out@.map_values(|t: String| t@) =~= before + seq![last@]);
    out
}

} // verus!
