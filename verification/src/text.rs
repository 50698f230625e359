//! Character-level helpers shared by the rest of the library.

use vstd::prelude::*;

verus! {

/// Appends one character to a string (`String::push`).
#[verifier::external_body]
pub(crate) fn push_char(s: &mut String, c: char)
    ensures
        final(s)@ == old(s)@.push(c),
{
    s.push(c);
}

/// The characters of a string slice, in order.
pub fn chars_of(s: &str) -> (v: Vec<char>)
    ensures
        v@ == s@,
{
    let mut v: Vec<char> = Vec::new();
    for c in it: s.chars()
        invariant
            v@ == it.seq().take(it.index() as int),
            it.seq() == s@,
    {
        v.push(c);
    }
    v
}

/// Builds a string from a sequence of characters.
pub fn string_of(cs: &[char]) -> (s: String)
    ensures
        s@ == cs@,
{
    let mut s = String::new();
    let mut i: usize = 0;
    while i < cs.len()
        invariant
            i <= cs.len(),
            s@ == cs@.take(i as int),
        decreases cs.len() - i,
    {
        push_char(&mut s, cs[i]);
        assert(cs@.take(i + 1) == cs@.take(i as int).push(cs@[i as int]));
        i = i + 1;
    }
    assert(cs@.take(cs.len() as int) == cs@);
    s
}

/// Appends a string slice to a string.
pub fn append_str(s: &mut String, t: &str)
    ensures
        final(s)@ == old(s)@ + t@,
{
    s.append(t);
}

/// Concatenation of the views of a list of string slices.
pub open spec fn concat_all(parts: Seq<Seq<char>>) -> Seq<char>
    decreases parts.len(),
{
    if parts.len() == 0 {
        Seq::empty()
    } else {
        concat_all(parts.drop_last()) + parts.last()
    }
}

/// Equality of two string slices, character by character.
pub fn str_eq(a: &str, b: &str) -> (r: bool)
    ensures
        r == (a@ == b@),
{
    let av = chars_of(a);
    let bv = chars_of(b);
    chars_eq(&av, &bv)
}

/// Equality of two character sequences.
pub fn chars_eq(a: &[char], b: &[char]) -> (r: bool)
    ensures
        r == (a@ == b@),
{
    if a.len() != b.len() {
        return false;
    }
    let mut i: usize = 0;
    while i < a.len()
        invariant
            a.len() == b.len(),
            i <= a.len(),
            forall|k: int| 0 <= k < i ==> a@[k] == b@[k],
        decreases a.len() - i,
    {
        if a[i] != b[i] {
            return false;
        }
        i = i + 1;
    }
    assert(a@ =~= b@);
    true
}

/// Whether `p` is a prefix of `s`.
pub open spec fn is_prefix(p: Seq<char>, s: Seq<char>) -> bool {
    p.len() <= s.len() && s.take(p.len() as int) == p
}

/// `s.starts_with(p)` on character sequences.
pub fn starts_with(s: &[char], p: &[char]) -> (r: bool)
    ensures
        r == is_prefix(p@, s@),
{
    if p.len() > s.len() {
        return false;
    }
    let mut i: usize = 0;
    while i < p.len()
        invariant
            p.len() <= s.len(),
            i <= p.len(),
            forall|k: int| 0 <= k < i ==> s@[k] == p@[k],
        decreases p.len() - i,
    {
        if s[i] != p[i] {
            assert(s@.take(p.len() as int)[i as int] != p@[i as int]);
            return false;
        }
        i = i + 1;
    }
    assert(s@.take(p.len() as int) =~= p@);
    true
}

/// Whether character `c` occurs in `s`.
pub fn contains_char(s: &[char], c: char) -> (r: bool)
    ensures
        r == s@.contains(c),
{
    let mut i: usize = 0;
    while i < s.len()
        invariant
            i <= s.len(),
            forall|k: int| 0 <= k < i ==> s@[k] != c,
        decreases s.len() - i,
    {
        if s[i] == c {
            assert(s@[i as int] == c);
            return true;
        }
        i = i + 1;
    }
    false
}

/// ASCII hexadecimal digit (`char::is_ascii_hexdigit`).
pub open spec fn is_hex_digit(c: char) -> bool {
    ('0' <= c && c <= '9') || ('a' <= c && c <= 'f') || ('A' <= c && c <= 'F')
}

/// ASCII letter or digit (`char::is_ascii_alphanumeric`).
pub open spec fn is_ascii_alnum(c: char) -> bool {
    ('0' <= c && c <= '9') || ('a' <= c && c <= 'z') || ('A' <= c && c <= 'Z')
}

/// ASCII upper-casing of one character; other characters are unchanged.
pub open spec fn ascii_upper(c: char) -> char {
    if 'a' <= c && c <= 'z' {
        ((c as int) - 32) as char
    } else {
        c
    }
}

/// ASCII upper-casing of a whole sequence.
pub open spec fn upper_seq(s: Seq<char>) -> Seq<char> {
    s.map_values(|c: char| ascii_upper(c))
}

pub fn hex_digit(c: char) -> (r: bool)
    ensures
        r == is_hex_digit(c),
{
    ('0' <= c && c <= '9') || ('a' <= c && c <= 'f') || ('A' <= c && c <= 'F')
}

pub fn ascii_alnum(c: char) -> (r: bool)
    ensures
        r == is_ascii_alnum(c),
{
    ('0' <= c && c <= '9') || ('a' <= c && c <= 'z') || ('A' <= c && c <= 'Z')
}

pub fn to_ascii_upper(c: char) -> (r: char)
    ensures
        r == ascii_upper(c),
{
    if 'a' <= c && c <= 'z' {
        let b: u8 = (c as u8) - 32;
        b as char
    } else {
        c
    }
}

} // verus!

verus! {

/// The ASCII letters and digits of `s`, upper-cased.
pub open spec fn upper_alnum(s: Seq<char>) -> Seq<char> {
    upper_seq(alnum_only(s))
}

/// The ASCII letters and digits of `s`, in order.
pub open spec fn alnum_only(s: Seq<char>) -> Seq<char>
    decreases s.len(),
{
    if s.len() == 0 {
        s
    } else if is_ascii_alnum(s.last()) {
        alnum_only(s.drop_last()).push(s.last())
    } else {
        alnum_only(s.drop_last())
    }
}

/// The ASCII hexadecimal digits of `s`, in order.
pub open spec fn hex_only(s: Seq<char>) -> Seq<char>
    decreases s.len(),
{
    if s.len() == 0 {
        s
    } else if is_hex_digit(s.last()) {
        hex_only(s.drop_last()).push(s.last())
    } else {
        hex_only(s.drop_last())
    }
}

pub fn keep_upper_alnum(s: &[char]) -> (r: Vec<char>)
    ensures
        r@ == upper_alnum(s@),
{
    let mut r: Vec<char> = Vec::new();
    let mut i: usize = 0;
    while i < s.len()
        invariant
            i <= s.len(),
            r@ == upper_alnum(s@.take(i as int)),
        decreases s.len() - i,
    {
        let c = s[i];
        proof {
            assert(s@.take(i + 1).drop_last() == s@.take(i as int));
            assert(s@.take(i + 1).last() == c);
            let f = alnum_only(s@.take(i as int));
            assert(upper_seq(f.push(c)) =~= upper_seq(f).push(ascii_upper(c)));
        }
        if ascii_alnum(c) {
            r.push(to_ascii_upper(c));
        }
        i = i + 1;
    }
    assert(s@.take(s.len() as int) == s@);
    r
}

pub fn keep_hex(s: &[char]) -> (r: Vec<char>)
    ensures
        r@ == hex_only(s@),
{
    let mut r: Vec<char> = Vec::new();
    let mut i: usize = 0;
    while i < s.len()
        invariant
            i <= s.len(),
            r@ == hex_only(s@.take(i as int)),
        decreases s.len() - i,
    {
        let c = s[i];
        proof {
            assert(s@.take(i + 1).drop_last() == s@.take(i as int));
            assert(s@.take(i + 1).last() == c);
        }
        if hex_digit(c) {
            r.push(c);
        }
        i = i + 1;
    }
    assert(s@.take(s.len() as int) == s@);
    r
}

pub fn upper_all(s: &[char]) -> (r: Vec<char>)
    ensures
        r@ == upper_seq(s@),
{
    let mut r: Vec<char> = Vec::new();
    let mut i: usize = 0;
    while i < s.len()
        invariant
            i <= s.len(),
            r@ == upper_seq(s@.take(i as int)),
        decreases s.len() - i,
    {
        proof {
            assert(upper_seq(s@.take(i + 1)) =~= upper_seq(s@.take(i as int)).push(ascii_upper(s@[i as int])));
        }
        r.push(to_ascii_upper(s[i]));
        i = i + 1;
    }
    assert(s@.take(s.len() as int) == s@);
    r
}

} // verus!

verus! {

/// An owned copy of a string slice.
pub fn owned(s: &str) -> (r: String)
    ensures
        r@ == s@,
{
    s.to_owned()
}

/// The rest of `s` after the prefix `p`, or `s` itself when `p` is no prefix.
pub open spec fn without_prefix(p: Seq<char>, s: Seq<char>) -> Seq<char> {
    if is_prefix(p, s) { s.skip(p.len() as int) } else { s }
}

/// `s.strip_prefix(p).unwrap_or(s)`.
pub fn strip_prefix_or_self(s: &str, p: &str) -> (r: String)
    ensures
        r@ == without_prefix(p@, s@),
{
    let cs = chars_of(s);
    let ps = chars_of(p);
    if starts_with(&cs, &ps) {
        let mut out: Vec<char> = Vec::new();
        let mut i: usize = ps.len();
        while i < cs.len()
            invariant
                ps.len() <= i <= cs.len(),
                out@ == cs@.subrange(ps.len() as int, i as int),
            decreases cs.len() - i,
        {
            out.push(cs[i]);
            assert(cs@.subrange(ps.len() as int, i + 1) == cs@.subrange(ps.len() as int, i as int).push(cs@[i as int]));
            i = i + 1;
        }
        assert(out@ == s@.skip(p@.len() as int));
        string_of(&out)
    } else {
        owned(s)
    }
}

/// The decimal digit character of `d` (0 to 9).
pub open spec fn digit_char(d: nat) -> char {
    (48 + d) as char
}

/// The decimal representation of a natural number, without leading zeros.
pub open spec fn decimal_nat(n: nat) -> Seq<char>
    decreases n,
{
    if n < 10 {
        seq![digit_char(n)]
    } else {
        decimal_nat(n / 10).push(digit_char(n % 10))
    }
}

/// Reading back a number written in decimal gives the number.
pub proof fn lemma_decimal_digits(n: nat)
    ensures
        all_digits(decimal_nat(n)),
        digits_value(decimal_nat(n)) == n,
    decreases n,
{
    if n >= 10 {
        lemma_decimal_digits(n / 10);
        let d = decimal_nat(n);
        assert(d.drop_last() =~= decimal_nat(n / 10));
        assert forall|i: int| 0 <= i < d.len() implies '0' <= #[trigger] d[i] && d[i] <= '9' by {
            if i < d.len() - 1 {
                assert(d[i] == decimal_nat(n / 10)[i]);
            }
        }
        let r = n % 10;
        assert(d.last() == digit_char(r));
        assert(digit_char(r) as nat == 48 + r);
        assert((n / 10) * 10 + r == n) by (nonlinear_arith)
            requires r == n % 10;
        assert(digits_value(d) == digits_value(d.drop_last()) * 10 + (d.last() as nat - 48) as nat);
        assert((d.last() as nat - 48) as nat == r);
        assert(digits_value(d.drop_last()) == n / 10);
    } else {
        let d = decimal_nat(n);
        assert(d.drop_last() =~= Seq::<char>::empty());
        assert(digit_char(n) as nat == 48 + n);
        assert(digits_value(d) == digits_value(d.drop_last()) * 10 + (d.last() as nat - 48) as nat);
        assert(digits_value(d.drop_last()) == 0);
    }
}

/// `str::parse` reads a decimal number back as that number.
pub proof fn lemma_decimal_parse(n: nat, signed: bool)
    ensures
        parsed_int(decimal_nat(n), signed) == Some(n as int),
{
    lemma_decimal_digits(n);
    let d = decimal_nat(n);
    assert('0' <= d[0] && d[0] <= '9');
}

/// The decimal representation of an integer, with `-` before a negative one.
pub open spec fn decimal_int(n: int) -> Seq<char> {
    if n < 0 { seq!['-'] + decimal_nat((-n) as nat) } else { decimal_nat(n as nat) }
}

/// Appends the decimal representation of `n`.
pub fn push_decimal(s: &mut String, n: u64)
    ensures
        final(s)@ == old(s)@ + decimal_nat(n as nat),
    decreases n,
{
    if n >= 10 {
        push_decimal(s, n / 10);
    }
    let d: u8 = (n % 10) as u8;
    let c = (48u8 + d) as char;
    assert(c == digit_char((n % 10) as nat));
    push_char(s, c);
}

/// `n.to_string()` for an unsigned number.
pub fn decimal_u64(n: u64) -> (r: String)
    ensures
        r@ == decimal_nat(n as nat),
{
    let mut s = String::new();
    push_decimal(&mut s, n);
    s
}

/// `n.to_string()` for a signed number.
pub fn decimal_i64(n: i64) -> (r: String)
    ensures
        r@ == decimal_int(n as int),
{
    let mut s = String::new();
    if n < 0 {
        push_char(&mut s, '-');
        let m: u64 = if n == i64::MIN { 9223372036854775808u64 } else { (-n) as u64 };
        push_decimal(&mut s, m);
    } else {
        push_decimal(&mut s, n as u64);
    }
    s
}

/// The pieces of `s` between the occurrences of `sep` (`str::split` with a
/// character): one more piece than there are separators, empty pieces kept.
pub open spec fn split_on(s: Seq<char>, sep: char) -> Seq<Seq<char>>
    decreases s.len(),
{
    if s.len() == 0 {
        seq![Seq::empty()]
    } else {
        let r = split_on(s.drop_last(), sep);
        if s.last() == sep {
            r.push(Seq::empty())
        } else {
            r.update(r.len() - 1, r.last().push(s.last()))
        }
    }
}

/// A split always gives at least one piece.
pub proof fn lemma_split_nonempty(s: Seq<char>, sep: char)
    ensures
        split_on(s, sep).len() >= 1,
    decreases s.len(),
{
    if s.len() > 0 {
        lemma_split_nonempty(s.drop_last(), sep);
    }
}

/// `s.split(sep)`, collected.
pub fn split_str(s: &str, sep: char) -> (r: Vec<String>)
    ensures
        r@.map_values(|p: String| p@) == split_on(s@, sep),
{
    let cs = chars_of(s);
    let mut done: Vec<String> = Vec::new();
    let mut cur: Vec<char> = Vec::new();
    let mut i: usize = 0;
    while i < cs.len()
        invariant
            i <= cs.len(),
            cs@ == s@,
            done@.map_values(|p: String| p@).push(cur@) == split_on(s@.take(i as int), sep),
        decreases cs.len() - i,
    {
        proof {
            assert(s@.take(i + 1).drop_last() =~= s@.take(i as int));
            assert(s@.take(i + 1).last() == cs@[i as int]);
            lemma_split_nonempty(s@.take(i as int), sep);
        }
        let ghost before = done@.map_values(|p: String| p@);
        let ghost cur0 = cur@;
        if cs[i] == sep {
            let piece = string_of(&cur);
            done.push(piece);
            cur = Vec::new();
            assert(done@.map_values(|p: String| p@) =~= before.push(cur0));
            assert(done@.map_values(|p: String| p@).push(cur@) =~= before.push(cur0).push(Seq::empty()));
        } else {
            cur.push(cs[i]);
            assert(done@.map_values(|p: String| p@).push(cur@) =~= before.push(cur0).update(before.len() as int, cur0.push(cs@[i as int])));
        }
        i = i + 1;
    }
    let last = string_of(&cur);
    let ghost before = done@.map_values(|p: String| p@);
    done.push(last);
    assert(done@.map_values(|p: String| p@) =~= before.push(cur@));
    assert(s@.take(s@.len() as int) =~= s@);
    done
}

/// The characters with the Unicode White_Space property (what
/// `char::is_whitespace` accepts).
pub open spec fn is_white_space(c: char) -> bool {
    ('\u{9}' <= c && c <= '\u{d}') || c == ' ' || c == '\u{85}' || c == '\u{a0}' || c == '\u{1680}'
        || ('\u{2000}' <= c && c <= '\u{200a}') || c == '\u{2028}' || c == '\u{2029}' || c == '\u{202f}'
        || c == '\u{205f}' || c == '\u{3000}'
}

pub fn white_space(c: char) -> (r: bool)
    ensures
        r == is_white_space(c),
{
    ('\u{9}' <= c && c <= '\u{d}') || c == ' ' || c == '\u{85}' || c == '\u{a0}' || c == '\u{1680}'
        || ('\u{2000}' <= c && c <= '\u{200a}') || c == '\u{2028}' || c == '\u{2029}' || c == '\u{202f}'
        || c == '\u{205f}' || c == '\u{3000}'
}

/// `s` without its leading whitespace.
pub open spec fn trim_start(s: Seq<char>) -> Seq<char>
    decreases s.len(),
{
    if s.len() > 0 && is_white_space(s[0]) { trim_start(s.skip(1)) } else { s }
}

/// `s` without its trailing whitespace.
pub open spec fn trim_end(s: Seq<char>) -> Seq<char>
    decreases s.len(),
{
    if s.len() > 0 && is_white_space(s.last()) { trim_end(s.drop_last()) } else { s }
}

/// `s` without leading and trailing whitespace (`str::trim`).
pub open spec fn trimmed(s: Seq<char>) -> Seq<char> {
    trim_end(trim_start(s))
}

/// `s.trim()`, as an owned string.
pub fn trim_str(s: &str) -> (r: String)
    ensures
        r@ == trimmed(s@),
{
    let cs = chars_of(s);
    let n = cs.len();
    let mut i: usize = 0;
    assert(s@.skip(0) =~= s@);
    while i < n && white_space(cs[i])
        invariant
            i <= n,
            n == cs@.len(),
            cs@ == s@,
            trim_start(s@) == trim_start(s@.skip(i as int)),
        decreases n - i,
    {
        assert(s@.skip(i as int)[0] == cs@[i as int]);
        assert(s@.skip(i as int).skip(1) =~= s@.skip(i + 1));
        i = i + 1;
    }
    proof {
        if i < n {
            assert(s@.skip(i as int)[0] == cs@[i as int]);
        }
    }
    assert(trim_start(s@) == s@.skip(i as int));
    let mut j: usize = n;
    assert(s@.subrange(i as int, n as int) =~= s@.skip(i as int));
    while j > i && white_space(cs[j - 1])
        invariant
            i <= j <= n,
            n == cs@.len(),
            cs@ == s@,
            trim_end(s@.skip(i as int)) == trim_end(s@.subrange(i as int, j as int)),
        decreases j - i,
    {
        assert(s@.subrange(i as int, j as int).last() == cs@[j - 1]);
        assert(s@.subrange(i as int, j as int).drop_last() =~= s@.subrange(i as int, j - 1));
        j = j - 1;
    }
    proof {
        if j > i {
            assert(s@.subrange(i as int, j as int).last() == cs@[j - 1]);
        }
    }
    let mut out: Vec<char> = Vec::new();
    let mut k: usize = i;
    while k < j
        invariant
            i <= k <= j <= n,
            n == cs@.len(),
            out@ == cs@.subrange(i as int, k as int),
        decreases j - k,
    {
        out.push(cs[k]);
        assert(cs@.subrange(i as int, k + 1) =~= cs@.subrange(i as int, k as int).push(cs@[k as int]));
        k = k + 1;
    }
    string_of(&out)
}

/// What `str::to_lowercase` makes of a string (Unicode lower case).
pub uninterp spec fn lowercased(s: Seq<char>) -> Seq<char>;

/// An ASCII character that is no upper-case letter: it has no lower-case
/// mapping of its own, so lower-casing keeps it.
pub open spec fn keeps_lower_case(c: char) -> bool {
    (c as u32) < 128 && !('A' <= c && c <= 'Z')
}

/// `str::to_lowercase`: the lower-case form of the string. A character
/// without a lower-case mapping maps to itself (`char::to_lowercase`), so
/// text of ASCII characters other than upper-case letters is returned as
/// it is.
#[verifier::external_body]
pub(crate) fn lowercase(s: &str) -> (r: String)
    ensures
        r@ == lowercased(s@),
        (forall|i: int| 0 <= i < s@.len() ==> keeps_lower_case(#[trigger] s@[i])) ==> r@ == s@,
{
    s.to_lowercase()
}

/// Every character is an ASCII digit, and there is at least one.
pub open spec fn all_digits(s: Seq<char>) -> bool {
    s.len() > 0 && forall|i: int| 0 <= i < s.len() ==> '0' <= #[trigger] s[i] && s[i] <= '9'
}

/// The number that a sequence of decimal digits denotes.
pub open spec fn digits_value(s: Seq<char>) -> nat
    decreases s.len(),
{
    if s.len() == 0 {
        0
    } else {
        digits_value(s.drop_last()) * 10 + (s.last() as nat - 48) as nat
    }
}

/// The integer a string denotes as `str::parse` reads integers: an optional
/// `+` (or, when signed, `-`) and then at least one ASCII digit, nothing
/// else. The range of the target type is checked separately.
pub open spec fn parsed_int(s: Seq<char>, signed: bool) -> Option<int> {
    if s.len() > 0 && s[0] == '+' && all_digits(s.skip(1)) {
        Some(digits_value(s.skip(1)) as int)
    } else if signed && s.len() > 0 && s[0] == '-' && all_digits(s.skip(1)) {
        Some(-(digits_value(s.skip(1)) as int))
    } else if all_digits(s) {
        Some(digits_value(s) as int)
    } else {
        None
    }
}

/// `str::parse` into an integer type whose range is `lo..=hi`.
pub open spec fn parsed_in_range(s: Seq<char>, signed: bool, lo: int, hi: int) -> Option<int> {
    match parsed_int(s, signed) {
        Some(v) => if lo <= v && v <= hi { Some(v) } else { None },
        None => None,
    }
}

/// Beyond every bound this library parses against.
pub open spec fn digit_cap() -> nat {
    1099511627776
}

/// The value of the digits `cs[start..]`, capped: `None` unless they are
/// all digits (at least one); else their value, or `digit_cap()` when the
/// value is at least that.
fn scan_digits(cs: &Vec<char>, start: usize) -> (r: Option<u64>)
    requires
        start <= cs.len(),
    ensures
        r is Some <==> all_digits(cs@.skip(start as int)),
        r matches Some(v) ==> (v < digit_cap() && v == digits_value(cs@.skip(start as int)))
            || (v == digit_cap() && digits_value(cs@.skip(start as int)) >= digit_cap()),
{
    if start == cs.len() {
        return None;
    }
    let cap: u64 = 1099511627776;
    let mut acc: u64 = 0;
    let mut i: usize = start;
    while i < cs.len()
        invariant
            start <= i <= cs.len(),
            start < cs.len(),
            cap == digit_cap(),
            forall|k: int| start <= k < i ==> '0' <= #[trigger] cs@[k] && cs@[k] <= '9',
            (acc < cap && acc == digits_value(cs@.subrange(start as int, i as int)))
                || (acc == cap && digits_value(cs@.subrange(start as int, i as int)) >= cap),
        decreases cs.len() - i,
    {
        let c = cs[i];
        if !('0' <= c && c <= '9') {
            assert(cs@.skip(start as int)[i - start] == c);
            return None;
        }
        let d = (c as u32 - 48) as u64;
        assert(cs@.subrange(start as int, i + 1).drop_last() =~= cs@.subrange(start as int, i as int));
        if acc < cap {
            let n = acc * 10 + d;
            if n >= cap { acc = cap; } else { acc = n; }
        }
        i = i + 1;
    }
    assert(cs@.subrange(start as int, cs.len() as int) =~= cs@.skip(start as int));
    Some(acc)
}

/// `s.parse::<T>().ok()` for an integer type whose range is `lo..=hi`
/// (with `hi` below `digit_cap()`).
fn parse_in_range(s: &str, signed: bool, lo: i64, hi: i64) -> (r: Option<i64>)
    requires
        -(digit_cap() as int) < lo <= 0 < hi < digit_cap(),
    ensures
        match r {
            Some(v) => parsed_in_range(s@, signed, lo as int, hi as int) == Some(v as int),
            None => parsed_in_range(s@, signed, lo as int, hi as int) is None,
        },
{
    let cs = chars_of(s);
    if cs.len() == 0 {
        return None;
    }
    let first = cs[0];
    let (negative, start) = if first == '+' {
        (false, 1usize)
    } else if signed && first == '-' {
        (true, 1usize)
    } else {
        (false, 0usize)
    };
    proof {
        if start == 0 {
            assert(cs@.skip(0) =~= cs@);
        }
    }
    match scan_digits(&cs, start) {
        None => {
            proof {
                if start == 0 {
                    if first == '+' || (signed && first == '-') {
                    }
                }
            }
            None
        },
        Some(v) => {
            if v >= 1099511627776 {
                return None;
            }
            let value: i64 = if negative { -(v as i64) } else { v as i64 };
            if lo <= value && value <= hi { Some(value) } else { None }
        },
    }
}

/// `s.parse::<u8>().ok()`.
pub fn parse_u8(s: &str) -> (r: Option<u8>)
    ensures
        match r {
            Some(v) => parsed_in_range(s@, false, 0, 255) == Some(v as int),
            None => parsed_in_range(s@, false, 0, 255) is None,
        },
{
    match parse_in_range(s, false, 0, 255) {
        Some(v) => Some(v as u8),
        None => None,
    }
}

/// `s.parse::<u16>().ok()`.
pub fn parse_u16(s: &str) -> (r: Option<u16>)
    ensures
        match r {
            Some(v) => parsed_in_range(s@, false, 0, 65535) == Some(v as int),
            None => parsed_in_range(s@, false, 0, 65535) is None,
        },
{
    match parse_in_range(s, false, 0, 65535) {
        Some(v) => Some(v as u16),
        None => None,
    }
}

/// `s.parse::<u32>().ok()`.
pub fn parse_u32(s: &str) -> (r: Option<u32>)
    ensures
        match r {
            Some(v) => parsed_in_range(s@, false, 0, 4294967295) == Some(v as int),
            None => parsed_in_range(s@, false, 0, 4294967295) is None,
        },
{
    match parse_in_range(s, false, 0, 4294967295) {
        Some(v) => Some(v as u32),
        None => None,
    }
}

/// `s.parse::<i32>().ok()`.
pub fn parse_i32(s: &str) -> (r: Option<i32>)
    ensures
        match r {
            Some(v) => parsed_in_range(s@, true, -2147483648, 2147483647) == Some(v as int),
            None => parsed_in_range(s@, true, -2147483648, 2147483647) is None,
        },
{
    match parse_in_range(s, true, -2147483648, 2147483647) {
        Some(v) => Some(v as i32),
        None => None,
    }
}

/// What `str::to_uppercase` makes of a string (Unicode upper case).
pub uninterp spec fn uppercased(s: Seq<char>) -> Seq<char>;

/// `str::to_uppercase`: the upper-case form of the string.
#[verifier::external_body]
pub(crate) fn uppercase(s: &str) -> (r: String)
    ensures
        r@ == uppercased(s@),
{
    s.to_uppercase()
}

/// A line without the `\r` of a `\r\n` ending.
pub open spec fn strip_cr(l: Seq<char>) -> Seq<char> {
    if l.len() > 0 && l.last() == '\r' { l.drop_last() } else { l }
}

/// The lines of a text (`str::lines`): split at `\n`, a `\r` before the
/// `\n` removed, and no empty last line after a final `\n`.
pub open spec fn text_lines(s: Seq<char>) -> Seq<Seq<char>> {
    let ps = split_on(s, '\n');
    let body = ps.drop_last().map_values(|l: Seq<char>| strip_cr(l));
    if ps.last().len() == 0 { body } else { body.push(ps.last()) }
}

/// The lines of a text.
pub fn lines_of(s: &str) -> (r: Vec<String>)
    ensures
        r@.map_values(|l: String| l@) == text_lines(s@),
{
    let parts = split_str(s, '\n');
    let ghost ps = split_on(s@, '\n');
    proof {
        lemma_split_nonempty(s@, '\n');
    }
    let n = parts.len();
    let mut r: Vec<String> = Vec::new();
    let mut i: usize = 0;
    while i + 1 < n
        invariant
            i + 1 <= n,
            n == parts@.len(),
            parts@.map_values(|p: String| p@) == ps,
            r@.map_values(|l: String| l@) == ps.take(i as int).map_values(|l: Seq<char>| strip_cr(l)),
        decreases n - i,
    {
        let cs = chars_of(parts[i].as_str());
        let m = cs.len();
        let ghost before = r@.map_values(|l: String| l@);
        if m > 0 && cs[m - 1] == '\r' {
            let mut out: Vec<char> = Vec::new();
            let mut k: usize = 0;
            while k + 1 < m
                invariant
                    k + 1 <= m,
                    m == cs@.len(),
                    out@ == cs@.take(k as int),
                decreases m - k,
            {
                out.push(cs[k]);
                assert(cs@.take(k + 1) =~= cs@.take(k as int).push(cs@[k as int]));
                k = k + 1;
            }
            assert(out@ =~= cs@.drop_last());
            r.push(string_of(&out));
        } else {
            r.push(parts[i].clone());
        }
        assert(ps[i as int] == parts@[i as int]@);
        assert(r@.map_values(|l: String| l@) =~= before.push(strip_cr(ps[i as int])));
        assert(ps.take(i + 1).map_values(|l: Seq<char>| strip_cr(l))
            =~= ps.take(i as int).map_values(|l: Seq<char>| strip_cr(l)).push(strip_cr(ps[i as int])));
        i = i + 1;
    }
    assert(ps.take(i as int) =~= ps.drop_last());
    assert(ps.last() == parts@[n - 1]@);
    if !parts[n - 1].as_str().is_empty() {
        let ghost before = r@.map_values(|l: String| l@);
        r.push(parts[n - 1].clone());
        assert(r@.map_values(|l: String| l@) =~= before.push(ps.last()));
    }
    r
}

/// How many times `c` occurs in `s`.
pub open spec fn count_char(s: Seq<char>, c: char) -> nat
    decreases s.len(),
{
    if s.len() == 0 { 0 } else { count_char(s.drop_last(), c) + if s.last() == c { 1nat } else { 0nat } }
}

/// A character occurs no more often than the text is long.
pub proof fn lemma_count_le_len(s: Seq<char>, c: char)
    ensures
        count_char(s, c) <= s.len(),
    decreases s.len(),
{
    if s.len() > 0 {
        lemma_count_le_len(s.drop_last(), c);
    }
}

/// How many times `c` occurs in `s` (`s.matches(c).count()`).
pub fn count_char_in(s: &str, c: char) -> (r: usize)
    ensures
        r == count_char(s@, c),
{
    let cs = chars_of(s);
    let mut n: usize = 0;
    let mut i: usize = 0;
    while i < cs.len()
        invariant
            i <= cs.len(),
            cs@ == s@,
            n == count_char(s@.take(i as int), c),
            n <= i,
        decreases cs.len() - i,
    {
        assert(s@.take(i + 1).drop_last() =~= s@.take(i as int));
        if cs[i] == c {
            n = n + 1;
        }
        i = i + 1;
    }
    assert(s@.take(cs.len() as int) =~= s@);
    n
}

/// `sub` occurs in `s` (`str::contains` with a string).
pub open spec fn has_substring(s: Seq<char>, sub: Seq<char>) -> bool {
    exists|i: int| 0 <= i && i + sub.len() <= s.len() && #[trigger] s.subrange(i, i + sub.len()) == sub
}

pub fn contains_str(s: &str, sub: &str) -> (r: bool)
    ensures
        r == has_substring(s@, sub@),
{
    let cs = chars_of(s);
    let ps = chars_of(sub);
    if ps.len() > cs.len() {
        return false;
    }
    let last = cs.len() - ps.len();
    let mut i: usize = 0;
    while i <= last
        invariant
            ps.len() <= cs.len(),
            last == cs.len() - ps.len(),
            i <= last + 1,
            cs@ == s@,
            ps@ == sub@,
            forall|k: int| 0 <= k < i ==> #[trigger] s@.subrange(k, k + sub@.len()) != sub@,
        decreases cs.len() - i,
    {
        let mut j: usize = 0;
        let mut same = true;
        while j < ps.len()
            invariant
                j <= ps.len(),
                i + ps.len() <= cs.len(),
                same == (forall|k: int| 0 <= k < j ==> cs@[i + k] == ps@[k]),
            decreases ps.len() - j,
        {
            if cs[i + j] != ps[j] {
                same = false;
            }
            j = j + 1;
        }
        if same {
            assert(s@.subrange(i as int, i + sub@.len()) =~= sub@);
            return true;
        }
        proof {
            if s@.subrange(i as int, i + sub@.len()) == sub@ {
                assert forall|k: int| 0 <= k < ps.len() implies cs@[i + k] == ps@[k] by {
                    assert(s@.subrange(i as int, i + sub@.len())[k] == cs@[i + k]);
                }
            }
        }
        i = i + 1;
    }
    proof {
        assert forall|k: int| 0 <= k && k + sub@.len() <= s@.len() implies #[trigger] s@.subrange(k, k + sub@.len()) != sub@ by {
            assert(k < i);
        }
    }
    false
}

/// `s` without trailing `c`s (`str::trim_end_matches` with a character).
pub open spec fn strip_trailing(s: Seq<char>, c: char) -> Seq<char>
    decreases s.len(),
{
    if s.len() > 0 && s.last() == c { strip_trailing(s.drop_last(), c) } else { s }
}

/// The whitespace-separated words of `s` (`str::split_whitespace`).
pub open spec fn words(s: Seq<char>) -> Seq<Seq<char>>
    decreases s.len(),
{
    if s.len() == 0 {
        Seq::empty()
    } else {
        let w = words(s.drop_last());
        let c = s.last();
        if is_white_space(c) {
            w
        } else if s.len() >= 2 && !is_white_space(s[s.len() - 2]) {
            w.update(w.len() - 1, w.last().push(c))
        } else {
            w.push(seq![c])
        }
    }
}

/// `s.split_whitespace()`, collected.
pub fn words_of(s: &str) -> (r: Vec<String>)
    ensures
        r@.map_values(|w: String| w@) == words(s@),
{
    let cs = chars_of(s);
    let mut done: Vec<String> = Vec::new();
    let mut cur: Vec<char> = Vec::new();
    let mut i: usize = 0;
    while i < cs.len()
        invariant
            i <= cs.len(),
            cs@ == s@,
            (i > 0 && !is_white_space(cs@[i - 1])) ==> done@.map_values(|w: String| w@).push(cur@) == words(s@.take(i as int))
                && cur@.len() > 0,
            !(i > 0 && !is_white_space(cs@[i - 1])) ==> done@.map_values(|w: String| w@) == words(s@.take(i as int)) && cur@.len() == 0,
        decreases cs.len() - i,
    {
        let c = cs[i];
        let ghost t = s@.take(i + 1);
        assert(t.drop_last() =~= s@.take(i as int));
        assert(t.last() == c);
        let ghost dv = done@.map_values(|w: String| w@);
        let ghost cu = cur@;
        let in_word = i > 0 && !white_space(cs[i - 1]);
        if white_space(c) {
            if in_word {
                let w = string_of(&cur);
                done.push(w);
                cur = Vec::new();
                assert(done@.map_values(|w: String| w@) =~= dv.push(cu));
            }
        } else {
            if in_word {
                assert(t[t.len() - 2] == cs@[i - 1]);
                cur.push(c);
                assert(dv.push(cu).update(dv.len() as int, cu.push(c)) =~= dv.push(cur@));
            } else {
                proof {
                    if i > 0 {
                        assert(t[t.len() - 2] == cs@[i - 1]);
                    }
                }
                cur.push(c);
                assert(cur@ =~= seq![c]);
            }
        }
        i = i + 1;
    }
    assert(s@.take(cs.len() as int) =~= s@);
    if cur.len() > 0 {
        let ghost dv = done@.map_values(|w: String| w@);
        let w = string_of(&cur);
        done.push(w);
        assert(done@.map_values(|w: String| w@) =~= dv.push(cur@));
    }
    done
}

/// `s.trim_end_matches(c)`.
pub fn strip_trailing_char(s: &str, c: char) -> (r: String)
    ensures
        r@ == strip_trailing(s@, c),
{
    let cs = chars_of(s);
    let mut j: usize = cs.len();
    assert(s@.take(j as int) =~= s@);
    while j > 0 && cs[j - 1] == c
        invariant
            j <= cs.len(),
            cs@ == s@,
            strip_trailing(s@, c) == strip_trailing(s@.take(j as int), c),
        decreases j,
    {
        assert(s@.take(j as int).drop_last() =~= s@.take(j - 1));
        j = j - 1;
    }
    let mut out: Vec<char> = Vec::new();
    let mut k: usize = 0;
    while k < j
        invariant
            k <= j <= cs.len(),
            out@ == cs@.take(k as int),
        decreases j - k,
    {
        out.push(cs[k]);
        assert(cs@.take(k + 1) =~= cs@.take(k as int).push(cs@[k as int]));
        k = k + 1;
    }
    proof {
        if j > 0 {
            assert(s@.take(j as int).last() == cs@[j - 1]);
        }
    }
    string_of(&out)
}

/// The total number of characters of some pieces.
pub open spec fn total_len(ls: Seq<Seq<char>>) -> nat
    decreases ls.len(),
{
    if ls.len() == 0 { 0 } else { total_len(ls.drop_last()) + ls.last().len() }
}

/// The lengths of the first lines add up to no more than those of all lines.
pub proof fn lemma_total_prefix(ls: Seq<Seq<char>>, i: int)
    requires
        0 <= i <= ls.len(),
    ensures
        total_len(ls.take(i)) <= total_len(ls),
        i < ls.len() ==> total_len(ls.take(i + 1)) == total_len(ls.take(i)) + ls[i].len(),
    decreases ls.len(),
{
    if i < ls.len() {
        assert(ls.take(i + 1).drop_last() =~= ls.take(i));
        if i + 1 < ls.len() {
            assert(ls.drop_last().take(i + 1) =~= ls.take(i + 1));
            assert(ls.drop_last().take(i) =~= ls.take(i));
            lemma_total_prefix(ls.drop_last(), i + 1);
        } else {
            assert(ls.take(i + 1) =~= ls);
        }
    } else {
        assert(ls.take(i) =~= ls);
    }
}

proof fn lemma_split_total(s: Seq<char>, sep: char)
    ensures
        total_len(split_on(s, sep)) + split_on(s, sep).len() == s.len() + 1,
    decreases s.len(),
{
    lemma_split_nonempty(s, sep);
    if s.len() == 0 {
        let e = split_on(s, sep);
        assert(e.len() == 1);
        assert(e.drop_last().len() == 0);
        assert(total_len(e) == total_len(e.drop_last()) + e.last().len());
    } else {
        lemma_split_total(s.drop_last(), sep);
        lemma_split_nonempty(s.drop_last(), sep);
        let r = split_on(s.drop_last(), sep);
        assert(total_len(r) == total_len(r.drop_last()) + r.last().len());
        if s.last() == sep {
            let u = r.push(Seq::<char>::empty());
            assert(u.drop_last() =~= r);
            assert(total_len(u) == total_len(u.drop_last()) + u.last().len());
        } else {
            let u = r.update(r.len() - 1, r.last().push(s.last()));
            assert(u.drop_last() =~= r.drop_last());
            assert(u.last() == r.last().push(s.last()));
            assert(total_len(u) == total_len(u.drop_last()) + u.last().len());
        }
    }
}

proof fn lemma_strip_total(ps: Seq<Seq<char>>)
    ensures
        total_len(ps.map_values(|l: Seq<char>| strip_cr(l))) <= total_len(ps),
    decreases ps.len(),
{
    if ps.len() > 0 {
        lemma_strip_total(ps.drop_last());
        assert(ps.map_values(|l: Seq<char>| strip_cr(l)).drop_last() =~= ps.drop_last().map_values(|l: Seq<char>| strip_cr(l)));
    }
}

/// The lines of a text have no more characters than the text.
pub proof fn lemma_lines_total(s: Seq<char>)
    ensures
        total_len(text_lines(s)) <= s.len(),
{
    let ps = split_on(s, '\n');
    lemma_split_total(s, '\n');
    lemma_split_nonempty(s, '\n');
    lemma_strip_total(ps.drop_last());
    let body = ps.drop_last().map_values(|l: Seq<char>| strip_cr(l));
    assert(body.push(ps.last()).drop_last() =~= body);
}

/// One more digit multiplies the value by ten and adds the digit.
pub proof fn lemma_digits_grow(s: Seq<char>, c: char)
    requires
        '0' <= c <= '9',
    ensures
        digits_value(s.push(c)) >= digits_value(s),
        digits_value(s.push(c)) == digits_value(s) * 10 + (c as nat - 48),
{
    assert(s.push(c).drop_last() =~= s);
}

/// `s.parse::<u64>().ok()`.
pub fn parse_u64(s: &str) -> (r: Option<u64>)
    ensures
        match r {
            Some(v) => parsed_in_range(s@, false, 0, 18446744073709551615) == Some(v as int),
            None => parsed_in_range(s@, false, 0, 18446744073709551615) is None,
        },
{
    let cs = chars_of(s);
    if cs.len() == 0 {
        return None;
    }
    let plus = cs[0] == '+';
    let start: usize = if plus { 1 } else { 0 };
    if start == cs.len() {
        return None;
    }
    let mut acc: u64 = 0;
    let mut i: usize = start;
    while i < cs.len()
        invariant
            start <= i <= cs.len(),
            start < cs.len(),
            cs@ == s@,
            plus == (cs@[0] == '+'),
            start == (if plus { 1usize } else { 0usize }),
            forall|k: int| start <= k < i ==> '0' <= #[trigger] cs@[k] && cs@[k] <= '9',
            acc == digits_value(cs@.subrange(start as int, i as int)),
        decreases cs.len() - i,
    {
        let c = cs[i];
        if !('0' <= c && c <= '9') {
            assert(cs@.skip(start as int)[i - start] == c);
            proof {
                if !plus {
                    assert(cs@.skip(0) =~= cs@);
                } else {
                    assert(cs@[0] == '+');
                    assert(!all_digits(cs@));
                }
            }
            return None;
        }
        let d = (c as u32 - 48) as u64;
        assert(cs@.subrange(start as int, i + 1) =~= cs@.subrange(start as int, i as int).push(c));
        proof {
            lemma_digits_grow(cs@.subrange(start as int, i as int), c);
        }
        match acc.checked_mul(10) {
            Some(m) => match m.checked_add(d) {
                Some(n) => { acc = n; },
                None => {
                    proof {
                        lemma_digits_suffix_large(cs@, start as int, i + 1);
                        if !plus {
                            assert(cs@.skip(0) =~= cs@);
                        } else {
                            assert(cs@[0] == '+');
                            assert(!all_digits(cs@));
                        }
                    }
                    return None;
                },
            },
            None => {
                proof {
                    lemma_digits_suffix_large(cs@, start as int, i + 1);
                    if !plus {
                        assert(cs@.skip(0) =~= cs@);
                    } else {
                        assert(cs@[0] == '+');
                        assert(!all_digits(cs@));
                    }
                }
                return None;
            },
        }
        i = i + 1;
    }
    assert(cs@.subrange(start as int, cs.len() as int) =~= cs@.skip(start as int));
    proof {
        if !plus {
            assert(cs@.skip(0) =~= cs@);
        }
    }
    Some(acc)
}

/// Once the digits of a prefix exceed a bound, a longer run of digits does
/// too (or stops being digits).
proof fn lemma_digits_suffix_large(cs: Seq<char>, start: int, j: int)
    requires
        0 <= start < j <= cs.len(),
        digits_value(cs.subrange(start, j)) > 18446744073709551615,
    ensures
        all_digits(cs.skip(start)) ==> digits_value(cs.skip(start)) > 18446744073709551615,
    decreases cs.len() - j,
{
    if j < cs.len() {
        if '0' <= cs[j] && cs[j] <= '9' {
            assert(cs.subrange(start, j + 1) =~= cs.subrange(start, j).push(cs[j]));
            lemma_digits_grow(cs.subrange(start, j), cs[j]);
            lemma_digits_suffix_large(cs, start, j + 1);
        } else {
            assert(cs.skip(start)[j - start] == cs[j]);
        }
    } else {
        assert(cs.subrange(start, j) =~= cs.skip(start));
    }
}

/// `pat` occurs in `s` at `i`.
pub open spec fn occurs_at(s: Seq<char>, pat: Seq<char>, i: int) -> bool {
    0 <= i && i + pat.len() <= s.len() && s.subrange(i, i + pat.len()) == pat
}

/// The first place where `pat` occurs in `s`.
pub open spec fn first_occurrence(s: Seq<char>, pat: Seq<char>) -> Option<int> {
    if exists|i: int| occurs_at(s, pat, i) && forall|k: int| 0 <= k < i ==> !occurs_at(s, pat, k) {
        Some(choose|i: int| occurs_at(s, pat, i) && forall|k: int| 0 <= k < i ==> !occurs_at(s, pat, k))
    } else {
        None
    }
}

/// The first place at or after `from` where `pat` occurs in `s`.
fn find_from(s: &Vec<char>, pat: &Vec<char>, from: usize) -> (r: Option<usize>)
    requires
        from <= s.len(),
    ensures
        match r {
            Some(i) => from <= i && occurs_at(s@, pat@, i as int)
                && forall|k: int| from <= k < i ==> !occurs_at(s@, pat@, k),
            None => forall|k: int| from <= k ==> !occurs_at(s@, pat@, k),
        },
{
    if pat.len() > s.len() {
        return None;
    }
    let last = s.len() - pat.len();
    let mut i: usize = from;
    while i <= last
        invariant
            from <= i,
            pat.len() <= s.len(),
            last == s.len() - pat.len(),
            forall|k: int| from <= k < i ==> !occurs_at(s@, pat@, k),
        decreases last + 1 - i,
    {
        let mut j: usize = 0;
        let mut same = true;
        while j < pat.len()
            invariant
                j <= pat.len(),
                i + pat.len() <= s.len(),
                same == (forall|k: int| 0 <= k < j ==> s@[i + k] == pat@[k]),
            decreases pat.len() - j,
        {
            if s[i + j] != pat[j] {
                same = false;
            }
            j = j + 1;
        }
        if same {
            assert(s@.subrange(i as int, i + pat@.len()) =~= pat@);
            return Some(i);
        }
        proof {
            if occurs_at(s@, pat@, i as int) {
                assert forall|k: int| 0 <= k < pat.len() implies s@[i + k] == pat@[k] by {
                    assert(s@.subrange(i as int, i + pat@.len())[k] == s@[i + k]);
                }
            }
        }
        i = i + 1;
    }
    None
}

proof fn lemma_first_occurrence_is(s: Seq<char>, pat: Seq<char>, i: int)
    requires
        occurs_at(s, pat, i),
        forall|k: int| 0 <= k < i ==> !occurs_at(s, pat, k),
    ensures
        first_occurrence(s, pat) == Some(i),
{
    let j = choose|j: int| occurs_at(s, pat, j) && forall|k: int| 0 <= k < j ==> !occurs_at(s, pat, k);
    if j < i {
        assert(!occurs_at(s, pat, j));
    } else if i < j {
        assert(!occurs_at(s, pat, i));
    }
}

/// The piece of `s` after the first `pat` and before the next one
/// (`s.split(pat).nth(1)` for a non-empty `pat`).
pub open spec fn second_piece(s: Seq<char>, pat: Seq<char>) -> Option<Seq<char>> {
    match first_occurrence(s, pat) {
        Some(i) => {
            let after = s.skip(i + pat.len());
            match first_occurrence(after, pat) {
                Some(j) => Some(after.take(j)),
                None => Some(after),
            }
        },
        None => None,
    }
}

/// The characters `cs[from..to]` as a string.
pub fn substring(cs: &Vec<char>, from: usize, to: usize) -> (r: String)
    requires
        from <= to <= cs.len(),
    ensures
        r@ == cs@.subrange(from as int, to as int),
{
    let mut out: Vec<char> = Vec::new();
    let mut k: usize = from;
    while k < to
        invariant
            from <= k <= to <= cs.len(),
            out@ == cs@.subrange(from as int, k as int),
        decreases to - k,
    {
        out.push(cs[k]);
        assert(cs@.subrange(from as int, k + 1) =~= cs@.subrange(from as int, k as int).push(cs@[k as int]));
        k = k + 1;
    }
    string_of(&out)
}

proof fn lemma_shifted_occurrence(s: Seq<char>, pat: Seq<char>, start: int, k: int)
    requires
        0 <= start <= s.len(),
        0 <= k,
        occurs_at(s.skip(start), pat, k),
    ensures
        occurs_at(s, pat, k + start),
{
    assert(s.skip(start).subrange(k, k + pat.len()) =~= s.subrange(k + start, k + start + pat.len()));
}

proof fn lemma_no_occurrence(s: Seq<char>, pat: Seq<char>)
    requires
        forall|k: int| 0 <= k ==> !occurs_at(s, pat, k),
    ensures
        first_occurrence(s, pat) is None,
{
    if first_occurrence(s, pat) is Some {
        let i = choose|i: int| occurs_at(s, pat, i) && forall|k: int| 0 <= k < i ==> !occurs_at(s, pat, k);
        assert(!occurs_at(s, pat, i));
    }
}

pub fn second_piece_of(s: &str, pat: &str) -> (r: Option<String>)
    requires
        pat@.len() > 0,
    ensures
        opt_piece(r) == second_piece(s@, pat@),
{
    let cs = chars_of(s);
    let ps = chars_of(pat);
    match find_from(&cs, &ps, 0) {
        None => {
            proof {
                lemma_no_occurrence(s@, pat@);
            }
            None
        },
        Some(i) => {
            proof {
                lemma_first_occurrence_is(s@, pat@, i as int);
            }
            let plen = ps.len();
            assert(occurs_at(cs@, ps@, i as int));
            assert(i + plen <= cs.len());
            let start: usize = i + plen;
            let ghost after = s@.skip(start as int);
            match find_from(&cs, &ps, start) {
                Some(j) => {
                    proof {
                        assert(after.subrange(j - start, j - start + pat@.len()) =~= s@.subrange(j as int, j + pat@.len()));
                        assert forall|k: int| 0 <= k < j - start implies !occurs_at(after, pat@, k) by {
                            if occurs_at(after, pat@, k) {
                                lemma_shifted_occurrence(s@, pat@, start as int, k);
                            }
                        }
                        lemma_first_occurrence_is(after, pat@, j - start);
                    }
                    let r = substring(&cs, start, j);
                    assert(r@ =~= after.take(j - start));
                    Some(r)
                },
                None => {
                    proof {
                        assert forall|k: int| 0 <= k implies !occurs_at(after, pat@, k) by {
                            if occurs_at(after, pat@, k) {
                                lemma_shifted_occurrence(s@, pat@, start as int, k);
                            }
                        }
                        lemma_no_occurrence(after, pat@);
                    }
                    let r = substring(&cs, start, cs.len());
                    assert(r@ =~= after);
                    Some(r)
                },
            }
        },
    }
}

pub open spec fn opt_piece(o: Option<String>) -> Option<Seq<char>> {
    match o {
        Some(s) => Some(s@),
        None => None,
    }
}

/// `s` with every occurrence of `pat` removed, left to right
/// (`s.replace(pat, "")` for a non-empty `pat`).
pub open spec fn remove_all(s: Seq<char>, pat: Seq<char>) -> Seq<char>
    decreases s.len(),
{
    if s.len() == 0 || pat.len() == 0 {
        s
    } else if is_prefix(pat, s) {
        remove_all(s.skip(pat.len() as int), pat)
    } else {
        seq![s[0]] + remove_all(s.skip(1), pat)
    }
}

pub fn remove_all_of(s: &str, pat: &str) -> (r: String)
    requires
        pat@.len() > 0,
    ensures
        r@ == remove_all(s@, pat@),
{
    let cs = chars_of(s);
    let ps = chars_of(pat);
    let mut out: Vec<char> = Vec::new();
    let mut i: usize = 0;
    assert(s@.skip(0) =~= s@);
    while i < cs.len()
        invariant
            i <= cs.len(),
            cs@ == s@,
            ps@ == pat@,
            pat@.len() > 0,
            out@ + remove_all(s@.skip(i as int), pat@) == remove_all(s@, pat@),
        decreases cs.len() - i,
    {
        let ghost rest = s@.skip(i as int);
        let found = find_from(&cs, &ps, i);
        let hit = match found {
            Some(j) => j == i,
            None => false,
        };
        proof {
            if hit {
                assert(s@.subrange(i as int, i + pat@.len()) =~= rest.take(pat@.len() as int));
            } else {
                if is_prefix(pat@, rest) {
                    assert(s@.subrange(i as int, i + pat@.len()) =~= rest.take(pat@.len() as int));
                    assert(occurs_at(cs@, ps@, i as int));
                    assert(false);
                }
            }
        }
        if hit {
            assert(is_prefix(pat@, rest));
            assert(remove_all(rest, pat@) == remove_all(rest.skip(pat@.len() as int), pat@));
            assert(rest.skip(pat@.len() as int) =~= s@.skip(i + ps.len()));
            i = i + ps.len();
        } else {
            let ghost out0 = out@;
            assert(!is_prefix(pat@, rest));
            assert(remove_all(rest, pat@) == seq![rest[0]] + remove_all(rest.skip(1), pat@));
            out.push(cs[i]);
            assert(rest.skip(1) =~= s@.skip(i + 1));
            assert(rest[0] == cs@[i as int]);
            assert(out@ + remove_all(rest.skip(1), pat@) =~= out0 + (seq![rest[0]] + remove_all(rest.skip(1), pat@)));
            i = i + 1;
        }
    }
    assert(s@.skip(i as int) =~= Seq::<char>::empty());
    assert(out@ + Seq::<char>::empty() =~= out@);
    string_of(&out)
}

/// `s` without leading and trailing `c`s (`str::trim_matches` with a
/// character).
pub open spec fn strip_both(s: Seq<char>, c: char) -> Seq<char> {
    strip_trailing(strip_leading(s, c), c)
}

pub open spec fn strip_leading(s: Seq<char>, c: char) -> Seq<char>
    decreases s.len(),
{
    if s.len() > 0 && s[0] == c { strip_leading(s.skip(1), c) } else { s }
}

pub fn strip_both_char(s: &str, c: char) -> (r: String)
    ensures
        r@ == strip_both(s@, c),
{
    let cs = chars_of(s);
    let mut i: usize = 0;
    assert(s@.skip(0) =~= s@);
    while i < cs.len() && cs[i] == c
        invariant
            i <= cs.len(),
            cs@ == s@,
            strip_leading(s@, c) == strip_leading(s@.skip(i as int), c),
        decreases cs.len() - i,
    {
        assert(s@.skip(i as int)[0] == cs@[i as int]);
        assert(s@.skip(i as int).skip(1) =~= s@.skip(i + 1));
        i = i + 1;
    }
    proof {
        if i < cs.len() {
            assert(s@.skip(i as int)[0] == cs@[i as int]);
        }
    }
    let mut out: Vec<char> = Vec::new();
    let mut k: usize = i;
    while k < cs.len()
        invariant
            i <= k <= cs.len(),
            out@ == cs@.subrange(i as int, k as int),
        decreases cs.len() - k,
    {
        out.push(cs[k]);
        assert(cs@.subrange(i as int, k + 1) =~= cs@.subrange(i as int, k as int).push(cs@[k as int]));
        k = k + 1;
    }
    assert(out@ =~= s@.skip(i as int));
    let mid = string_of(&out);
    strip_trailing_char(mid.as_str(), c)
}

// ----------------------------------------------------------------------------
// Lines of joined texts
// ----------------------------------------------------------------------------

/// Splitting a text that ends with the separator and then more: the pieces
/// of the first part (without its empty last piece), then those of the
/// rest.
pub proof fn lemma_split_concat(a: Seq<char>, b: Seq<char>, sep: char)
    requires
        a.len() > 0,
        a.last() == sep,
    ensures
        split_on(a + b, sep) == split_on(a, sep).drop_last() + split_on(b, sep),
    decreases b.len(),
{
    lemma_split_nonempty(a, sep);
    lemma_split_nonempty(a.drop_last(), sep);
    if b.len() == 0 {
        assert(a + b =~= a);
        let r = split_on(a.drop_last(), sep);
        assert(split_on(a, sep) == r.push(Seq::<char>::empty()));
        assert(split_on(a, sep).drop_last() =~= r);
        assert(split_on(b, sep) == seq![Seq::<char>::empty()]);
        assert(split_on(a, sep) =~= split_on(a, sep).drop_last() + split_on(b, sep));
    } else {
        lemma_split_concat(a, b.drop_last(), sep);
        lemma_split_nonempty(b.drop_last(), sep);
        let ab = a + b;
        assert(ab.drop_last() =~= a + b.drop_last());
        assert(ab.last() == b.last());
        let x = split_on(a, sep).drop_last();
        let y = split_on(b.drop_last(), sep);
        let xy = split_on(a + b.drop_last(), sep);
        assert(xy == x + y);
        if b.last() == sep {
            assert(split_on(ab, sep) == xy.push(Seq::<char>::empty()));
            assert(split_on(b, sep) == y.push(Seq::<char>::empty()));
            assert((x + y).push(Seq::<char>::empty()) =~= x + y.push(Seq::<char>::empty()));
        } else {
            assert(split_on(ab, sep) == xy.update(xy.len() - 1, xy.last().push(b.last())));
            assert(split_on(b, sep) == y.update(y.len() - 1, y.last().push(b.last())));
            assert((x + y).update((x + y).len() - 1, (x + y).last().push(b.last()))
                =~= x + y.update(y.len() - 1, y.last().push(b.last())));
        }
    }
}

/// The lines of a text that ends with a newline, followed by more text,
/// are its lines followed by those of the rest.
pub proof fn lemma_lines_concat(a: Seq<char>, b: Seq<char>)
    requires
        a.len() == 0 || a.last() == '\n',
    ensures
        text_lines(a + b) == text_lines(a) + text_lines(b),
{
    if a.len() == 0 {
        assert(a + b =~= b);
        assert(split_on(a, '\n') == seq![Seq::<char>::empty()]);
        assert(text_lines(a) =~= Seq::<Seq<char>>::empty());
        assert(text_lines(a) + text_lines(b) =~= text_lines(b));
    } else {
        lemma_split_concat(a, b, '\n');
        lemma_split_nonempty(a, '\n');
        lemma_split_nonempty(b, '\n');
        lemma_split_nonempty(a.drop_last(), '\n');
        let pa = split_on(a, '\n');
        let pb = split_on(b, '\n');
        let p = split_on(a + b, '\n');
        assert(pa == split_on(a.drop_last(), '\n').push(Seq::<char>::empty()));
        assert(pa.last().len() == 0);
        assert(p == pa.drop_last() + pb);
        assert(p.last() == pb.last());
        assert(p.drop_last() =~= pa.drop_last() + pb.drop_last());
        let f = |l: Seq<char>| strip_cr(l);
        assert(p.drop_last().map_values(f) =~= pa.drop_last().map_values(f) + pb.drop_last().map_values(f));
        assert(text_lines(a) == pa.drop_last().map_values(f));
        if pb.last().len() == 0 {
            assert(text_lines(a + b) =~= text_lines(a) + text_lines(b));
        } else {
            assert(text_lines(a + b) =~= text_lines(a) + text_lines(b));
        }
    }
}

/// The pieces of a split hold no separator.
pub proof fn lemma_split_pieces(s: Seq<char>, sep: char)
    ensures
        forall|i: int| 0 <= i < split_on(s, sep).len() ==> !(#[trigger] split_on(s, sep)[i]).contains(sep),
    decreases s.len(),
{
    lemma_split_nonempty(s, sep);
    if s.len() > 0 {
        lemma_split_pieces(s.drop_last(), sep);
        lemma_split_nonempty(s.drop_last(), sep);
        let r = split_on(s.drop_last(), sep);
        let u = split_on(s, sep);
        if s.last() == sep {
            assert forall|i: int| 0 <= i < u.len() implies !(#[trigger] u[i]).contains(sep) by {
                if i < r.len() {
                    assert(u[i] == r[i]);
                }
            }
        } else {
            assert forall|i: int| 0 <= i < u.len() implies !(#[trigger] u[i]).contains(sep) by {
                if i < r.len() - 1 {
                    assert(u[i] == r[i]);
                } else {
                    let l = r.last().push(s.last());
                    assert(u[i] == l);
                    if l.contains(sep) {
                        let k = choose|k: int| 0 <= k < l.len() && l[k] == sep;
                        assert(r.last()[k] == sep);
                    }
                }
            }
        }
    }
}

/// No line of a text holds a newline.
pub proof fn lemma_lines_no_newline(s: Seq<char>)
    ensures
        forall|i: int| 0 <= i < text_lines(s).len() ==> !(#[trigger] text_lines(s)[i]).contains('\n'),
{
    lemma_split_pieces(s, '\n');
    lemma_split_nonempty(s, '\n');
    let ps = split_on(s, '\n');
    let t = text_lines(s);
    assert forall|i: int| 0 <= i < t.len() implies !(#[trigger] t[i]).contains('\n') by {
        let l = ps[i];
        assert(!l.contains('\n'));
        if i < ps.len() - 1 {
            assert(t[i] == strip_cr(l));
            if strip_cr(l).contains('\n') {
                let k = choose|k: int| 0 <= k < strip_cr(l).len() && strip_cr(l)[k] == '\n';
                assert(l[k] == '\n');
            }
        } else {
            assert(t[i] == l);
        }
    }
}

/// The lines of one line and a newline: that line, without a final `\r`.
pub proof fn lemma_lines_single(l: Seq<char>)
    requires
        !l.contains('\n'),
    ensures
        text_lines(l + seq!['\n']) == seq![strip_cr(l)],
{
    lemma_split_no_sep(l, '\n');
    let t = l + seq!['\n'];
    assert(t.drop_last() =~= l);
    assert(t.last() == '\n');
    assert(split_on(t, '\n') == seq![l, Seq::<char>::empty()]);
    assert(split_on(t, '\n').drop_last() =~= seq![l]);
}

/// A text without the separator is one piece.
pub proof fn lemma_split_no_sep(l: Seq<char>, sep: char)
    requires
        !l.contains(sep),
    ensures
        split_on(l, sep) == seq![l],
    decreases l.len(),
{
    if l.len() > 0 {
        assert(!l.drop_last().contains(sep)) by {
            if l.drop_last().contains(sep) {
                let k = choose|k: int| 0 <= k < l.drop_last().len() && l.drop_last()[k] == sep;
                assert(l[k] == sep);
            }
        }
        lemma_split_no_sep(l.drop_last(), sep);
        assert(l.last() != sep);
        assert(l.drop_last().push(l.last()) =~= l);
        assert(seq![l.drop_last()].update(0, l.drop_last().push(l.last())) =~= seq![l]);
    } else {
        assert(l =~= Seq::<char>::empty());
    }
}

proof fn lemma_trim_start_push(s: Seq<char>, c: char)
    ensures
        trim_start(s.push(c)) == if trim_start(s).len() == 0 { trim_start(seq![c]) } else { trim_start(s).push(c) },
    decreases s.len(),
{
    if s.len() > 0 {
        assert(s.push(c)[0] == s[0]);
        if is_white_space(s[0]) {
            assert(s.push(c).skip(1) =~= s.skip(1).push(c));
            lemma_trim_start_push(s.skip(1), c);
        }
    } else {
        assert(s.push(c) =~= seq![c]);
    }
}

/// Dropping a final `\r` changes nothing once a line is trimmed.
pub proof fn lemma_trimmed_strip_cr(l: Seq<char>)
    ensures
        trimmed(strip_cr(l)) == trimmed(l),
{
    if l.len() > 0 && l.last() == '\r' {
        let s = l.drop_last();
        assert(s.push('\r') =~= l);
        lemma_trim_start_push(s, '\r');
        assert(is_white_space('\r'));
        let one = seq!['\r'];
        assert(one.skip(1) =~= Seq::<char>::empty());
        assert(trim_start(one) == trim_start(Seq::<char>::empty()));
        if trim_start(s).len() > 0 {
            assert(trim_start(s).push('\r').drop_last() =~= trim_start(s));
        }
    }
}

/// No character of the text is whitespace.
pub open spec fn solid(s: Seq<char>) -> bool {
    forall|i: int| 0 <= i < s.len() ==> !is_white_space(#[trigger] s[i])
}

/// A non-empty text without whitespace is one word.
pub proof fn lemma_words_solid(a: Seq<char>)
    requires
        a.len() > 0,
        solid(a),
    ensures
        words(a) == seq![a],
    decreases a.len(),
{
    assert(!is_white_space(a[a.len() - 1]));
    assert(a.last() == a[a.len() - 1]);
    if a.len() == 1 {
        assert(a.drop_last() =~= Seq::<char>::empty());
        assert(words(a.drop_last()) =~= Seq::<Seq<char>>::empty());
        assert(seq![a.last()] =~= a);
    } else {
        let p = a.drop_last();
        assert(solid(p)) by {
            assert forall|i: int| 0 <= i < p.len() implies !is_white_space(#[trigger] p[i]) by {
                assert(p[i] == a[i]);
            }
        }
        lemma_words_solid(p);
        assert(!is_white_space(a[a.len() - 2]));
        assert(p.push(a.last()) =~= a);
        assert(seq![p].update(0, p.push(a.last())) =~= seq![a]);
    }
}

/// After whitespace, a word without whitespace is one more word.
pub proof fn lemma_words_after(x: Seq<char>, b: Seq<char>)
    requires
        x.len() > 0,
        is_white_space(x.last()),
        b.len() > 0,
        solid(b),
    ensures
        words(x + b) == words(x).push(b),
    decreases b.len(),
{
    let s = x + b;
    if b.len() == 1 {
        assert(s.drop_last() =~= x);
        assert(s.last() == b[0]);
        assert(s[s.len() - 2] == x.last());
        assert(seq![b[0]] =~= b);
    } else {
        let bp = b.drop_last();
        assert(solid(bp)) by {
            assert forall|i: int| 0 <= i < bp.len() implies !is_white_space(#[trigger] bp[i]) by {
                assert(bp[i] == b[i]);
            }
        }
        lemma_words_after(x, bp);
        assert(s.drop_last() =~= x + bp);
        assert(s.last() == b.last());
        assert(s[s.len() - 2] == b[b.len() - 2]);
        let w = words(x);
        assert(bp.push(b.last()) =~= b);
        assert(!is_white_space(b[b.len() - 1]));
        assert(b.last() == b[b.len() - 1]);
        assert(!is_white_space(b[b.len() - 2]));
        assert(w.push(bp).update(w.len() as int, bp.push(b.last())) =~= w.push(b));
    }
}

/// Leading whitespace goes when a text is trimmed at the start.
pub proof fn lemma_trim_start_blank(p: Seq<char>, r: Seq<char>)
    requires
        forall|i: int| 0 <= i < p.len() ==> is_white_space(#[trigger] p[i]),
    ensures
        trim_start(p + r) == trim_start(r),
    decreases p.len(),
{
    if p.len() > 0 {
        assert((p + r)[0] == p[0]);
        assert((p + r).skip(1) =~= p.skip(1) + r);
        assert forall|i: int| 0 <= i < p.skip(1).len() implies is_white_space(#[trigger] p.skip(1)[i]) by {
            assert(p.skip(1)[i] == p[i + 1]);
        }
        lemma_trim_start_blank(p.skip(1), r);
    } else {
        assert(p + r =~= r);
    }
}

} // verus!
