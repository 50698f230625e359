//! MAC address text: display form, recognition, pseudo-MACs for nodes that
//! have none, and human-friendly client labels.

use vstd::prelude::*;
use crate::text::{append_str, ascii_upper, chars_of, hex_digit, hex_only, is_hex_digit, keep_hex, push_char,
    string_of, upper_all, upper_seq};

verus! {

/// Twelve hex digits shown as six colon-separated pairs.
pub open spec fn colon_pairs(c: Seq<char>) -> Seq<char> {
    seq![c[0], c[1], ':', c[2], c[3], ':', c[4], c[5], ':', c[6], c[7], ':', c[8], c[9], ':', c[10], c[11]]
}

/// Display form of a MAC: when it holds exactly twelve hex digits, those
/// digits in colon-separated pairs; otherwise the text unchanged.
pub open spec fn spec_format_mac(mac: Seq<char>) -> Seq<char> {
    let h = hex_only(mac);
    if h.len() == 12 { colon_pairs(h) } else { mac }
}

/// Separator characters allowed inside a MAC.
pub open spec fn is_mac_char(c: char) -> bool {
    is_hex_digit(c) || c == ':' || c == '-' || c == '.'
}

/// Text that reads as a MAC: twelve hex digits and only hex digits or separators.
pub open spec fn spec_looks_like_mac(s: Seq<char>) -> bool {
    hex_only(s).len() == 12 && forall|i: int| 0 <= i < s.len() ==> is_mac_char(#[trigger] s[i])
}

fn push_colon_pairs(r: &mut String, h: &[char])
    requires
        h@.len() == 12,
    ensures
        final(r)@ == old(r)@ + colon_pairs(h@),
{
    let ghost start = r@;
    push_char(r, h[0]);
    push_char(r, h[1]);
    push_char(r, ':');
    push_char(r, h[2]);
    push_char(r, h[3]);
    push_char(r, ':');
    push_char(r, h[4]);
    push_char(r, h[5]);
    push_char(r, ':');
    push_char(r, h[6]);
    push_char(r, h[7]);
    push_char(r, ':');
    push_char(r, h[8]);
    push_char(r, h[9]);
    push_char(r, ':');
    push_char(r, h[10]);
    push_char(r, h[11]);
    assert(r@ =~= start + colon_pairs(h@));
}

/// Format a MAC with colons ("AABBCCDDEEFF" becomes "AA:BB:CC:DD:EE:FF");
/// text without exactly twelve hex digits is returned unchanged.
pub fn format_mac(mac: &str) -> (r: String)
    ensures
        r@ == spec_format_mac(mac@),
{
    let cs = chars_of(mac);
    let h = keep_hex(&cs);
    if h.len() == 12 {
        let mut r = String::new();
        push_colon_pairs(&mut r, &h);
        assert(r@ =~= colon_pairs(h@));
        r
    } else {
        string_of(&cs)
    }
}

/// Whether a label looks like a raw MAC address.
pub fn looks_like_mac(s: &str) -> (r: bool)
    ensures
        r == spec_looks_like_mac(s@),
{
    let cs = chars_of(s);
    let h = keep_hex(&cs);
    if h.len() != 12 {
        return false;
    }
    let mut i: usize = 0;
    while i < cs.len()
        invariant
            i <= cs.len(),
            cs@ == s@,
            hex_only(s@).len() == 12,
            forall|k: int| 0 <= k < i ==> is_mac_char(#[trigger] cs@[k]),
        decreases cs.len() - i,
    {
        let c = cs[i];
        if !(hex_digit(c) || c == ':' || c == '-' || c == '.') {
            assert(!is_mac_char(s@[i as int]));
            return false;
        }
        i = i + 1;
    }
    true
}

proof fn lemma_hex_only_step(s: Seq<char>, c: char)
    ensures
        hex_only(s.push(c)) == if is_hex_digit(c) { hex_only(s).push(c) } else { hex_only(s) },
{
    assert(s.push(c).drop_last() =~= s);
}

proof fn lemma_hex_only_pairs_prefix(h: Seq<char>, k: int)
    requires
        h.len() == 12,
        forall|i: int| 0 <= i < h.len() ==> is_hex_digit(#[trigger] h[i]),
        0 <= k <= 17,
    ensures
        hex_only(colon_pairs(h).take(k)) == h.take(k - k / 3),
    decreases k,
{
    let p = colon_pairs(h);
    if k == 0 {
        assert(hex_only(p.take(0)) =~= Seq::<char>::empty());
        assert(h.take(0) =~= Seq::<char>::empty());
    } else {
        let m = k - 1;
        lemma_hex_only_pairs_prefix(h, m);
        lemma_hex_only_step(p.take(m), p[m]);
        assert(p.take(k) =~= p.take(m).push(p[m]));
        let j = m - m / 3;
        if m % 3 == 2 {
            assert(p[m] == ':');
            assert(k - k / 3 == j);
        } else {
            assert(p[m] == h[j]);
            assert(k - k / 3 == j + 1);
            assert(h.take(j + 1) =~= h.take(j).push(h[j]));
        }
    }
}

proof fn lemma_hex_only_of_pairs(h: Seq<char>)
    requires
        h.len() == 12,
        forall|i: int| 0 <= i < h.len() ==> is_hex_digit(#[trigger] h[i]),
    ensures
        hex_only(colon_pairs(h)) == h,
{
    lemma_hex_only_pairs_prefix(h, 17);
    assert(colon_pairs(h).take(17) =~= colon_pairs(h));
    assert(h.take(12) =~= h);
}

/// A formatted MAC reads as a MAC, and formatting it again changes
/// nothing: for any text with exactly twelve hex digits.
pub proof fn lemma_formatted_mac(mac: Seq<char>)
    requires
        hex_only(mac).len() == 12,
    ensures
        spec_looks_like_mac(spec_format_mac(mac)),
        spec_format_mac(spec_format_mac(mac)) == spec_format_mac(mac),
{
    let h = hex_only(mac);
    lemma_hex_only_hex(mac);
    lemma_hex_only_of_pairs(h);
    let p = colon_pairs(h);
    assert forall|i: int| 0 <= i < p.len() implies is_mac_char(#[trigger] p[i]) by {
        if i % 3 != 2 {
            assert(p[i] == h[i - i / 3]);
        }
    }
}

proof fn lemma_hex_only_hex(s: Seq<char>)
    ensures
        forall|i: int| 0 <= i < hex_only(s).len() ==> is_hex_digit(#[trigger] hex_only(s)[i]),
    decreases s.len(),
{
    if s.len() > 0 {
        lemma_hex_only_hex(s.drop_last());
        let q = hex_only(s.drop_last());
        if is_hex_digit(s.last()) {
            assert(hex_only(s) == q.push(s.last()));
            assert forall|i: int| 0 <= i < hex_only(s).len() implies is_hex_digit(#[trigger] hex_only(s)[i]) by {
                if i < q.len() {
                    assert(hex_only(s)[i] == q[i]);
                }
            }
        }
    }
}

/// At most the first ten characters.
pub open spec fn first_ten(s: Seq<char>) -> Seq<char> {
    if s.len() <= 10 { s } else { s.take(10) }
}

/// A pseudo-MAC: `F`, the kind character, then the first ten hex digits of
/// `source` upper-cased and right-padded with `0` to ten characters.
pub open spec fn spec_pseudo_mac(kind: char, source: Seq<char>) -> Seq<char> {
    let digits = upper_seq(first_ten(hex_only(source)));
    seq!['F', kind] + digits + Seq::new((10 - digits.len()) as nat, |i: int| '0')
}

fn pseudo_mac(kind: char, source: &str) -> (r: String)
    requires
        kind == '0' || kind == '2',
    ensures
        r@ == spec_pseudo_mac(kind, source@),
{
    let cs = chars_of(source);
    let h = keep_hex(&cs);
    let mut ten: Vec<char> = Vec::new();
    let mut i: usize = 0;
    while i < h.len() && i < 10
        invariant
            i <= h.len(),
            i <= 10,
            ten@ == h@.take(i as int),
        decreases h.len() - i,
    {
        ten.push(h[i]);
        assert(h@.take(i + 1) == h@.take(i as int).push(h@[i as int]));
        i = i + 1;
    }
    assert(ten@ == first_ten(h@));
    let up = upper_all(&ten);
    let mut r = String::new();
    push_char(&mut r, 'F');
    push_char(&mut r, kind);
    let s_up = string_of(&up);
    append_str(&mut r, s_up.as_str());
    let mut pad: usize = up.len();
    while pad < 10
        invariant
            up@.len() <= pad <= 10,
            up@.len() <= 10,
            r@ == seq!['F', kind] + up@ + Seq::new((pad - up@.len()) as nat, |i: int| '0'),
        decreases 10 - pad,
    {
        push_char(&mut r, '0');
        assert(Seq::new((pad + 1 - up@.len()) as nat, |i: int| '0') =~= Seq::new((pad - up@.len()) as nat, |i: int| '0').push('0'));
        pad = pad + 1;
    }
    r
}

proof fn lemma_hex_only_all(h: Seq<char>)
    requires
        forall|i: int| 0 <= i < h.len() ==> is_hex_digit(#[trigger] h[i]),
    ensures
        hex_only(h) == h,
    decreases h.len(),
{
    if h.len() > 0 {
        lemma_hex_only_all(h.drop_last());
        assert(h.drop_last().push(h.last()) =~= h);
    }
}

/// A pseudo-MAC is twelve upper-case hex digits, `F` and the kind first:
/// it reads as a MAC, and pseudo-MACs of different kinds never meet.
pub proof fn lemma_pseudo_mac_shape(kind: char, source: Seq<char>, other_kind: char, other: Seq<char>)
    requires
        kind == '0' || kind == '2',
    ensures
        spec_pseudo_mac(kind, source).len() == 12,
        spec_pseudo_mac(kind, source)[0] == 'F' && spec_pseudo_mac(kind, source)[1] == kind,
        spec_looks_like_mac(spec_pseudo_mac(kind, source)),
        kind != other_kind ==> spec_pseudo_mac(kind, source) != spec_pseudo_mac(other_kind, other),
{
    let h = hex_only(source);
    let t = first_ten(h);
    let digits = upper_seq(t);
    let m = spec_pseudo_mac(kind, source);
    lemma_hex_only_hex(source);
    assert forall|i: int| 0 <= i < digits.len() implies is_hex_digit(#[trigger] digits[i]) by {
        let c = t[i];
        assert(c == h[i]);
        assert(is_hex_digit(c));
        if 'a' <= c && c <= 'f' {
            assert(((c as int) - 32) as char == ascii_upper(c));
            assert('A' <= ascii_upper(c) && ascii_upper(c) <= 'F');
        }
    }
    assert forall|i: int| 0 <= i < m.len() implies is_hex_digit(#[trigger] m[i]) by {
        if 2 <= i < 2 + digits.len() {
            assert(m[i] == digits[i - 2]);
        }
    }
    lemma_hex_only_all(m);
    assert forall|i: int| 0 <= i < m.len() implies is_mac_char(#[trigger] m[i]) by {
        assert(is_hex_digit(m[i]));
    }
    assert(spec_pseudo_mac(other_kind, other)[1] == other_kind);
}

/// Pseudo-MAC of a WireGuard peer: `F0` + first ten hex characters of the peer id.
pub fn wg_peer_pseudo_mac(peer_id: &str) -> (r: String)
    ensures
        r@ == spec_pseudo_mac('0', peer_id@),
{
    pseudo_mac('0', peer_id)
}

/// Pseudo-MAC of a logic device: `F2` + first ten hex characters of its UUID.
pub fn logic_device_pseudo_mac(uuid_str: &str) -> (r: String)
    ensures
        r@ == spec_pseudo_mac('2', uuid_str@),
{
    pseudo_mac('2', uuid_str)
}

} // verus!

verus! {

/// Every character is ASCII.
pub open spec fn ascii_text(s: Seq<char>) -> bool {
    forall|i: int| 0 <= i < s.len() ==> (#[trigger] s[i] as int) < 128
}

/// A name usable as a label: present, non-empty and not a raw MAC.
pub open spec fn usable_name(o: Option<String>) -> bool {
    o is Some && o->0@.len() > 0 && !spec_looks_like_mac(o->0@)
}

/// The last six characters of a MAC (the whole MAC when shorter).
pub open spec fn short_mac(mac: Seq<char>) -> Seq<char> {
    if mac.len() >= 6 { mac.subrange(mac.len() - 6, mac.len() as int) } else { mac }
}

/// Six characters as three colon-separated pairs; other lengths unchanged.
pub open spec fn formatted_short(s: Seq<char>) -> Seq<char> {
    if s.len() == 6 { seq![s[0], s[1], ':', s[2], s[3], ':', s[4], s[5]] } else { s }
}

/// Label of a client node: a usable name, else a usable hostname, else the
/// vendor with the short MAC, else the formatted MAC.
pub open spec fn spec_client_label(name: Option<String>, hostname: Option<String>, vendor: Option<String>, mac: Seq<char>) -> Seq<char> {
    if usable_name(name) {
        name->0@
    } else if usable_name(hostname) {
        hostname->0@
    } else if vendor is Some && vendor->0@.len() > 0 {
        vendor->0@ + " ("@ + formatted_short(short_mac(mac)) + ")"@
    } else {
        spec_format_mac(mac)
    }
}

fn is_usable_name(o: &Option<String>) -> (r: bool)
    ensures
        r == usable_name(*o),
{
    match o {
        Some(n) => !n.as_str().is_empty() && !looks_like_mac(n.as_str()),
        None => false,
    }
}

/// Build a human-friendly label for a client node.
/// Priority: name (not a MAC), hostname (not a MAC), vendor with the short
/// MAC, formatted MAC.
pub fn client_label(name: &Option<String>, hostname: &Option<String>, vendor: &Option<String>, mac: &str) -> (r: String)
    requires
        ascii_text(mac@),
    ensures
        r@ == spec_client_label(*name, *hostname, *vendor, mac@),
{
    if is_usable_name(name) {
        return name.clone().unwrap();
    }
    if is_usable_name(hostname) {
        return hostname.clone().unwrap();
    }
    match vendor {
        Some(v) => {
            if !v.as_str().is_empty() {
                let cs = chars_of(mac);
                let n = cs.len();
                let mut r = String::new();
                append_str(&mut r, v.as_str());
                append_str(&mut r, " (");
                if n >= 6 {
                    let ghost before = r@;
                    push_char(&mut r, cs[n - 6]);
                    push_char(&mut r, cs[n - 5]);
                    push_char(&mut r, ':');
                    push_char(&mut r, cs[n - 4]);
                    push_char(&mut r, cs[n - 3]);
                    push_char(&mut r, ':');
                    push_char(&mut r, cs[n - 2]);
                    push_char(&mut r, cs[n - 1]);
                    assert(r@ =~= before + formatted_short(short_mac(mac@)));
                } else {
                    append_str(&mut r, mac);
                }
                append_str(&mut r, ")");
                return r;
            }
        }
        None => {}
    }
    format_mac(mac)
}

} // verus!
