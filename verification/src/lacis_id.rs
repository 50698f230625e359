//! LacisID candidates.
//!
//! A LacisID is `[prefix][productType][MAC][productCode]`: prefix `4` for
//! network devices and `3` for araneaDevices, the MAC upper-cased and stripped
//! of separators.

use vstd::prelude::*;
use crate::text::{alnum_only, append_str, ascii_upper, chars_of, is_ascii_alnum, keep_upper_alnum, push_char, string_of, upper_alnum, upper_seq};

verus! {

/// The MAC as it appears inside a LacisID: ASCII letters and digits only, upper-cased.
pub open spec fn spec_normalize_mac(mac: Seq<char>) -> Seq<char> {
    upper_alnum(mac)
}

/// A LacisID with the given prefix character.
pub open spec fn spec_lacis_id(prefix: char, product_type: Seq<char>, mac: Seq<char>, product_code: Seq<char>) -> Seq<char> {
    seq![prefix] + product_type + spec_normalize_mac(mac) + product_code
}

/// Normalize a MAC address: keep ASCII letters and digits, upper-case them
/// (e.g. "AA:bb:CC" becomes "AABBCC").
pub fn normalize_mac_for_lacis_id(mac: &str) -> (r: String)
    ensures
        r@ == spec_normalize_mac(mac@),
{
    let cs = chars_of(mac);
    let kept = keep_upper_alnum(&cs);
    string_of(&kept)
}

fn lacis_id_with_prefix(prefix: char, product_type: &str, mac: &str, product_code: &str) -> (r: String)
    ensures
        r@ == spec_lacis_id(prefix, product_type@, mac@, product_code@),
{
    let mut r = String::new();
    push_char(&mut r, prefix);
    append_str(&mut r, product_type);
    let m = normalize_mac_for_lacis_id(mac);
    append_str(&mut r, m.as_str());
    append_str(&mut r, product_code);
    r
}

/// NetworkDevice LacisID: `4` + productType + normalized MAC + productCode.
pub fn compute_network_device_lacis_id(product_type: &str, mac: &str, product_code: &str) -> (r: String)
    ensures
        r@ == spec_lacis_id('4', product_type@, mac@, product_code@),
{
    lacis_id_with_prefix('4', product_type, mac, product_code)
}

/// araneaDevice LacisID: `3` + productType + normalized MAC + productCode.
pub fn compute_aranea_device_lacis_id(product_type: &str, mac: &str, product_code: &str) -> (r: String)
    ensures
        r@ == spec_lacis_id('3', product_type@, mac@, product_code@),
{
    lacis_id_with_prefix('3', product_type, mac, product_code)
}

/// Default product code of a network device type: `0000` for every type.
pub fn default_product_code(network_device_type: &str) -> (r: &'static str)
    ensures
        r@ == "0000"@,
{
    "0000"
}

proof fn lemma_alnum_only_keeps(t: Seq<char>)
    requires
        forall|i: int| 0 <= i < t.len() ==> is_ascii_alnum(#[trigger] t[i]),
    ensures
        alnum_only(t) == t,
    decreases t.len(),
{
    if t.len() > 0 {
        lemma_alnum_only_keeps(t.drop_last());
        assert(t.drop_last().push(t.last()) =~= t);
    }
}

proof fn lemma_alnum_only_alnum(s: Seq<char>)
    ensures
        forall|i: int| 0 <= i < alnum_only(s).len() ==> is_ascii_alnum(#[trigger] alnum_only(s)[i]),
    decreases s.len(),
{
    if s.len() > 0 {
        lemma_alnum_only_alnum(s.drop_last());
        let p = alnum_only(s.drop_last());
        if is_ascii_alnum(s.last()) {
            assert(alnum_only(s) == p.push(s.last()));
            assert forall|i: int| 0 <= i < alnum_only(s).len() implies is_ascii_alnum(#[trigger] alnum_only(s)[i]) by {
                if i < p.len() {
                    assert(alnum_only(s)[i] == p[i]);
                }
            }
        } else {
            assert(alnum_only(s) == p);
        }
    }
}

/// A normalized MAC holds only digits and upper-case ASCII letters, and
/// normalizing it again changes nothing.
pub proof fn lemma_normalized_mac(mac: Seq<char>)
    ensures
        forall|i: int| 0 <= i < spec_normalize_mac(mac).len() ==> {
            let c = #[trigger] spec_normalize_mac(mac)[i];
            ('0' <= c && c <= '9') || ('A' <= c && c <= 'Z')
        },
        spec_normalize_mac(spec_normalize_mac(mac)) == spec_normalize_mac(mac),
{
    let a = alnum_only(mac);
    let u = upper_seq(a);
    lemma_alnum_only_alnum(mac);
    assert forall|i: int| 0 <= i < u.len() implies {
        let c = #[trigger] u[i];
        ('0' <= c && c <= '9') || ('A' <= c && c <= 'Z')
    } by {
        let c = a[i];
        assert(is_ascii_alnum(c));
        if 'a' <= c && c <= 'z' {
            assert(((c as int) - 32) as char == ascii_upper(c));
            assert('A' <= ascii_upper(c) && ascii_upper(c) <= 'Z');
        }
    }
    assert forall|i: int| 0 <= i < u.len() implies is_ascii_alnum(#[trigger] u[i]) by {
        let c = u[i];
        assert(('0' <= c && c <= '9') || ('A' <= c && c <= 'Z'));
    }
    lemma_alnum_only_keeps(u);
    assert(upper_seq(u) =~= u) by {
        assert forall|i: int| 0 <= i < u.len() implies #[trigger] upper_seq(u)[i] == u[i] by {
            let c = u[i];
            assert(('0' <= c && c <= '9') || ('A' <= c && c <= 'Z'));
        }
    }
}

/// A LacisID is 20 characters long when its product type has 3, the
/// normalized MAC 12 and the product code 4.
pub proof fn lemma_lacis_id_length(prefix: char, product_type: Seq<char>, mac: Seq<char>, product_code: Seq<char>)
    requires
        product_type.len() == 3,
        spec_normalize_mac(mac).len() == 12,
        product_code.len() == 4,
    ensures
        spec_lacis_id(prefix, product_type, mac, product_code).len() == 20,
{
}

} // verus!
