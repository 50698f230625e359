//! Mercury AC access points: the password encoding of their login, their
//! API addresses, and how their answers are read.

use vstd::prelude::*;
use crate::lacis_id::{normalize_mac_for_lacis_id, spec_normalize_mac};
use crate::node_order::{clone_opt, opt_view};
use crate::seqs::{keep_where, lemma_keep_step};
use crate::text::{append_str, decimal_i64, decimal_int, owned, push_char};

verus! {

/// The status of a Mercury access point.
pub struct MercuryStatus {
    pub model: Option<String>,
    pub firmware: Option<String>,
    pub client_count: u32,
    pub online: bool,
}

/// A client seen by a Mercury access point.
pub struct MercuryClientInfo {
    pub mac: String,
    pub ip: Option<String>,
    pub hostname: Option<String>,
}

/// The key the login password is XORed with: `RDpbLfCPsJZ7fiv`.
pub open spec fn xor_key() -> Seq<u8> {
    seq![82u8, 68, 112, 98, 76, 102, 67, 80, 115, 74, 90, 55, 102, 105, 118]
}

/// A lower-case hexadecimal digit.
pub open spec fn hex_lower(n: nat) -> char {
    if n < 10 { (48 + n) as char } else { (87 + n) as char }
}

/// The encoded password: each byte XORed with the key byte at its position
/// (the key repeating), written as two lower-case hex digits.
pub open spec fn xor_hex(bs: Seq<u8>) -> Seq<char>
    decreases bs.len(),
{
    if bs.len() == 0 {
        Seq::empty()
    } else {
        let i = bs.len() - 1;
        let x = bs.last() ^ xor_key()[i % 15];
        xor_hex(bs.drop_last()) + seq![hex_lower((x / 16) as nat), hex_lower((x % 16) as nat)]
    }
}

fn hex_char(n: u8) -> (c: char)
    requires
        n < 16,
    ensures
        c == hex_lower(n as nat),
{
    if n < 10 { (48u8 + n) as char } else { (87u8 + n) as char }
}

/// The password as Mercury AC logins expect it (see `xor_hex`), over the
/// password's UTF-8 bytes.
pub fn xor_encode_password(password: &str) -> (r: String)
    ensures
        r@ == xor_hex(vstd::utf8::encode_utf8(password@)),
{
    let key: [u8; 15] = [82, 68, 112, 98, 76, 102, 67, 80, 115, 74, 90, 55, 102, 105, 118];
    assert(key@ =~= xor_key());
    let bytes = password.as_bytes();
    let mut r = String::new();
    let mut i: usize = 0;
    while i < bytes.len()
        invariant
            i <= bytes@.len(),
            bytes@ == vstd::utf8::encode_utf8(password@),
            key@ == xor_key(),
            r@ == xor_hex(bytes@.take(i as int)),
        decreases bytes.len() - i,
    {
        assert(bytes@.take(i + 1).drop_last() =~= bytes@.take(i as int));
        assert(bytes@.take(i + 1).last() == bytes@[i as int]);
        let x: u8 = bytes[i] ^ key[i % 15];
        push_char(&mut r, hex_char(x / 16));
        push_char(&mut r, hex_char(x % 16));
        i = i + 1;
    }
    assert(bytes@.take(bytes@.len() as int) =~= bytes@);
    r
}

/// The login address of a device: `http://{ip}/`.
pub fn login_url(ip: &str) -> (r: String)
    ensures
        r@ == "http://"@ + ip@ + "/"@,
{
    let mut r = owned("http://");
    append_str(&mut r, ip);
    append_str(&mut r, "/");
    r
}

/// The data address of a logged-in session: `http://{ip}/stok={stok}/ds`.
pub fn data_url(ip: &str, stok: &str) -> (r: String)
    ensures
        r@ == "http://"@ + ip@ + "/stok="@ + stok@ + "/ds"@,
{
    let mut r = owned("http://");
    append_str(&mut r, ip);
    append_str(&mut r, "/stok=");
    append_str(&mut r, stok);
    append_str(&mut r, "/ds");
    r
}

/// What a login answer means: its session token, else its error code, else
/// no token at all.
pub open spec fn spec_login_outcome(stok: Option<Seq<char>>, error_code: Option<i64>) -> Result<Seq<char>, Seq<char>> {
    match stok {
        Some(t) => Ok(t),
        None => match error_code {
            Some(c) => Err("Mercury login error code: "@ + decimal_int(c as int)),
            None => Err("Mercury login: no stok in response"@),
        },
    }
}

/// The session token of a login answer, or why there is none; `stok` is
/// its `stok` text and `error_code` its integer `error_code`, where present.
pub fn login_outcome(stok: &Option<String>, error_code: Option<i64>) -> (r: Result<String, String>)
    ensures
        match r {
            Ok(t) => spec_login_outcome(opt_view(*stok), error_code) == Ok::<Seq<char>, Seq<char>>(t@),
            Err(e) => spec_login_outcome(opt_view(*stok), error_code) == Err::<Seq<char>, Seq<char>>(e@),
        },
{
    match stok {
        Some(t) => Ok(t.clone()),
        None => match error_code {
            Some(c) => {
                let mut m = owned("Mercury login error code: ");
                append_str(&mut m, decimal_i64(c).as_str());
                Err(m)
            },
            None => Err(owned("Mercury login: no stok in response")),
        },
    }
}

/// The status read from a status answer: its model and firmware, online,
/// with the client count still to be filled in.
pub fn mercury_status(model: Option<String>, firmware: Option<String>) -> (s: MercuryStatus)
    ensures
        s.model == model,
        s.firmware == firmware,
        s.client_count == 0,
        s.online,
{
    MercuryStatus { model, firmware, client_count: 0, online: true }
}

/// A host entry of a clients answer: its `mac`, `ip` and `hostname` texts.
pub type HostEntry = (Option<String>, Option<String>, Option<String>);

pub open spec fn has_mac_text() -> spec_fn(HostEntry) -> bool {
    |h: HostEntry| h.0 matches Some(m) && m@.len() > 0
}

/// The clients of a clients answer: the host entries with a non-empty MAC,
/// in order, the MAC normalized.
pub fn mercury_clients(hosts: &Vec<HostEntry>) -> (r: Vec<MercuryClientInfo>)
    ensures
        r@.len() == keep_where(hosts@, has_mac_text()).len(),
        forall|i: int| 0 <= i < r@.len() ==> {
            let h = #[trigger] keep_where(hosts@, has_mac_text())[i];
            &&& r@[i].mac@ == spec_normalize_mac(h.0->0@)
            &&& r@[i].ip == h.1
            &&& r@[i].hostname == h.2
        },
{
    let ghost p = has_mac_text();
    let mut r: Vec<MercuryClientInfo> = Vec::new();
    let mut i: usize = 0;
    while i < hosts.len()
        invariant
            i <= hosts.len(),
            p == has_mac_text(),
            r@.len() == keep_where(hosts@.take(i as int), p).len(),
            forall|k: int| 0 <= k < r@.len() ==> {
                let h = #[trigger] keep_where(hosts@.take(i as int), p)[k];
                &&& r@[k].mac@ == spec_normalize_mac(h.0->0@)
                &&& r@[k].ip == h.1
                &&& r@[k].hostname == h.2
            },
        decreases hosts.len() - i,
    {
        proof {
            lemma_keep_step(hosts@, p, i as int);
        }
        let h = &hosts[i];
        if let Some(m) = &h.0 {
            if !m.as_str().is_empty() {
                r.push(MercuryClientInfo { mac: normalize_mac_for_lacis_id(m.as_str()), ip: clone_opt(&h.1), hostname: clone_opt(&h.2) });
            }
        }
        i = i + 1;
    }
    assert(hosts@.take(hosts@.len() as int) =~= hosts@);
    r
}

} // verus!
