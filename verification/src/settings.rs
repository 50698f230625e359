//! Stored settings: reading a value by key, and how values are read as
//! flags and numbers.

use vstd::prelude::*;
use crate::seqs::{first_index, is_first, lemma_first_is, lemma_first_none};
use crate::text::{append_str, owned, parse_i32, parsed_in_range, str_eq};
use crate::node_order::{clone_opt, opt_view};

verus! {

/// A request to change a setting's value.
pub struct UpdateSettingRequest {
    pub value: Option<String>,
}

pub open spec fn row_with_key(key: Seq<char>) -> spec_fn((String, Option<String>)) -> bool {
    |row: (String, Option<String>)| row.0@ == key
}

/// The value stored under a key (`None` when the key is missing or has no
/// value); the rows are the stored `(key, value)` pairs.
pub open spec fn stored_value(rows: Seq<(String, Option<String>)>, key: Seq<char>) -> Option<Seq<char>> {
    match first_index(rows, row_with_key(key)) {
        Some(i) => opt_view(rows[i].1),
        None => None,
    }
}

/// The value stored under a key.
pub fn get_setting(rows: &Vec<(String, Option<String>)>, key: &str) -> (r: Option<String>)
    ensures
        opt_view(r) == stored_value(rows@, key@),
{
    let ghost p = row_with_key(key@);
    let mut i: usize = 0;
    while i < rows.len()
        invariant
            i <= rows.len(),
            p == row_with_key(key@),
            forall|k: int| 0 <= k < i ==> !p(#[trigger] rows@[k]),
        decreases rows.len() - i,
    {
        if str_eq(rows[i].0.as_str(), key) {
            proof {
                lemma_first_is(rows@, p, i as int);
            }
            return clone_opt(&rows[i].1);
        }
        i = i + 1;
    }
    proof {
        lemma_first_none(rows@, p);
    }
    None
}

/// A stored value read as a flag: `true` or `1` mean on; anything else, or
/// no value, means off.
pub open spec fn spec_setting_bool(value: Option<Seq<char>>) -> bool {
    match value {
        Some(v) => v == "true"@ || v == "1"@,
        None => false,
    }
}

pub fn setting_bool(value: &Option<String>) -> (r: bool)
    ensures
        r == spec_setting_bool(opt_view(*value)),
{
    match value {
        Some(v) => str_eq(v.as_str(), "true") || str_eq(v.as_str(), "1"),
        None => false,
    }
}

/// A stored value read as a 32-bit integer, with a default for no value or
/// one that is no such integer.
pub open spec fn spec_setting_i32(value: Option<Seq<char>>, default: i32) -> i32 {
    match value {
        Some(v) => match parsed_in_range(v, true, -2147483648, 2147483647) {
            Some(n) => n as i32,
            None => default,
        },
        None => default,
    }
}

pub fn setting_i32(value: &Option<String>, default: i32) -> (r: i32)
    ensures
        r == spec_setting_i32(opt_view(*value), default),
{
    match value {
        Some(v) => match parse_i32(v.as_str()) {
            Some(n) => n,
            None => default,
        },
        None => default,
    }
}

/// Health check settings: interval (s, default 60), timeout (ms, default
/// 5000), consecutive failures before a notice (default 3).
pub fn health_check_settings(rows: &Vec<(String, Option<String>)>) -> (r: (i32, i32, i32))
    ensures
        r.0 == spec_setting_i32(stored_value(rows@, "health_check_interval_sec"@), 60),
        r.1 == spec_setting_i32(stored_value(rows@, "health_check_timeout_ms"@), 5000),
        r.2 == spec_setting_i32(stored_value(rows@, "health_check_failure_threshold"@), 3),
{
    let interval = setting_i32(&get_setting(rows, "health_check_interval_sec"), 60);
    let timeout = setting_i32(&get_setting(rows, "health_check_timeout_ms"), 5000);
    let threshold = setting_i32(&get_setting(rows, "health_check_failure_threshold"), 3);
    (interval, timeout, threshold)
}

/// Rate limit settings: whether it is on, and requests per minute (default 60).
pub fn rate_limit_settings(rows: &Vec<(String, Option<String>)>) -> (r: (bool, i32))
    ensures
        r.0 == spec_setting_bool(stored_value(rows@, "rate_limit_enabled"@)),
        r.1 == spec_setting_i32(stored_value(rows@, "rate_limit_requests_per_minute"@), 60),
{
    let enabled = setting_bool(&get_setting(rows, "rate_limit_enabled"));
    let per_minute = setting_i32(&get_setting(rows, "rate_limit_requests_per_minute"), 60);
    (enabled, per_minute)
}

/// The key of the flag that turns one kind of Discord notice on.
pub fn discord_notify_key(notify_type: &str) -> (r: String)
    ensures
        r@ == "discord_notify_"@ + notify_type@,
{
    let mut k = owned("discord_notify_");
    append_str(&mut k, notify_type);
    k
}

/// `Setting {key} not found`.
pub fn setting_not_found(key: &str) -> (r: String)
    ensures
        r@ == "Setting "@ + key@ + " not found"@,
{
    let mut m = owned("Setting ");
    append_str(&mut m, key);
    append_str(&mut m, " not found");
    m
}

/// The settings after the value under `key` is replaced: the first row
/// with that key gets the value; without such a row nothing changes (the
/// table is only updated, never extended).
pub open spec fn spec_set(rows: Seq<(String, Option<String>)>, key: Seq<char>, value: Option<String>) -> Seq<(String, Option<String>)> {
    match first_index(rows, row_with_key(key)) {
        Some(i) => rows.update(i, (rows[i].0, value)),
        None => rows,
    }
}

/// Replaces the value stored under `key`; says whether the key was found.
pub fn set_setting(rows: &mut Vec<(String, Option<String>)>, key: &str, value: Option<String>) -> (found: bool)
    ensures
        final(rows)@ == spec_set(old(rows)@, key@, value),
        found == first_index(old(rows)@, row_with_key(key@)) is Some,
{
    let ghost p = row_with_key(key@);
    let mut i: usize = 0;
    while i < rows.len()
        invariant
            i <= rows.len(),
            rows@ == old(rows)@,
            rows@ == old(rows)@,
            p == row_with_key(key@),
            forall|k: int| 0 <= k < i ==> !p(#[trigger] rows@[k]),
        decreases rows.len() - i,
    {
        if str_eq(rows[i].0.as_str(), key) {
            proof {
                lemma_first_is(rows@, p, i as int);
            }
            let k = rows[i].0.clone();
            rows.set(i, (k, value));
            return true;
        }
        i = i + 1;
    }
    proof {
        lemma_first_none(rows@, p);
    }
    false
}

/// Replacing a value changes no key, so every key is found where it was.
pub proof fn lemma_set_keeps_keys(rows: Seq<(String, Option<String>)>, key: Seq<char>, value: Option<String>, k: Seq<char>)
    ensures
        first_index(spec_set(rows, key, value), row_with_key(k)) == first_index(rows, row_with_key(k)),
{
    let r = spec_set(rows, key, value);
    assert forall|j: int| 0 <= j < rows.len() implies #[trigger] r[j].0 == rows[j].0 by {}
    assert(r.len() == rows.len());
    match first_index(rows, row_with_key(k)) {
        Some(f) => {
            assert(is_first(rows, row_with_key(k), f));
            assert(is_first(r, row_with_key(k), f));
            lemma_first_is(r, row_with_key(k), f);
        },
        None => {
            assert forall|j: int| 0 <= j < r.len() implies !row_with_key(k)(#[trigger] r[j]) by {
                if row_with_key(k)(r[j]) {
                    assert(row_with_key(k)(rows[j]));
                    crate::seqs::lemma_first_exists(rows, row_with_key(k), j);
                }
            }
            lemma_first_none(r, row_with_key(k));
        },
    }
}

/// What is read under a key after a value was set: the new value when the
/// key was set and had a row, else what was there before.
pub proof fn lemma_set_read(rows: Seq<(String, Option<String>)>, key: Seq<char>, value: Option<String>, k: Seq<char>)
    ensures
        stored_value(spec_set(rows, key, value), k) == if k == key && first_index(rows, row_with_key(key)) is Some {
            opt_view(value)
        } else {
            stored_value(rows, k)
        },
{
    lemma_set_keeps_keys(rows, key, value, k);
    match first_index(rows, row_with_key(k)) {
        Some(f) => {
            assert(is_first(rows, row_with_key(k), f));
            if k != key {
                match first_index(rows, row_with_key(key)) {
                    Some(i) => {
                        assert(is_first(rows, row_with_key(key), i));
                        assert(i != f);
                    },
                    None => {},
                }
            }
        },
        None => {},
    }
}

} // verus!
