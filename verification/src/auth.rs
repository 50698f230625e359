//! Who may call the API: sessions, permission levels, and where a request
//! comes from.
//!
//! Permission levels: read (>= 0) for GET endpoints; operate (>= 50) for
//! sync triggers and diagnostics; admin (>= 80) for creating and updating;
//! dangerous (100) for deletions and API keys.

use vstd::prelude::*;
use crate::seqs::{first_index, lemma_first_is, lemma_first_none};
use crate::text::{
    append_str, decimal_i64, decimal_int, decimal_nat, decimal_u64, is_prefix, lowercase, owned, split_on,
    split_str, str_eq, strip_prefix_or_self, trim_str, trimmed, without_prefix,
};
use crate::node_order::{clone_opt, opt_view};

verus! {

/// The authenticated caller of a request.
pub struct AuthUser {
    pub sub: String,
    pub lacis_id: Option<String>,
    pub permission: i32,
    /// `local` or `lacisoath`.
    pub auth_method: String,
}

/// The claims of a session token.
pub struct SessionClaims {
    pub sub: String,
    pub lacis_id: Option<String>,
    pub permission: i32,
    pub auth_method: String,
    /// Expiry, in seconds since the Unix epoch.
    pub exp: usize,
}

/// The answer to a successful login.
pub struct AuthResponse {
    pub ok: bool,
    pub user: AuthUser,
}

/// A login with the local account.
pub struct LocalLoginRequest {
    pub email: String,
    pub password: String,
}

/// A login with a LacisOath token.
pub struct LacisOathLoginRequest {
    pub token: String,
}

/// The fields of a LacisOath token's payload that the gateway reads.
pub struct LacisOathPayload {
    pub lacis_id: Option<String>,
    pub permission: Option<i32>,
    pub fid: Option<Vec<String>>,
    pub exp: Option<u64>,
}

/// Why a request is refused; each variant carries the message for the caller.
pub enum AppError {
    BadRequest(String),
    NotFound(String),
    Forbidden(String),
    InternalError(String),
    DatabaseError(String),
}

impl AuthUser {
    /// The user a session token stands for.
    pub fn from_claims(c: &SessionClaims) -> (u: AuthUser)
        ensures
            u.sub == c.sub,
            u.lacis_id == c.lacis_id,
            u.permission == c.permission,
            u.auth_method == c.auth_method,
    {
        AuthUser { sub: c.sub.clone(), lacis_id: clone_opt(&c.lacis_id), permission: c.permission, auth_method: c.auth_method.clone() }
    }

    /// The claims of a session for this user, expiring at `exp`.
    pub fn session_claims(&self, exp: usize) -> (c: SessionClaims)
        ensures
            c.sub == self.sub,
            c.lacis_id == self.lacis_id,
            c.permission == self.permission,
            c.auth_method == self.auth_method,
            c.exp == exp,
    {
        SessionClaims {
            sub: self.sub.clone(),
            lacis_id: clone_opt(&self.lacis_id),
            permission: self.permission,
            auth_method: self.auth_method.clone(),
            exp,
        }
    }
}

/// `Insufficient permission: {have} (required: {need})`.
pub open spec fn permission_message(have: i32, need: i32) -> Seq<char> {
    "Insufficient permission: "@ + decimal_int(have as int) + " (required: "@ + decimal_int(need as int) + ")"@
}

fn permission_text(have: i32, need: i32) -> (r: String)
    ensures
        r@ == permission_message(have, need),
{
    let mut r = owned("Insufficient permission: ");
    let h = decimal_i64(have as i64);
    append_str(&mut r, h.as_str());
    append_str(&mut r, " (required: ");
    let n = decimal_i64(need as i64);
    append_str(&mut r, n.as_str());
    append_str(&mut r, ")");
    r
}

/// Check that the user's permission reaches the required level; otherwise
/// the request is forbidden.
pub fn require_permission(user: &AuthUser, required: i32) -> (r: Result<(), AppError>)
    ensures
        match r {
            Ok(()) => user.permission >= required,
            Err(e) => user.permission < required && (e matches AppError::Forbidden(m)
                && m@ == permission_message(user.permission, required)),
        },
{
    if user.permission < required {
        Err(AppError::Forbidden(permission_text(user.permission, required)))
    } else {
        Ok(())
    }
}

// ----------------------------------------------------------------------------
// Session tokens in requests
// ----------------------------------------------------------------------------

/// The token of an `Authorization: Bearer <token>` header value.
pub open spec fn spec_bearer_token(authorization: Option<Seq<char>>) -> Option<Seq<char>> {
    match authorization {
        Some(h) => if is_prefix("Bearer "@, h) { Some(without_prefix("Bearer "@, h)) } else { None },
        None => None,
    }
}

/// The token of the `Authorization` header value (as text), when it uses the
/// Bearer scheme.
pub fn extract_bearer_token(authorization: &Option<String>) -> (r: Option<String>)
    ensures
        opt_view(r) == spec_bearer_token(opt_view(*authorization)),
{
    match authorization {
        Some(h) => {
            let cs = crate::text::chars_of(h.as_str());
            let p = crate::text::chars_of("Bearer ");
            if crate::text::starts_with(&cs, &p) {
                Some(strip_prefix_or_self(h.as_str(), "Bearer "))
            } else {
                None
            }
        },
        None => None,
    }
}

pub open spec fn is_session_piece() -> spec_fn(Seq<char>) -> bool {
    |p: Seq<char>| is_prefix("lpg_session="@, trimmed(p))
}

/// The `lpg_session` value of one `Cookie` header value: the first of its
/// `;`-separated pieces that starts (once trimmed) with `lpg_session=`.
pub open spec fn cookie_in_header(h: Seq<char>) -> Option<Seq<char>> {
    match first_index(split_on(h, ';'), is_session_piece()) {
        Some(i) => Some(without_prefix("lpg_session="@, trimmed(split_on(h, ';')[i]))),
        None => None,
    }
}

/// The session cookie of a request: from the first `Cookie` header value
/// that carries one.
pub open spec fn session_cookie(headers: Seq<Seq<char>>) -> Option<Seq<char>>
    decreases headers.len(),
{
    if headers.len() == 0 {
        None
    } else {
        match cookie_in_header(headers[0]) {
            Some(v) => Some(v),
            None => session_cookie(headers.skip(1)),
        }
    }
}

fn cookie_value_in(h: &str) -> (r: Option<String>)
    ensures
        opt_view(r) == cookie_in_header(h@),
{
    let parts = split_str(h, ';');
    let ghost ps = split_on(h@, ';');
    let ghost p = is_session_piece();
    let mut i: usize = 0;
    while i < parts.len()
        invariant
            i <= parts.len(),
            parts@.map_values(|q: String| q@) == ps,
            ps == split_on(h@, ';'),
            p == is_session_piece(),
            forall|k: int| 0 <= k < i ==> !p(#[trigger] ps[k]),
        decreases parts.len() - i,
    {
        assert(ps[i as int] == parts@[i as int]@);
        let t = trim_str(parts[i].as_str());
        let tc = crate::text::chars_of(t.as_str());
        let pre = crate::text::chars_of("lpg_session=");
        if crate::text::starts_with(&tc, &pre) {
            proof {
                lemma_first_is(ps, p, i as int);
            }
            return Some(strip_prefix_or_self(t.as_str(), "lpg_session="));
        }
        i = i + 1;
    }
    proof {
        lemma_first_none(ps, p);
    }
    None
}

/// The `lpg_session` cookie value among the `Cookie` header values of a
/// request (those that are valid text), in order.
pub fn extract_session_cookie(cookie_headers: &Vec<String>) -> (r: Option<String>)
    ensures
        opt_view(r) == session_cookie(cookie_headers@.map_values(|h: String| h@)),
{
    let ghost hs = cookie_headers@.map_values(|h: String| h@);
    assert(hs.skip(0) =~= hs);
    let mut i: usize = 0;
    while i < cookie_headers.len()
        invariant
            i <= cookie_headers.len(),
            hs == cookie_headers@.map_values(|h: String| h@),
            session_cookie(hs) == session_cookie(hs.skip(i as int)),
        decreases cookie_headers.len() - i,
    {
        let ghost rest = hs.skip(i as int);
        assert(rest[0] == cookie_headers@[i as int]@);
        assert(rest.skip(1) =~= hs.skip(i + 1));
        let v = cookie_value_in(cookie_headers[i].as_str());
        if v.is_some() {
            return v;
        }
        i = i + 1;
    }
    None
}

/// The session token of a request: the Bearer token when there is one, else
/// the session cookie.
pub fn select_token(bearer: Option<String>, cookie: Option<String>) -> (r: Option<String>)
    ensures
        r == (if bearer is Some { bearer } else { cookie }),
{
    match bearer {
        Some(t) => Some(t),
        None => cookie,
    }
}

// ----------------------------------------------------------------------------
// Where a request comes from
// ----------------------------------------------------------------------------

/// The client address of a request: the first entry of `X-Forwarded-For`
/// (trimmed), else `X-Real-IP`, else the peer address.
pub open spec fn spec_client_ip(forwarded_for: Option<Seq<char>>, real_ip: Option<Seq<char>>, peer: Seq<char>) -> Seq<char> {
    match forwarded_for {
        Some(x) => trimmed(split_on(x, ',')[0]),
        None => match real_ip {
            Some(r) => r,
            None => peer,
        },
    }
}

/// The client address of a request, from the header values (those that are
/// valid text) and the peer address.
pub fn extract_client_ip(forwarded_for: &Option<String>, real_ip: &Option<String>, peer: &str) -> (r: String)
    ensures
        r@ == spec_client_ip(opt_view(*forwarded_for), opt_view(*real_ip), peer@),
{
    match forwarded_for {
        Some(x) => {
            let parts = split_str(x.as_str(), ',');
            proof {
                crate::text::lemma_split_nonempty(x@, ',');
                assert(parts@[0]@ == split_on(x@, ',')[0]);
            }
            trim_str(parts[0].as_str())
        },
        None => match real_ip {
            Some(r) => r.clone(),
            None => owned(peer),
        },
    }
}

/// An IP address as its numbers.
pub enum IpAddress {
    V4(u8, u8, u8, u8),
    V6([u16; 8]),
}

/// Private and local addresses (RFC 1918 and loopback): 10.0.0.0/8,
/// 172.16.0.0/12, 192.168.0.0/16, the loopback 127.0.0.0/8, and the IPv6
/// loopback `::1`.
pub open spec fn spec_is_private(addr: IpAddress) -> bool {
    match addr {
        IpAddress::V4(a, b, _, _) => a == 10 || (a == 172 && 16 <= b && b <= 31) || (a == 192 && b == 168) || a == 127,
        IpAddress::V6(s) => s[0] == 0 && s[1] == 0 && s[2] == 0 && s[3] == 0 && s[4] == 0 && s[5] == 0 && s[6] == 0 && s[7] == 1,
    }
}

/// Whether an address belongs to a private or local network.
pub fn is_private_address(addr: &IpAddress) -> (r: bool)
    ensures
        r == spec_is_private(*addr),
{
    match addr {
        IpAddress::V4(a, b, _, _) => *a == 10 || (*a == 172 && 16 <= *b && *b <= 31) || (*a == 192 && *b == 168) || *a == 127,
        IpAddress::V6(s) => s[0] == 0 && s[1] == 0 && s[2] == 0 && s[3] == 0 && s[4] == 0 && s[5] == 0 && s[6] == 0 && s[7] == 1,
    }
}

/// Whether a request may reach the API: always from a private network;
/// from elsewhere only when Internet access is enabled (the stored setting,
/// else the configured default).
pub fn internet_access_allowed(private: bool, stored_setting: Option<bool>, configured: bool) -> (r: bool)
    ensures
        r == (private || match stored_setting { Some(b) => b, None => configured }),
{
    if private {
        return true;
    }
    match stored_setting {
        Some(b) => b,
        None => configured,
    }
}

// ----------------------------------------------------------------------------
// Logins
// ----------------------------------------------------------------------------

/// What `bcrypt::verify` answers for a password and a stored hash: whether
/// they match, or nothing when the hash cannot be read.
pub uninterp spec fn bcrypt_verdict(password: Seq<char>, hash: Seq<char>) -> Option<bool>;

#[verifier::external_type_specification]
#[verifier::external_body]
pub struct ExBcryptError(bcrypt::BcryptError);

/// `bcrypt::verify`: whether the password matches the hash; an error when
/// the hash is malformed. Its answer depends on the two strings alone.
#[verifier::external_body]
fn bcrypt_verify(password: &str, hash: &str) -> (r: Result<bool, bcrypt::BcryptError>)
    ensures
        match r {
            Ok(b) => bcrypt_verdict(password@, hash@) == Some(b),
            Err(_) => bcrypt_verdict(password@, hash@) is None,
        },
{
    bcrypt::verify(password, hash)
}

/// `Display` of `bcrypt::BcryptError`: the error's message. Nothing is
/// stated of the text.
#[verifier::external_body]
fn bcrypt_error_text(e: &bcrypt::BcryptError) -> String {
    format!("{}", e)
}

/// Login with the local account: the e-mail must be the configured one, a
/// password hash must be configured, and the password must match it. The
/// local account has the highest permission.
pub fn login_local_user(req: &LocalLoginRequest, local_email: &str, local_password_hash: &str) -> (r: Result<AuthUser, AppError>)
    ensures
        req.email@ != local_email@ ==> (r matches Err(AppError::BadRequest(m)) && m@ == "Invalid email or password"@),
        req.email@ == local_email@ && local_password_hash@.len() == 0
            ==> (r matches Err(AppError::InternalError(m)) && m@ == "Local authentication is not configured"@),
        req.email@ == local_email@ && local_password_hash@.len() > 0 ==> match bcrypt_verdict(req.password@, local_password_hash@) {
            None => r matches Err(AppError::InternalError(m)) && crate::text::is_prefix("Password verification error: "@, m@),
            Some(false) => r matches Err(AppError::BadRequest(m)) && m@ == "Invalid email or password"@,
            Some(true) => r matches Ok(u) && u.sub@ == req.email@ && u.lacis_id is None && u.permission == 100
                && u.auth_method@ == "local"@,
        },
{
    if !str_eq(req.email.as_str(), local_email) {
        return Err(AppError::BadRequest(owned("Invalid email or password")));
    }
    if local_password_hash.is_empty() {
        return Err(AppError::InternalError(owned("Local authentication is not configured")));
    }
    match bcrypt_verify(req.password.as_str(), local_password_hash) {
        Err(e) => {
            let mut m = owned("Password verification error: ");
            let t = bcrypt_error_text(&e);
            append_str(&mut m, t.as_str());
            assert(m@.take("Password verification error: "@.len() as int) =~= "Password verification error: "@);
            Err(AppError::InternalError(m))
        },
        Ok(false) => Err(AppError::BadRequest(owned("Invalid email or password"))),
        Ok(true) => Ok(AuthUser {
            sub: req.email.clone(),
            lacis_id: None,
            permission: 100,
            auth_method: owned("local"),
        }),
    }
}

/// What base64 (URL-safe alphabet, no padding) decodes a string to, if it is
/// valid.
pub uninterp spec fn base64_url_decoded(s: Seq<char>) -> Option<Seq<u8>>;

/// What base64 (standard alphabet, with padding) decodes a string to, if it
/// is valid.
pub uninterp spec fn base64_standard_decoded(s: Seq<char>) -> Option<Seq<u8>>;

#[verifier::external_type_specification]
#[verifier::external_body]
pub struct ExDecodeError(base64::DecodeError);

/// `base64::engine::general_purpose::URL_SAFE_NO_PAD.decode`: the bytes, or
/// an error for invalid input. The result depends on the input alone.
#[verifier::external_body]
fn decode_base64_url(s: &str) -> (r: Result<Vec<u8>, base64::DecodeError>)
    ensures
        match r {
            Ok(b) => base64_url_decoded(s@) == Some(b@),
            Err(_) => base64_url_decoded(s@) is None,
        },
{
    base64::Engine::decode(&base64::engine::general_purpose::URL_SAFE_NO_PAD, s)
}

/// `base64::engine::general_purpose::STANDARD.decode`: the bytes, or an
/// error for invalid input. The result depends on the input alone.
#[verifier::external_body]
fn decode_base64_standard(s: &str) -> (r: Result<Vec<u8>, base64::DecodeError>)
    ensures
        match r {
            Ok(b) => base64_standard_decoded(s@) == Some(b@),
            Err(_) => base64_standard_decoded(s@) is None,
        },
{
    base64::Engine::decode(&base64::engine::general_purpose::STANDARD, s)
}

/// `Display` of `base64::DecodeError`: the error's message. Nothing is
/// stated of the text.
#[verifier::external_body]
fn decode_error_text(e: &base64::DecodeError) -> String {
    format!("{}", e)
}

/// The payload bytes of a JWT: it must have three `.`-separated parts; the
/// middle one is decoded as URL-safe base64 without padding, else as
/// standard base64. The signature is not checked.
pub fn jwt_payload_bytes(token: &str) -> (r: Result<Vec<u8>, AppError>)
    ensures
        split_on(token@, '.').len() != 3 ==> (r matches Err(AppError::BadRequest(m)) && m@ == "Invalid JWT format"@),
        split_on(token@, '.').len() == 3 ==> ({
            let mid = split_on(token@, '.')[1];
            match base64_url_decoded(mid) {
                Some(b) => r matches Ok(v) && v@ == b,
                None => match base64_standard_decoded(mid) {
                    Some(b) => r matches Ok(v) && v@ == b,
                    None => r matches Err(AppError::BadRequest(m))
                        && crate::text::is_prefix("Invalid JWT payload encoding: "@, m@),
                },
            }
        }),
{
    let parts = split_str(token, '.');
    if parts.len() != 3 {
        return Err(AppError::BadRequest(owned("Invalid JWT format")));
    }
    assert(parts@[1]@ == split_on(token@, '.')[1]);
    match decode_base64_url(parts[1].as_str()) {
        Ok(b) => Ok(b),
        Err(_) => match decode_base64_standard(parts[1].as_str()) {
            Ok(b) => Ok(b),
            Err(e) => {
                let mut m = owned("Invalid JWT payload encoding: ");
                let t = decode_error_text(&e);
                append_str(&mut m, t.as_str());
                assert(m@.take("Invalid JWT payload encoding: "@.len() as int) =~= "Invalid JWT payload encoding: "@);
                Err(AppError::BadRequest(m))
            },
        },
    }
}

/// The facility list grants access: it holds the required facility or the
/// all-facilities id `0000`.
pub open spec fn fid_granted(fids: Seq<String>, required: Seq<char>) -> bool {
    exists|i: int| 0 <= i < fids.len() && ((#[trigger] fids[i])@ == required || fids[i]@ == "0000"@)
}

fn has_fid(v: &Vec<String>, required: &str) -> (r: bool)
    ensures
        r == fid_granted(v@, required@),
{
    let mut i: usize = 0;
    while i < v.len()
        invariant
            i <= v.len(),
            forall|k: int| 0 <= k < i ==> !((#[trigger] v@[k])@ == required@ || v@[k]@ == "0000"@),
        decreases v.len() - i,
    {
        if str_eq(v[i].as_str(), required) || str_eq(v[i].as_str(), "0000") {
            assert(v@[i as int]@ == required@ || v@[i as int]@ == "0000"@);
            return true;
        }
        i = i + 1;
    }
    false
}

/// Login with a LacisOath token's payload at time `now` (seconds since the
/// Unix epoch): the token must not have expired, its permission (0 when
/// absent) must reach the required level, and its facilities must include
/// the required one or `0000`. The user is the token's LacisID.
pub fn login_lacisoath_user(payload: &LacisOathPayload, now: u64, required_permission: i32, required_fid: &str) -> (r: Result<AuthUser, AppError>)
    ensures
        ({
            let perm = match payload.permission { Some(p) => p, None => 0i32 };
            let lacis = match payload.lacis_id { Some(l) => l@, None => Seq::<char>::empty() };
            if payload.exp matches Some(e) && e < now {
                r matches Err(AppError::BadRequest(m)) && m@ == "Token has expired"@
            } else if perm < required_permission {
                r matches Err(AppError::BadRequest(m)) && m@ == permission_message(perm, required_permission)
            } else if !(payload.fid matches Some(f) && fid_granted(f@, required_fid@)) {
                r matches Err(AppError::BadRequest(m)) && m@ == "Access not authorized for this facility"@
            } else {
                r matches Ok(u) && u.sub@ == lacis && opt_view(u.lacis_id) == Some(lacis) && u.permission == perm
                    && u.auth_method@ == "lacisoath"@
            }
        }),
{
    if let Some(e) = payload.exp {
        if e < now {
            return Err(AppError::BadRequest(owned("Token has expired")));
        }
    }
    let perm: i32 = match payload.permission {
        Some(p) => p,
        None => 0,
    };
    if perm < required_permission {
        return Err(AppError::BadRequest(permission_text(perm, required_permission)));
    }
    let granted = match &payload.fid {
        Some(v) => has_fid(v, required_fid),
        None => false,
    };
    if !granted {
        return Err(AppError::BadRequest(owned("Access not authorized for this facility")));
    }
    let lacis = match &payload.lacis_id {
        Some(l) => l.clone(),
        None => String::new(),
    };
    Ok(AuthUser { sub: lacis.clone(), lacis_id: Some(lacis), permission: perm, auth_method: owned("lacisoath") })
}

/// The `Set-Cookie` value of a new session.
pub open spec fn spec_session_cookie(token: Seq<char>, hours: u64) -> Seq<char> {
    "lpg_session="@ + token + "; Path=/LacisProxyGateway2; HttpOnly; SameSite=Lax; Max-Age="@ + decimal_nat((hours * 3600) as nat)
}

/// The `Set-Cookie` value carrying a session token, kept for the session
/// duration (in hours).
pub fn session_cookie_header(token: &str, session_duration_hours: u64) -> (r: String)
    requires
        session_duration_hours * 3600 <= u64::MAX,
    ensures
        r@ == spec_session_cookie(token@, session_duration_hours),
{
    let mut r = owned("lpg_session=");
    append_str(&mut r, token);
    append_str(&mut r, "; Path=/LacisProxyGateway2; HttpOnly; SameSite=Lax; Max-Age=");
    let age = decimal_u64(session_duration_hours * 3600);
    append_str(&mut r, age.as_str());
    r
}

/// The `Set-Cookie` value that ends a session.
pub fn logout_cookie_header() -> (r: String)
    ensures
        r@ == "lpg_session=; Path=/LacisProxyGateway2; HttpOnly; SameSite=Lax; Max-Age=0"@,
{
    owned("lpg_session=; Path=/LacisProxyGateway2; HttpOnly; SameSite=Lax; Max-Age=0")
}

} // verus!
