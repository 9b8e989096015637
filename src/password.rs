//! Password hashing and verification with PBKDF2, scrypt, bcrypt and
//! Argon2id, each behind one hash/verify pair. The key derivation itself is
//! done by the algorithm crates; this module decides which salt and which
//! parameters are used and how each outcome is reported.

use vstd::prelude::*;
use pbkdf2::password_hash::{PasswordHash, PasswordHasher, PasswordVerifier, SaltString};
use crate::text::{chars_of, occurs_at};
use crate::media::digit_char;

verus! {

/// A request to hash a password. The fields after `algorithm` are the
/// optional parameters of the individual algorithms.
#[derive(Clone, Debug, PartialEq, Eq)]
pub struct PasswordHashRequest {
    pub password: String,
    pub salt: Option<String>,
    pub algorithm: String,
    pub iterations: Option<u32>,
    pub n: Option<u32>,
    pub r: Option<u32>,
    pub p: Option<u32>,
    pub memory: Option<u32>,
    pub argon2_iterations: Option<u32>,
    pub parallelism: Option<u32>,
}

/// A password hash in PHC string form (bcrypt: its own form), and its salt.
#[derive(Clone, Debug, PartialEq, Eq)]
pub struct PasswordHashResponse {
    pub hash: String,
    pub salt: String,
}

/// A request to check a password against a hash.
#[derive(Clone, Debug, PartialEq, Eq)]
pub struct PasswordVerifyRequest {
    pub password: String,
    pub hash: String,
}

/// Whether the password matched.
#[derive(PartialEq, Eq, Structural, Clone, Copy, Debug)]
pub struct PasswordVerifyResponse {
    pub valid: bool,
}

/// Why an Argon2id hash could not be made.
#[derive(Clone, Debug, PartialEq, Eq)]
pub enum Argon2Failure {
    Params(String),
    Hash(String),
}

/// A character that a salt in B64 text may hold: `[a-zA-Z0-9/+.-]`.
pub open spec fn is_salt_char(c: char) -> bool {
    let v = c as u32;
    (0x61 <= v && v <= 0x7A) || (0x41 <= v && v <= 0x5A) || (0x30 <= v && v <= 0x39) || c == '/'
        || c == '+' || c == '.' || c == '-'
}

/// A valid salt text: 4 to 64 salt characters.
pub open spec fn is_salt_text(s: Seq<char>) -> bool {
    4 <= s.len() <= 64 && forall|i: int| 0 <= i < s.len() ==> is_salt_char(s[i])
}

/// Whether password-hash's `Salt::decode_b64` decodes a salt text.
pub uninterp spec fn salt_decodes(salt: Seq<char>) -> bool;

/// The PHC string of a PBKDF2 hash with the default parameters.
pub uninterp spec fn pbkdf2_phc(password: Seq<char>, salt: Seq<char>) -> Seq<char>;

/// The PHC string of a scrypt hash with the default parameters.
pub uninterp spec fn scrypt_phc(password: Seq<char>, salt: Seq<char>) -> Seq<char>;

/// The PHC string of an Argon2id (version 0x13) hash with the given costs.
pub uninterp spec fn argon2id_phc(
    password: Seq<char>,
    salt: Seq<char>,
    m_cost: u32,
    t_cost: u32,
    p_cost: u32,
) -> Seq<char>;

/// Whether a password matches a PBKDF2 PHC string, or why the string is malformed.
pub uninterp spec fn pbkdf2_verdict(password: Seq<char>, hash: Seq<char>) -> Result<bool, Seq<char>>;

/// Whether a password matches a scrypt PHC string, or why the string is malformed.
pub uninterp spec fn scrypt_verdict(password: Seq<char>, hash: Seq<char>) -> Result<bool, Seq<char>>;

/// Whether a password matches an Argon2 PHC string, or why the string is malformed.
pub uninterp spec fn argon2_verdict(password: Seq<char>, hash: Seq<char>) -> Result<bool, Seq<char>>;

/// Whether a password matches a bcrypt hash, or why the hash is malformed.
pub uninterp spec fn bcrypt_verdict(password: Seq<char>, hash: Seq<char>) -> Result<bool, Seq<char>>;

/// Relies on `SaltString::from_b64` (password-hash): it accepts exactly the
/// texts of 4 to 64 characters of `[a-zA-Z0-9/+.-]` and keeps them as given.
#[verifier::external_body]
fn check_salt(s: &str) -> (r: Result<String, String>)
    ensures
        r is Ok <==> is_salt_text(s@),
        r is Ok ==> r->Ok_0@ == s@,
{
    SaltString::from_b64(s).map(|v| v.as_str().to_string()).map_err(|e| e.to_string())
}

/// Relies on `SaltString::generate` (password-hash) with the OS random
/// source: 16 random bytes in unpadded B64, 22 salt characters, which
/// `Salt::decode_b64` decodes back.
#[verifier::external_body]
fn random_salt() -> (r: String)
    ensures
        is_salt_text(r@),
        r@.len() == 22,
        salt_decodes(r@),
{
    SaltString::generate(&mut rand::rngs::OsRng).as_str().to_string()
}

/// Relies on `Pbkdf2::hash_password` (pbkdf2, default parameters) with the
/// salt parsed by `SaltString::from_b64`; with the default parameters,
/// decoding the salt is the only step that can fail.
#[verifier::external_body]
fn pbkdf2_hash(password: &str, salt: &str) -> (r: Result<String, String>)
    requires
        is_salt_text(salt@),
    ensures
        r is Ok <==> salt_decodes(salt@),
        r is Ok ==> r->Ok_0@ == pbkdf2_phc(password@, salt@),
{
    let salt = SaltString::from_b64(salt).map_err(|e| e.to_string())?;
    pbkdf2::Pbkdf2.hash_password(password.as_bytes(), &salt).map(|h| h.to_string()).map_err(
        |e| e.to_string(),
    )
}

/// Relies on `Scrypt::hash_password` (scrypt, default parameters) with the
/// salt parsed by `SaltString::from_b64`; with the default parameters,
/// decoding the salt is the only step that can fail.
#[verifier::external_body]
fn scrypt_hash(password: &str, salt: &str) -> (r: Result<String, String>)
    requires
        is_salt_text(salt@),
    ensures
        r is Ok <==> salt_decodes(salt@),
        r is Ok ==> r->Ok_0@ == scrypt_phc(password@, salt@),
{
    let salt = SaltString::from_b64(salt).map_err(|e| e.to_string())?;
    scrypt::Scrypt.hash_password(password.as_bytes(), &salt).map(|h| h.to_string()).map_err(
        |e| e.to_string(),
    )
}

/// Relies on `argon2::Params`' default costs: 19 MiB of memory, two
/// passes, one lane.
#[verifier::external_body]
fn argon2_default_costs() -> (r: (u32, u32, u32))
    ensures
        r == (19456u32, 2u32, 1u32),
{
    (argon2::Params::DEFAULT_M_COST, argon2::Params::DEFAULT_T_COST, argon2::Params::DEFAULT_P_COST)
}

/// The most lanes an Argon2 hash may use.
pub const ARGON2_MAX_LANES: u32 = 0xFFFFFF;

/// Relies on `argon2::Params::MAX_P_COST`, the largest lane count the
/// crate accepts.
#[verifier::external_body]
fn argon2_max_lanes() -> (r: u32)
    ensures
        r == ARGON2_MAX_LANES,
{
    argon2::Params::MAX_P_COST
}

/// Relies on the message of `argon2::Error::ThreadsTooMany`, the crate's
/// error for a lane count above its maximum.
#[verifier::external_body]
fn argon2_too_many_lanes_message() -> (r: String) {
    argon2::Error::ThreadsTooMany.to_string()
}

/// Relies on `Argon2::hash_password` (argon2, Argon2id version 0x13), with
/// the costs checked by `argon2::Params::new` and the salt parsed by
/// `SaltString::from_b64`. `Params::new` multiplies the lane count by 8 in
/// a `u32`, so lane counts above the crate's maximum are left out.
#[verifier::external_body]
fn argon2id_hash(password: &str, salt: &str, m_cost: u32, t_cost: u32, p_cost: u32) -> (r: Result<
    String,
    Argon2Failure,
>)
    requires
        is_salt_text(salt@),
        p_cost <= ARGON2_MAX_LANES,
    ensures
        r is Ok ==> r->Ok_0@ == argon2id_phc(password@, salt@, m_cost, t_cost, p_cost),
{
    let params = argon2::Params::new(m_cost, t_cost, p_cost, None).map_err(
        |e| Argon2Failure::Params(e.to_string()),
    )?;
    let salt = SaltString::from_b64(salt).map_err(|e| Argon2Failure::Hash(e.to_string()))?;
    argon2::Argon2::new(argon2::Algorithm::Argon2id, argon2::Version::V0x13, params).hash_password(
        password.as_bytes(),
        &salt,
    ).map(|h| h.to_string()).map_err(|e| Argon2Failure::Hash(e.to_string()))
}

/// The two decimal digits of a bcrypt cost.
pub open spec fn cost_digits(cost: u32) -> Seq<char> {
    seq![digit_char((cost / 10) as nat), digit_char((cost % 10) as nat)]
}

/// Relies on `bcrypt::hash`: a random salt; costs outside 4..=31 are
/// refused; a hash is `$2b$`, the two-digit cost, `$` and 53 characters.
#[verifier::external_body]
fn bcrypt_hash(password: &str, cost: u32) -> (r: Result<String, String>)
    ensures
        !(4 <= cost <= 31) ==> r is Err,
        r is Ok ==> r->Ok_0@.len() == 60 && r->Ok_0@.subrange(0, 4) == "$2b$"@
            && r->Ok_0@.subrange(4, 6) == cost_digits(cost) && r->Ok_0@[6] == '$',
{
    bcrypt::hash(password, cost).map_err(|e| e.to_string())
}

/// Relies on `PasswordHash::new` to parse the PHC string and on
/// `Pbkdf2::verify_password` to check the password against it.
#[verifier::external_body]
fn pbkdf2_check(password: &str, hash: &str) -> (r: Result<bool, String>)
    ensures
        match r {
            Ok(b) => pbkdf2_verdict(password@, hash@) == Ok::<bool, Seq<char>>(b),
            Err(e) => pbkdf2_verdict(password@, hash@) == Err::<bool, Seq<char>>(e@),
        },
{
    let parsed = PasswordHash::new(hash).map_err(|e| e.to_string())?;
    Ok(pbkdf2::Pbkdf2.verify_password(password.as_bytes(), &parsed).is_ok())
}

/// Relies on `PasswordHash::new` to parse the PHC string and on
/// `Scrypt::verify_password` to check the password against it.
#[verifier::external_body]
fn scrypt_check(password: &str, hash: &str) -> (r: Result<bool, String>)
    ensures
        match r {
            Ok(b) => scrypt_verdict(password@, hash@) == Ok::<bool, Seq<char>>(b),
            Err(e) => scrypt_verdict(password@, hash@) == Err::<bool, Seq<char>>(e@),
        },
{
    let parsed = PasswordHash::new(hash).map_err(|e| e.to_string())?;
    Ok(scrypt::Scrypt.verify_password(password.as_bytes(), &parsed).is_ok())
}

/// Relies on `PasswordHash::new` to parse the PHC string and on
/// `Argon2::verify_password` (default instance, parameters read from the
/// string) to check the password against it. A lane count of 2^29 or more
/// read from the string overflows in `argon2::Params::new`; such a count
/// has at least nine digits after `p=`, and strings with one are left out.
#[verifier::external_body]
fn argon2_check(password: &str, hash: &str) -> (r: Result<bool, String>)
    requires
        !names_large_lane_count(hash@),
    ensures
        match r {
            Ok(b) => argon2_verdict(password@, hash@) == Ok::<bool, Seq<char>>(b),
            Err(e) => argon2_verdict(password@, hash@) == Err::<bool, Seq<char>>(e@),
        },
{
    let parsed = PasswordHash::new(hash).map_err(|e| e.to_string())?;
    Ok(argon2::Argon2::default().verify_password(password.as_bytes(), &parsed).is_ok())
}

/// Relies on `bcrypt::verify`: the verdict, or the reason the hash is
/// malformed, depends on the password and the hash alone.
#[verifier::external_body]
fn bcrypt_check(password: &str, hash: &str) -> (r: Result<bool, String>)
    ensures
        match r {
            Ok(b) => bcrypt_verdict(password@, hash@) == Ok::<bool, Seq<char>>(b),
            Err(e) => bcrypt_verdict(password@, hash@) == Err::<bool, Seq<char>>(e@),
        },
{
    bcrypt::verify(password, hash).map_err(|e| e.to_string())
}

/// `prefix` followed by `detail`.
fn prefixed(prefix: &str, detail: String) -> (r: String)
    ensures
        r@ == prefix@ + detail@,
        prefix@.is_prefix_of(r@),
{
    let mut m = String::from_str(prefix);
    m.append(detail.as_str());
    assert(m@.subrange(0, prefix@.len() as int) =~= prefix@);
    m
}

/// The salt a hash is made with: the given one if it is valid B64 salt
/// text, a fresh random one if none is given.
pub fn resolve_salt(salt: Option<String>) -> (r: Result<String, String>)
    ensures
        r is Ok ==> is_salt_text(r->Ok_0@),
        salt is Some ==> (r is Ok <==> is_salt_text(salt->0@)),
        salt is Some && r is Ok ==> r->Ok_0@ == salt->0@,
        salt is None ==> r is Ok && salt_decodes(r->Ok_0@),
        r is Err ==> "Invalid salt: "@.is_prefix_of(r->Err_0@),
{
    match salt {
        Some(s) => match check_salt(s.as_str()) {
            Ok(v) => Ok(v),
            Err(e) => Err(prefixed("Invalid salt: ", e)),
        },
        None => Ok(random_salt()),
    }
}

/// The outcome of a hash request that resolved its salt: a hash made with
/// `hash` is reported with the salt, a failure with its reason.
pub open spec fn hash_outcome_ok(
    request: PasswordHashRequest,
    r: Result<PasswordHashResponse, String>,
) -> bool {
    &&& r is Ok ==> is_salt_text(r->Ok_0.salt@)
    &&& r is Ok && request.salt is Some ==> r->Ok_0.salt@ == request.salt->0@
    &&& request.salt is Some && !is_salt_text(request.salt->0@) ==> r is Err
        && "Invalid salt: "@.is_prefix_of(r->Err_0@)
    &&& r is Err ==> "Invalid salt: "@.is_prefix_of(r->Err_0@) || "Failed to hash password: "@.is_prefix_of(
        r->Err_0@,
    )
}

/// Hashes a password with PBKDF2 (default parameters) under the given
/// salt, or a fresh random one.
pub fn hash_pbkdf2(request: PasswordHashRequest) -> (r: Result<PasswordHashResponse, String>)
    ensures
        hash_outcome_ok(request, r),
        r is Ok ==> r->Ok_0.hash@ == pbkdf2_phc(request.password@, r->Ok_0.salt@),
        request.salt is None ==> r is Ok,
        request.salt is Some && is_salt_text(request.salt->0@) ==> (r is Ok <==> salt_decodes(
            request.salt->0@,
        )),
{
    let salt = resolve_salt(request.salt)?;
    match pbkdf2_hash(request.password.as_str(), salt.as_str()) {
        Ok(hash) => Ok(PasswordHashResponse { hash, salt }),
        Err(e) => Err(prefixed("Failed to hash password: ", e)),
    }
}

/// Hashes a password with scrypt (default parameters) under the given
/// salt, or a fresh random one.
pub fn hash_scrypt(request: PasswordHashRequest) -> (r: Result<PasswordHashResponse, String>)
    ensures
        hash_outcome_ok(request, r),
        r is Ok ==> r->Ok_0.hash@ == scrypt_phc(request.password@, r->Ok_0.salt@),
        request.salt is None ==> r is Ok,
        request.salt is Some && is_salt_text(request.salt->0@) ==> (r is Ok <==> salt_decodes(
            request.salt->0@,
        )),
{
    let salt = resolve_salt(request.salt)?;
    match scrypt_hash(request.password.as_str(), salt.as_str()) {
        Ok(hash) => Ok(PasswordHashResponse { hash, salt }),
        Err(e) => Err(prefixed("Failed to hash password: ", e)),
    }
}

/// The Argon2 costs of a request: each one given, or the library default.
pub open spec fn argon2_costs(request: PasswordHashRequest, defaults: (u32, u32, u32)) -> (
    u32,
    u32,
    u32,
) {
    (
        match request.memory {
            Some(m) => m,
            None => defaults.0,
        },
        match request.argon2_iterations {
            Some(t) => t,
            None => defaults.1,
        },
        match request.parallelism {
            Some(p) => p,
            None => defaults.2,
        },
    )
}

/// Hashes a password with Argon2id (version 0x13) under the given salt, or
/// a fresh random one, with the costs the request gives and the default
/// costs for the others.
pub fn hash_argon2(request: PasswordHashRequest) -> (r: Result<PasswordHashResponse, String>)
    ensures
        hash_outcome_ok(request, r) || (r is Err && "Failed to build params: "@.is_prefix_of(
            r->Err_0@,
        )),
        request.salt is Some && !is_salt_text(request.salt->0@) ==> r is Err
            && "Invalid salt: "@.is_prefix_of(r->Err_0@),
        !(request.salt is Some && !is_salt_text(request.salt->0@)) && argon2_costs(
            request,
            (19456u32, 2u32, 1u32),
        ).2 > ARGON2_MAX_LANES ==> r is Err && "Failed to build params: "@.is_prefix_of(
            r->Err_0@,
        ),
        r is Ok ==> ({
            let (m, t, p) = argon2_costs(request, (19456u32, 2u32, 1u32));
            r->Ok_0.hash@ == argon2id_phc(request.password@, r->Ok_0.salt@, m, t, p)
        }),
{
    let salt = resolve_salt(request.salt)?;
    let (dm, dt, dp) = argon2_default_costs();
    let m = match request.memory {
        Some(m) => m,
        None => dm,
    };
    let t = match request.argon2_iterations {
        Some(t) => t,
        None => dt,
    };
    let p = match request.parallelism {
        Some(p) => p,
        None => dp,
    };
    if p > argon2_max_lanes() {
        return Err(prefixed("Failed to build params: ", argon2_too_many_lanes_message()));
    }
    match argon2id_hash(request.password.as_str(), salt.as_str(), m, t, p) {
        Ok(hash) => Ok(PasswordHashResponse { hash, salt }),
        Err(Argon2Failure::Params(e)) => Err(prefixed("Failed to build params: ", e)),
        Err(Argon2Failure::Hash(e)) => Err(prefixed("Failed to hash password: ", e)),
    }
}

/// The bcrypt cost of a request: its `iterations`, or 12.
pub open spec fn bcrypt_cost(request: PasswordHashRequest) -> u32 {
    match request.iterations {
        Some(c) => c,
        None => 12,
    }
}

/// Hashes a password with bcrypt at the request's cost. The salt is part
/// of the hash, so the reported salt only says so.
pub fn hash_bcrypt(request: PasswordHashRequest) -> (r: Result<PasswordHashResponse, String>)
    ensures
        !(4 <= bcrypt_cost(request) <= 31) ==> r is Err,
        r is Ok ==> r->Ok_0.hash@.len() == 60 && r->Ok_0.salt@ == "included_in_hash"@
            && r->Ok_0.hash@.subrange(0, 4) == "$2b$"@ && r->Ok_0.hash@.subrange(4, 6)
            == cost_digits(bcrypt_cost(request)),
        r is Err ==> "Failed to hash password: "@.is_prefix_of(r->Err_0@),
{
    let cost = match request.iterations {
        Some(c) => c,
        None => 12,
    };
    match bcrypt_hash(request.password.as_str(), cost) {
        Ok(hash) => Ok(PasswordHashResponse { hash, salt: String::from_str("included_in_hash") }),
        Err(e) => Err(prefixed("Failed to hash password: ", e)),
    }
}

/// The report of a check whose verdict came from a hash crate: the verdict,
/// or the reason the hash is malformed after `prefix`.
pub open spec fn verify_outcome(
    verdict: Result<bool, Seq<char>>,
    prefix: Seq<char>,
    r: Result<PasswordVerifyResponse, String>,
) -> bool {
    match verdict {
        Ok(b) => r == Ok::<PasswordVerifyResponse, String>(PasswordVerifyResponse { valid: b }),
        Err(e) => r is Err && r->Err_0@ == prefix + e,
    }
}

/// Checks a password against a PBKDF2 PHC string.
pub fn verify_pbkdf2(request: PasswordVerifyRequest) -> (r: Result<PasswordVerifyResponse, String>)
    ensures
        verify_outcome(
            pbkdf2_verdict(request.password@, request.hash@),
            "Invalid hash format: "@,
            r,
        ),
{
    match pbkdf2_check(request.password.as_str(), request.hash.as_str()) {
        Ok(valid) => Ok(PasswordVerifyResponse { valid }),
        Err(e) => Err(prefixed("Invalid hash format: ", e)),
    }
}

/// Checks a password against a scrypt PHC string.
pub fn verify_scrypt(request: PasswordVerifyRequest) -> (r: Result<PasswordVerifyResponse, String>)
    ensures
        verify_outcome(
            scrypt_verdict(request.password@, request.hash@),
            "Invalid hash format: "@,
            r,
        ),
{
    match scrypt_check(request.password.as_str(), request.hash.as_str()) {
        Ok(valid) => Ok(PasswordVerifyResponse { valid }),
        Err(e) => Err(prefixed("Invalid hash format: ", e)),
    }
}

/// A decimal digit.
pub open spec fn is_ascii_digit(c: char) -> bool {
    0x30 <= (c as u32) && (c as u32) <= 0x39
}

/// At `i` the text holds `p=` followed by at least nine digits.
pub open spec fn lane_field_at(h: Seq<char>, i: int) -> bool {
    &&& occurs_at(h, "p="@, i)
    &&& i + 11 <= h.len()
    &&& forall|k: int| 0 <= k < 9 ==> #[trigger] is_ascii_digit(h[i + 2 + k])
}

/// The text names a lane count `p=` of nine digits or more, that is, of
/// at least 10^8: more than any Argon2 hash may use.
pub open spec fn names_large_lane_count(h: Seq<char>) -> bool {
    exists|i: int| lane_field_at(h, i)
}

fn is_digit_char(c: char) -> (r: bool)
    ensures
        r == is_ascii_digit(c),
{
    let v = c as u32;
    0x30 <= v && v <= 0x39
}

fn lane_field_here(t: &Vec<char>, i: usize) -> (r: bool)
    requires
        i + 11 <= t@.len(),
    ensures
        r == lane_field_at(t@, i as int),
{
    proof {
        reveal_strlit("p=");
    }
    let n = t.len();
    if t[i] != 'p' || t[i + 1] != '=' {
        assert(t@.subrange(i as int, i + 2)[0] == t@[i as int]);
        assert(t@.subrange(i as int, i + 2)[1] == t@[i + 1]);
        return false;
    }
    assert(t@.subrange(i as int, i + 2) =~= "p="@);
    let mut k: usize = 0;
    while k < 9
        invariant
            k <= 9,
            n == t@.len(),
            i + 11 <= t@.len(),
            forall|j: int| 0 <= j < k ==> #[trigger] is_ascii_digit(t@[i + 2 + j]),
        decreases 9 - k,
    {
        if !is_digit_char(t[i + 2 + k]) {
            assert(!is_ascii_digit(t@[i + 2 + k as int]));
            return false;
        }
        k += 1;
    }
    true
}

/// Whether the text names a lane count of nine digits or more.
pub fn large_lane_count(h: &str) -> (r: bool)
    ensures
        r == names_large_lane_count(h@),
{
    let t = chars_of(h);
    let n = t.len();
    if n < 11 {
        return false;
    }
    let mut i: usize = 0;
    while i <= n - 11
        invariant
            n == t@.len(),
            t@ == h@,
            11 <= n,
            i <= n - 10,
            forall|j: int| 0 <= j < i ==> !lane_field_at(h@, j),
        decreases n - i,
    {
        if lane_field_here(&t, i) {
            return true;
        }
        i += 1;
    }
    false
}

/// Checks a password against an Argon2 PHC string. A string that names a
/// lane count of nine digits or more cannot verify (no hash may use that
/// many lanes), and the password is reported as not matching.
pub fn verify_argon2(request: PasswordVerifyRequest) -> (r: Result<PasswordVerifyResponse, String>)
    ensures
        names_large_lane_count(request.hash@) ==> r == Ok::<PasswordVerifyResponse, String>(
            PasswordVerifyResponse { valid: false },
        ),
        !names_large_lane_count(request.hash@) ==> verify_outcome(
            argon2_verdict(request.password@, request.hash@),
            "Invalid hash format: "@,
            r,
        ),
{
    if large_lane_count(request.hash.as_str()) {
        return Ok(PasswordVerifyResponse { valid: false });
    }
    match argon2_check(request.password.as_str(), request.hash.as_str()) {
        Ok(valid) => Ok(PasswordVerifyResponse { valid }),
        Err(e) => Err(prefixed("Invalid hash format: ", e)),
    }
}

/// Checks a password against a bcrypt hash.
pub fn verify_bcrypt(request: PasswordVerifyRequest) -> (r: Result<PasswordVerifyResponse, String>)
    ensures
        verify_outcome(
            bcrypt_verdict(request.password@, request.hash@),
            "Failed to verify password: "@,
            r,
        ),
{
    match bcrypt_check(request.password.as_str(), request.hash.as_str()) {
        Ok(valid) => Ok(PasswordVerifyResponse { valid }),
        Err(e) => Err(prefixed("Failed to verify password: ", e)),
    }
}

} // verus!
