//! The hash engine: keyed Argon2id hashing of a password with a fresh salt,
//! and verification of a password against an encoded hash.

use vstd::prelude::*;
use vstd::utf8::*;
use argon2::password_hash::{PasswordHash, PasswordHasher, PasswordVerifier, SaltString};
use argon2::Argon2;
use crate::params::{fixed_params, Argon2Params, ConfigError, HashParams};

verus! {

#[verifier::external_type_specification]
#[verifier::external_body]
pub struct ExArgon2<'k>(Argon2<'k>);

#[verifier::external_type_specification]
#[verifier::external_body]
pub struct ExPasswordHash<'a>(PasswordHash<'a>);

#[verifier::external_type_specification]
#[verifier::external_body]
pub struct ExSaltString(SaltString);

#[verifier::external_type_specification]
#[verifier::external_body]
pub struct ExPasswordHashError(argon2::password_hash::Error);

#[verifier::external_type_specification]
pub struct ExAlgorithm(argon2::Algorithm);

#[verifier::external_type_specification]
pub struct ExVersion(argon2::Version);

/// Largest pepper, in bytes, that Argon2 accepts as its secret key.
pub const MAX_PEPPER_LEN: usize = 0xFFFF_FFFF;

/// Largest password, in bytes, that Argon2 accepts.
pub const MAX_PASSWORD_LEN: usize = 0xFFFF_FFFF;

/// Largest parallelism recorded in an encoded hash that `verify` hands to
/// Argon2: above it, Argon2's `8 * p_cost` would overflow.
pub const MAX_RECORDED_PARALLELISM: u32 = 0x1FFF_FFFF;

/// Why `hash` produced no encoded hash.
#[derive(Clone, Copy, Debug)]
pub enum HashError {
    /// The cost parameters were refused.
    Config(ConfigError),
    /// The keyed Argon2id instance could not be built from the pepper.
    Algorithm(argon2::Error),
    /// Deriving or encoding the digest failed.
    Derivation(argon2::password_hash::Error),
}

/// Why `verify` did not accept the password. `Mismatch` is the ordinary
/// negative outcome; every other variant is a structural failure.
#[derive(Clone, Copy, Debug)]
pub enum VerifyError {
    /// The encoded hash is not in the standard self-describing format.
    Parse(argon2::password_hash::Error),
    /// The cost parameters were refused.
    Config(ConfigError),
    /// The keyed Argon2id instance could not be built from the pepper.
    Algorithm(argon2::Error),
    /// The parallelism recorded in the encoded hash is out of Argon2's range.
    RecordedParams(argon2::Error),
    /// The encoded hash records the parallelism more than once.
    RepeatedParallelism,
    /// The encoded hash names an algorithm, version or parameters that
    /// could not be used to recompute the digest.
    Unusable(argon2::password_hash::Error),
    /// The recomputed digest differs from the one in the encoded hash.
    Mismatch,
}

/// What the comparison of a password against a parsed hash came to.
#[derive(Clone, Copy, Debug)]
pub enum Checked {
    Matched,
    Mismatched,
    Failed(argon2::password_hash::Error),
}

/// An Argon2 instance keyed with a secret, with the plain values it was
/// built from.
pub struct KeyedArgon2<'k> {
    inner: Argon2<'k>,
    secret: Ghost<Seq<u8>>,
    params: Ghost<HashParams>,
    algorithm: Ghost<argon2::Algorithm>,
    version: Ghost<argon2::Version>,
}

impl<'k> KeyedArgon2<'k> {
    pub closed spec fn secret(&self) -> Seq<u8> {
        self.secret@
    }

    pub closed spec fn params(&self) -> HashParams {
        self.params@
    }

    pub closed spec fn algorithm(&self) -> argon2::Algorithm {
        self.algorithm@
    }

    pub closed spec fn version(&self) -> argon2::Version {
        self.version@
    }
}

/// A salt in its B64 text form.
pub struct PasswordSalt {
    inner: SaltString,
    text: Ghost<Seq<char>>,
    drawn: Ghost<bool>,
}

impl PasswordSalt {
    /// The salt was drawn from the operating system's random source: 16
    /// random bytes in B64, which Argon2 always accepts.
    pub closed spec fn drawn(&self) -> bool {
        self.drawn@
    }

    /// The salt's B64 text.
    pub closed spec fn text(&self) -> Seq<char> {
        self.text@
    }

    /// Reads a salt from its B64 text.
    pub fn parse(s: &str) -> (r: Result<PasswordSalt, argon2::password_hash::Error>)
        ensures
            r matches Ok(salt) ==> salt.text() == s@ && !salt.drawn(),
    {
        salt_from_b64(s)
    }

    /// The salt's B64 text.
    pub fn as_text(&self) -> (r: &str)
        ensures
            r@ == self.text(),
    {
        salt_text(self)
    }
}

/// An encoded hash as the password-hash crate parsed it, with its text.
pub struct ParsedHash<'a> {
    inner: PasswordHash<'a>,
    text: Ghost<Seq<char>>,
}

impl<'a> ParsedHash<'a> {
    pub closed spec fn text(&self) -> Seq<char> {
        self.text@
    }
}

/// Whether the password-hash crate parses `s` as an encoded hash.
pub uninterp spec fn phc_parses(s: Seq<char>) -> bool;

/// The decimal value of the `p` parameter that the password-hash crate
/// reads from the encoded hash `s`, if it holds one.
pub uninterp spec fn phc_parallelism(s: Seq<char>) -> Option<u32>;

/// What argon2's verifier reports on checking the password `pwd` against the
/// encoded hash `hashed` under the secret `secret`: `Some(true)` on a match,
/// `Some(false)` on a mismatch, `None` on any other failure. The algorithm,
/// version, parameters and salt all come from `hashed`.
pub uninterp spec fn argon2_check(secret: Seq<u8>, pwd: Seq<u8>, hashed: Seq<char>) -> Option<bool>;

/// The pepper fits Argon2's secret-key limit.
pub open spec fn pepper_fits(pepper: Seq<char>) -> bool {
    encode_utf8(pepper).len() <= MAX_PEPPER_LEN
}

/// The password fits Argon2's password limit.
pub open spec fn password_fits(pwd: Seq<char>) -> bool {
    encode_utf8(pwd).len() <= MAX_PASSWORD_LEN
}

/// The digest length fits the encoded form, which holds 10 to 64 bytes.
pub open spec fn output_len_encodable(config: HashParams) -> bool {
    10 <= config.output_len <= 64
}

/// The tag, version and separators that open every Argon2id hash.
pub open spec fn argon2id_prefix() -> Seq<char> {
    seq!['$', 'a', 'r', 'g', 'o', 'n', '2', 'i', 'd', '$', 'v', '=', '1', '9', '$']
}

/// The names of the parameters recorded in the encoded hash `s`, in order,
/// as the password-hash crate parsed them.
pub uninterp spec fn phc_param_names(s: Seq<char>) -> Seq<Seq<char>>;

/// The B64 text of the Argon2id (version 0x13) digest of `pwd` under `secret`
/// with the B64 salt `salt` and the cost parameters `params`.
pub uninterp spec fn argon2id_digest_b64(
    secret: Seq<u8>,
    pwd: Seq<u8>,
    salt: Seq<char>,
    params: HashParams,
) -> Seq<char>;

/// `names` holds the parallelism's name `p` at most once.
pub open spec fn p_at_most_once(names: Seq<Seq<char>>) -> bool {
    forall|i: int, j: int|
        0 <= i < j < names.len() && names[i] == seq!['p'] ==> names[j] != seq!['p']
}

/// The parallelism is recorded at most once, and then within the range that
/// Argon2 can check.
pub open spec fn recorded_parallelism_checkable(hashed: Seq<char>) -> bool {
    &&& p_at_most_once(phc_param_names(hashed))
    &&& (phc_parallelism(hashed) matches Some(p) ==> p <= MAX_RECORDED_PARALLELISM)
}

/// A character of the B64 alphabet.
pub open spec fn is_b64_char(c: char) -> bool {
    ('A' <= c <= 'Z') || ('a' <= c <= 'z') || ('0' <= c <= '9') || c == '+' || c == '/'
}

/// The decimal digits of `n`.
pub open spec fn decimal(n: nat) -> Seq<char>
    decreases n,
{
    if n < 10 {
        seq![(n + 48) as char]
    } else {
        decimal(n / 10).push(((n % 10) + 48) as char)
    }
}

/// The recorded cost parameters: `m=<memory>,t=<iterations>,p=<parallelism>`.
pub open spec fn params_text(params: HashParams) -> Seq<char> {
    seq!['m', '='] + decimal(params.memory_cost_kib as nat) + seq![',', 't', '='] + decimal(
        params.iterations as nat,
    ) + seq![',', 'p', '='] + decimal(params.parallelism as nat)
}

/// The encoded Argon2id hash with the given cost parameters, salt text and
/// digest text.
pub open spec fn phc_text(params: HashParams, salt: Seq<char>, digest: Seq<char>) -> Seq<char> {
    argon2id_prefix() + params_text(params) + seq!['$'] + salt + seq!['$'] + digest
}

/// Relies on argon2::Argon2::new_with_secret: it fails, with
/// `SecretTooLong`, exactly when the secret is longer than `MAX_PEPPER_LEN`
/// bytes, and otherwise keeps the secret, algorithm, version and parameters.
#[verifier::external_body]
fn keyed_argon2<'k>(
    pepper: &'k [u8],
    algorithm: argon2::Algorithm,
    version: argon2::Version,
    params: Argon2Params,
) -> (r: Result<KeyedArgon2<'k>, argon2::Error>)
    ensures
        r is Ok <==> pepper@.len() <= MAX_PEPPER_LEN,
        r matches Err(e) ==> e == argon2::Error::SecretTooLong,
        r matches Ok(k) ==> k.secret() == pepper@ && k.params() == params.values()
            && k.algorithm() == algorithm && k.version() == version,
{
    let values = Ghost(params.values());
    match Argon2::new_with_secret(pepper, algorithm, version, params.into_argon2()) {
        Ok(inner) => Ok(KeyedArgon2 {
            inner,
            secret: Ghost(pepper@),
            params: values,
            algorithm: Ghost(algorithm),
            version: Ghost(version),
        }),
        Err(e) => Err(e),
    }
}

/// The keyed Argon2id instance, version 0x13, under `pepper`.
fn keyed_argon2id<'k>(pepper: &'k [u8], params: Argon2Params) -> (r: Result<KeyedArgon2<'k>, argon2::Error>)
    ensures
        r is Ok <==> pepper@.len() <= MAX_PEPPER_LEN,
        r matches Err(e) ==> e == argon2::Error::SecretTooLong,
        r matches Ok(k) ==> k.secret() == pepper@ && k.params() == params.values()
            && k.algorithm() == argon2::Algorithm::Argon2id && k.version() == argon2::Version::V0x13,
{
    keyed_argon2(pepper, argon2::Algorithm::Argon2id, argon2::Version::V0x13, params)
}

/// Relies on password_hash::SaltString::generate with the operating system's
/// random source: 16 fresh random bytes, as 22 B64 characters, on every call.
#[verifier::external_body]
fn fresh_salt() -> (r: PasswordSalt)
    ensures
        r.drawn(),
        r.text().len() == 22,
        forall|i: int| 0 <= i < r.text().len() ==> is_b64_char(#[trigger] r.text()[i]),
{
    let inner = SaltString::generate(&mut argon2::password_hash::rand_core::OsRng);
    let text = Ghost(inner.as_str()@);
    PasswordSalt { inner, text, drawn: Ghost(true) }
}

/// Relies on password_hash::SaltString::from_b64, which reads a salt from
/// its B64 text.
#[verifier::external_body]
fn salt_from_b64(s: &str) -> (r: Result<PasswordSalt, argon2::password_hash::Error>)
    ensures
        r matches Ok(salt) ==> salt.text() == s@ && !salt.drawn(),
{
    match SaltString::from_b64(s) {
        Ok(inner) => Ok(PasswordSalt { inner, text: Ghost(s@), drawn: Ghost(false) }),
        Err(e) => Err(e),
    }
}

/// Relies on password_hash::SaltString::as_str: the salt's B64 text.
#[verifier::external_body]
fn salt_text(salt: &PasswordSalt) -> (r: &str)
    ensures
        r@ == salt.text(),
{
    salt.inner.as_str()
}

/// Relies on PasswordHasher::hash_password of argon2 and the `Display` of
/// password_hash::PasswordHash. It fails for a password over
/// `MAX_PASSWORD_LEN` bytes, and succeeds for a drawn salt, a digest length
/// the encoded form holds and a password within that limit. What it returns
/// parses, records the parameters `m`, `t`, `p` once each, passes argon2's
/// verifier under the same secret and password, and gets a verdict from it
/// under every secret within the limit (an over-long password reads as a
/// mismatch). For Argon2id version 0x13 it is the tag, version, recorded
/// parameters, salt text and B64 digest, the digest holding
/// `ceil(4 * output_len / 3)` B64 characters.
#[verifier::external_body]
fn hash_to_phc(argon2: &KeyedArgon2, pwd: &[u8], salt: &PasswordSalt) -> (r: Result<
    String,
    argon2::password_hash::Error,
>)
    ensures
        pwd@.len() > MAX_PASSWORD_LEN ==> r is Err,
        salt.drawn() && output_len_encodable(argon2.params()) && pwd@.len() <= MAX_PASSWORD_LEN
            ==> r is Ok,
        r matches Ok(s) ==> phc_parses(s@) && phc_parallelism(s@) == Some(
            argon2.params().parallelism,
        ) && argon2_check(argon2.secret(), pwd@, s@) == Some(true),
        r matches Ok(s) ==> phc_param_names(s@) == seq![seq!['m'], seq!['t'], seq!['p']],
        r matches Ok(s) ==> forall|secret: Seq<u8>, other: Seq<u8>|
            secret.len() <= MAX_PEPPER_LEN ==> (#[trigger] argon2_check(secret, other, s@)) is Some,
        r matches Ok(s) ==> (argon2.algorithm() == argon2::Algorithm::Argon2id && argon2.version()
            == argon2::Version::V0x13 ==> {
            let digest = argon2id_digest_b64(argon2.secret(), pwd@, salt.text(), argon2.params());
            &&& s@ == phc_text(argon2.params(), salt.text(), digest)
            &&& digest.len() == (4 * argon2.params().output_len + 2) / 3
            &&& forall|i: int| 0 <= i < digest.len() ==> is_b64_char(#[trigger] digest[i])
        }),
{
    argon2.inner.hash_password(pwd, &salt.inner).map(|h| h.to_string())
}

/// Relies on password_hash::PasswordHash::new: whether it parses depends on
/// the string alone, and an empty string or one that does not start with `$`
/// is refused.
#[verifier::external_body]
fn parse_phc(s: &str) -> (r: Result<ParsedHash<'_>, argon2::password_hash::Error>)
    ensures
        r is Ok <==> phc_parses(s@),
        s@.len() == 0 || s@[0] != '$' ==> r is Err,
        r matches Ok(h) ==> h.text() == s@,
{
    match PasswordHash::new(s) {
        Ok(inner) => Ok(ParsedHash { inner, text: Ghost(s@) }),
        Err(e) => Err(e),
    }
}

/// Relies on password_hash::ParamsString::iter and Ident::as_str: the names
/// of the recorded parameters, in order.
#[verifier::external_body]
fn recorded_param_names(parsed: &ParsedHash) -> (r: Vec<String>)
    ensures
        r@.len() == phc_param_names(parsed.text()).len(),
        forall|i: int|
            0 <= i < r@.len() ==> (#[trigger] r@[i])@ == phc_param_names(parsed.text())[i],
{
    parsed.inner.params.iter().map(|(name, _)| name.as_str().to_string()).collect()
}

/// Whether `names` holds the name `p` at most once.
pub fn p_named_at_most_once(names: &Vec<String>) -> (r: bool)
    ensures
        r == p_at_most_once(names@.map_values(|n: String| n@)),
{
    let ghost view = names@.map_values(|n: String| n@);
    let mut seen: bool = false;
    let mut i: usize = 0;
    while i < names.len()
        invariant
            0 <= i <= names.len(),
            view == names@.map_values(|n: String| n@),
            p_at_most_once(view.take(i as int)),
            seen <==> exists|k: int| 0 <= k < i && view[k] == seq!['p'],
        decreases names.len() - i,
    {
        let name = names[i].as_str();
        let is_p = name.unicode_len() == 1 && name.get_char(0) == 'p';
        assert(is_p <==> view[i as int] == seq!['p']) by {
            if view[i as int] =~= seq!['p'] {
                assert(name@ =~= seq!['p']);
            }
            if is_p {
                assert(name@ =~= seq!['p']);
            }
        }
        if is_p && seen {
            assert(!p_at_most_once(view)) by {
                let k = choose|k: int| 0 <= k < i && view[k] == seq!['p'];
                assert(view[k] == seq!['p'] && view[i as int] == seq!['p']);
            }
            return false;
        }
        assert(p_at_most_once(view.take(i + 1))) by {
            let t = view.take(i + 1);
            let u = view.take(i as int);
            assert forall|a: int, b: int|
                #![trigger t[a], t[b]]
                0 <= a < b < t.len() && t[a] == seq!['p'] implies t[b] != seq!['p'] by {
                if b < i {
                    assert(u[a] == t[a] && u[b] == t[b]);
                } else if t[b] == seq!['p'] {
                    assert(u[a] == t[a]);
                }
            }
        }
        if is_p {
            seen = true;
        }
        i = i + 1;
    }
    assert(view.take(i as int) =~= view);
    true
}

/// Relies on password_hash::ParamsString::get_decimal: the decimal value of
/// the first `p` parameter recorded in the hash.
#[verifier::external_body]
fn recorded_parallelism(parsed: &ParsedHash) -> (r: Option<u32>)
    ensures
        r == phc_parallelism(parsed.text()),
{
    parsed.inner.params.get_decimal("p")
}

/// Relies on PasswordVerifier::verify_password of argon2: it recomputes the
/// digest from the algorithm, version, parameters and salt recorded in the
/// hash under this instance's secret, compares it in constant time, and
/// reports a non-match as `Error::Password`. Argon2 reads every recorded `p`
/// and keeps the last; a value over `MAX_RECORDED_PARALLELISM` would overflow
/// inside it. So hashes that record `p` twice, or one `p` over that bound,
/// are left out.
#[verifier::external_body]
fn check_password(argon2: &KeyedArgon2, pwd: &[u8], parsed: &ParsedHash) -> (r: Checked)
    requires
        recorded_parallelism_checkable(parsed.text()),
    ensures
        r is Matched <==> argon2_check(argon2.secret(), pwd@, parsed.text()) == Some(true),
        r is Mismatched <==> argon2_check(argon2.secret(), pwd@, parsed.text()) == Some(false),
{
    match argon2.inner.verify_password(pwd, &parsed.inner) {
        Ok(()) => Checked::Matched,
        Err(argon2::password_hash::Error::Password) => Checked::Mismatched,
        Err(e) => Checked::Failed(e),
    }
}

/// The result of `verify` once the comparison came to `c`.
pub open spec fn verdict_of(c: Checked) -> Result<(), VerifyError> {
    match c {
        Checked::Matched => Ok(()),
        Checked::Mismatched => Err(VerifyError::Mismatch),
        Checked::Failed(e) => Err(VerifyError::Unusable(e)),
    }
}

/// Turns the outcome of the comparison into the result of `verify`.
pub fn verdict(c: Checked) -> (r: Result<(), VerifyError>)
    ensures
        r == verdict_of(c),
{
    match c {
        Checked::Matched => Ok(()),
        Checked::Mismatched => Err(VerifyError::Mismatch),
        Checked::Failed(e) => Err(VerifyError::Unusable(e)),
    }
}

/// What a hash operation under `config`, `pepper` and `pwd` may return,
/// whatever salt it used: each failure of the library's own making exactly
/// when its cause holds; and an encoded hash that starts with the Argon2id tag,
/// parses, records the configured parallelism, and passes Argon2's verifier
/// under the same pepper and password.
pub open spec fn hash_outcome(
    config: HashParams,
    pepper: Seq<char>,
    pwd: Seq<char>,
    r: Result<String, HashError>,
) -> bool {
    &&& (r matches Err(HashError::Config(e)) <==> !config.valid())
    &&& (r matches Err(HashError::Config(e)) ==> Some(e.cause) == config.first_broken_rule())
    &&& (r matches Err(HashError::Algorithm(e)) <==> config.valid() && !pepper_fits(pepper))
    &&& (r matches Err(HashError::Algorithm(e)) ==> e == argon2::Error::SecretTooLong)
    &&& (config.valid() && pepper_fits(pepper) && !password_fits(pwd) ==> r is Err)
    &&& (r is Ok ==> config.valid() && pepper_fits(pepper) && password_fits(pwd))
    &&& (r matches Ok(s) ==> argon2id_prefix().is_prefix_of(s@) && phc_parses(s@)
        && phc_parallelism(s@) == Some(config.parallelism) && phc_param_names(s@) == seq![
        seq!['m'],
        seq!['t'],
        seq!['p'],
    ] && argon2_check(encode_utf8(pepper), encode_utf8(pwd), s@) == Some(true))
    &&& (r matches Ok(s) ==> forall|secret: Seq<u8>, other: Seq<u8>|
        secret.len() <= MAX_PEPPER_LEN ==> (#[trigger] argon2_check(secret, other, s@)) is Some)
}

/// `s` is the encoded Argon2id hash of `pwd` under `pepper` with the cost
/// parameters `config` and the B64 salt `salt`: tag, version, recorded
/// parameters, the salt text, and the B64 digest of `ceil(4 * output_len / 3)`
/// characters.
pub open spec fn salted_form(
    config: HashParams,
    pepper: Seq<char>,
    pwd: Seq<char>,
    salt: Seq<char>,
    s: Seq<char>,
) -> bool {
    let digest = argon2id_digest_b64(encode_utf8(pepper), encode_utf8(pwd), salt, config);
    &&& s == phc_text(config, salt, digest)
    &&& digest.len() == (4 * config.output_len + 2) / 3
    &&& forall|i: int| 0 <= i < digest.len() ==> is_b64_char(#[trigger] digest[i])
}

/// A salt as `hash` draws it: 22 B64 characters.
pub open spec fn drawn_salt_text(salt: Seq<char>) -> bool {
    salt.len() == 22 && forall|i: int| 0 <= i < salt.len() ==> is_b64_char(#[trigger] salt[i])
}

/// A hash operation with a drawn salt is owed success.
pub open spec fn hash_owed(config: HashParams, pepper: Seq<char>, pwd: Seq<char>) -> bool {
    config.valid() && output_len_encodable(config) && pepper_fits(pepper) && password_fits(pwd)
}

/// What a verify operation under `config` and `pepper` of `pwd` against
/// `hashed` may return: a parse failure exactly when the password-hash crate
/// refuses `hashed`; then each failure of the library's own making exactly
/// when its cause holds; and otherwise what Argon2's verifier reports.
pub open spec fn verify_outcome(
    config: HashParams,
    pepper: Seq<char>,
    pwd: Seq<char>,
    hashed: Seq<char>,
    r: Result<(), VerifyError>,
) -> bool {
    &&& (r matches Err(VerifyError::Parse(_)) <==> !phc_parses(hashed))
    &&& (hashed.len() == 0 || hashed[0] != '$' ==> r matches Err(VerifyError::Parse(_)))
    &&& (r matches Err(VerifyError::Config(e)) <==> phc_parses(hashed) && !config.valid())
    &&& (r matches Err(VerifyError::Config(e)) ==> Some(e.cause) == config.first_broken_rule())
    &&& (r matches Err(VerifyError::Algorithm(e)) <==> phc_parses(hashed) && config.valid()
        && !pepper_fits(pepper))
    &&& (r matches Err(VerifyError::Algorithm(e)) ==> e == argon2::Error::SecretTooLong)
    &&& (r matches Err(VerifyError::RepeatedParallelism) <==> phc_parses(hashed) && config.valid()
        && pepper_fits(pepper) && !p_at_most_once(phc_param_names(hashed)))
    &&& (r matches Err(VerifyError::RecordedParams(e)) <==> phc_parses(hashed) && config.valid()
        && pepper_fits(pepper) && p_at_most_once(phc_param_names(hashed))
        && !recorded_parallelism_checkable(hashed))
    &&& (r matches Err(VerifyError::RecordedParams(e)) ==> e == argon2::Error::ThreadsTooMany)
    &&& (phc_parses(hashed) && config.valid() && pepper_fits(pepper)
        && recorded_parallelism_checkable(hashed) ==> {
        &&& (r is Ok <==> argon2_check(encode_utf8(pepper), encode_utf8(pwd), hashed) == Some(true))
        &&& (r matches Err(VerifyError::Mismatch) <==> argon2_check(
            encode_utf8(pepper),
            encode_utf8(pwd),
            hashed,
        ) == Some(false))
    })
    &&& (r is Ok ==> phc_parses(hashed) && config.valid() && pepper_fits(pepper))
}

/// Hashes `pwd` under the secret `pepper` with the given salt and the cost
/// parameters `config`, and returns the encoded hash.
pub fn hash_with_salt(config: &HashParams, pepper: &str, pwd: &str, salt: &PasswordSalt) -> (r:
    Result<String, HashError>)
    ensures
        hash_outcome(*config, pepper@, pwd@, r),
        salt.drawn() && hash_owed(*config, pepper@, pwd@) ==> r is Ok,
        r matches Ok(s) ==> salted_form(*config, pepper@, pwd@, salt.text(), s@),
{
    let params = match config.to_argon2() {
        Ok(p) => p,
        Err(e) => return Err(HashError::Config(e)),
    };
    let argon2 = match keyed_argon2id(pepper.as_bytes(), params) {
        Ok(a) => a,
        Err(e) => return Err(HashError::Algorithm(e)),
    };
    match hash_to_phc(&argon2, pwd.as_bytes(), salt) {
        Ok(s) => Ok(s),
        Err(e) => Err(HashError::Derivation(e)),
    }
}

/// Hashes `pwd` under the secret `pepper` with a fresh random salt and the
/// cost parameters `config`.
pub fn hash_with(config: &HashParams, pepper: &str, pwd: &str) -> (r: Result<String, HashError>)
    ensures
        hash_outcome(*config, pepper@, pwd@, r),
        hash_owed(*config, pepper@, pwd@) ==> r is Ok,
        r matches Ok(s) ==> exists|salt: Seq<char>|
            drawn_salt_text(salt) && salted_form(*config, pepper@, pwd@, salt, s@),
{
    let salt = fresh_salt();
    let r = hash_with_salt(config, pepper, pwd, &salt);
    proof {
        if r is Ok {
            assert(drawn_salt_text(salt.text()));
        }
    }
    r
}

/// Hashes `pwd` under the secret `pepper` with a fresh random salt and the
/// fixed cost parameters, which always pass Argon2's rules.
pub fn hash(pepper: String, pwd: String) -> (r: Result<String, HashError>)
    ensures
        hash_outcome(fixed_params(), pepper@, pwd@, r),
        pepper_fits(pepper@) && password_fits(pwd@) <==> r is Ok,
        r matches Ok(s) ==> exists|salt: Seq<char>|
            drawn_salt_text(salt) && salted_form(fixed_params(), pepper@, pwd@, salt, s@),
{
    let config = HashParams::fixed();
    hash_with(&config, pepper.as_str(), pwd.as_str())
}

/// Checks `pwd` under the secret `pepper` against the encoded hash `hashed`.
/// The salt, algorithm and cost parameters of the derivation are those
/// recorded in `hashed`; `config` must pass Argon2's rules for the keyed
/// instance to be built.
pub fn verify_with(config: &HashParams, pepper: &str, pwd: &str, hashed: &str) -> (r: Result<
    (),
    VerifyError,
>)
    ensures
        verify_outcome(*config, pepper@, pwd@, hashed@, r),
{
    let parsed = match parse_phc(hashed) {
        Ok(h) => h,
        Err(e) => return Err(VerifyError::Parse(e)),
    };
    let params = match config.to_argon2() {
        Ok(p) => p,
        Err(e) => return Err(VerifyError::Config(e)),
    };
    let argon2 = match keyed_argon2id(pepper.as_bytes(), params) {
        Ok(a) => a,
        Err(e) => return Err(VerifyError::Algorithm(e)),
    };
    let names = recorded_param_names(&parsed);
    if !p_named_at_most_once(&names) {
        return Err(VerifyError::RepeatedParallelism);
    }
    assert(names@.map_values(|n: String| n@) =~= phc_param_names(parsed.text()));
    match recorded_parallelism(&parsed) {
        Some(p) => {
            if p > MAX_RECORDED_PARALLELISM {
                return Err(VerifyError::RecordedParams(argon2::Error::ThreadsTooMany));
            }
        },
        None => {},
    }
    verdict(check_password(&argon2, pwd.as_bytes(), &parsed))
}

/// Checks `pwd` under the secret `pepper` against the encoded hash
/// `hashed_pwd`, with the fixed cost parameters.
pub fn verify(pepper: String, pwd: String, hashed_pwd: String) -> (r: Result<(), VerifyError>)
    ensures
        verify_outcome(fixed_params(), pepper@, pwd@, hashed_pwd@, r),
        !(r matches Err(VerifyError::Config(_))),
{
    let config = HashParams::fixed();
    verify_with(&config, pepper.as_str(), pwd.as_str(), hashed_pwd.as_str())
}

/// Round trip: a password checked against a hash made from it under the
/// same pepper and cost parameters is accepted.
pub proof fn lemma_round_trip(
    config: HashParams,
    pepper: Seq<char>,
    pwd: Seq<char>,
    hashed: String,
    r: Result<(), VerifyError>,
)
    requires
        hash_outcome(config, pepper, pwd, Ok(hashed)),
        verify_outcome(config, pepper, pwd, hashed@, r),
    ensures
        r is Ok,
{
    lemma_argon2_names_p_once();
}

/// The parameter names Argon2 records name `p` once.
proof fn lemma_argon2_names_p_once()
    ensures
        p_at_most_once(seq![seq!['m'], seq!['t'], seq!['p']]),
{
    let names = seq![seq!['m'], seq!['t'], seq!['p']];
    assert(names[0] != seq!['p']) by {
        assert(names[0][0] != seq!['p'][0]);
    }
    assert(names[1] != seq!['p']) by {
        assert(names[1][0] != seq!['p'][0]);
    }
}

/// On a hash this library made, `verify` under any pepper within Argon2's
/// limit and any valid configuration only ever reports a match or a mismatch,
/// never a structural failure.
pub proof fn lemma_made_hash_decides(
    config: HashParams,
    pepper: Seq<char>,
    pwd: Seq<char>,
    hashed: String,
    other_config: HashParams,
    other_pepper: Seq<char>,
    other_pwd: Seq<char>,
    r: Result<(), VerifyError>,
)
    requires
        hash_outcome(config, pepper, pwd, Ok(hashed)),
        verify_outcome(other_config, other_pepper, other_pwd, hashed@, r),
        other_config.valid(),
        pepper_fits(other_pepper),
    ensures
        r is Ok || r matches Err(VerifyError::Mismatch),
{
    lemma_argon2_names_p_once();
    let c = argon2_check(encode_utf8(other_pepper), encode_utf8(other_pwd), hashed@);
    assert(c is Some);
    if c == Some(true) {
        assert(r is Ok);
    } else {
        assert(c == Some(false));
        assert(r matches Err(VerifyError::Mismatch));
    }
}

/// The salt stands in the encoded hash: two hashes with the same cost
/// parameters and salts of one length are equal up to the end of the salt
/// exactly when the salts are equal, so different salts give different hashes.
pub proof fn lemma_salt_in_hash(
    config: HashParams,
    pepper1: Seq<char>,
    pwd1: Seq<char>,
    salt1: Seq<char>,
    s1: Seq<char>,
    pepper2: Seq<char>,
    pwd2: Seq<char>,
    salt2: Seq<char>,
    s2: Seq<char>,
)
    requires
        salted_form(config, pepper1, pwd1, salt1, s1),
        salted_form(config, pepper2, pwd2, salt2, s2),
        salt1.len() == salt2.len(),
    ensures
        ({
            let k = (argon2id_prefix().len() + params_text(config).len() + 1 + salt1.len() + 1) as int;
            s1.take(k) == s2.take(k) <==> salt1 == salt2
        }),
        salt1 != salt2 ==> s1 != s2,
{
    let head = argon2id_prefix() + params_text(config) + seq!['$'];
    let k0 = head.len() as int;
    let k = k0 + salt1.len() + 1;
    let d1 = argon2id_digest_b64(encode_utf8(pepper1), encode_utf8(pwd1), salt1, config);
    let d2 = argon2id_digest_b64(encode_utf8(pepper2), encode_utf8(pwd2), salt2, config);
    assert(s1 =~= head + salt1 + seq!['$'] + d1);
    assert(s2 =~= head + salt2 + seq!['$'] + d2);
    assert(s1.take(k) =~= head + salt1 + seq!['$']);
    assert(s2.take(k) =~= head + salt2 + seq!['$']);
    assert(s1.take(k).subrange(k0, k0 + salt1.len()) =~= salt1);
    assert(s2.take(k).subrange(k0, k0 + salt2.len()) =~= salt2);
    if salt1 != salt2 {
        assert(s1.subrange(k0, k0 + salt1.len()) =~= salt1);
        assert(s2.subrange(k0, k0 + salt2.len()) =~= salt2);
    }
}

/// With the fixed configuration and a drawn salt, the encoded hash is
/// `$argon2id$v=19$m=1024,t=1,p=1$`, 22 salt characters, `$` and a 43-character
/// digest: 96 characters in all.
pub proof fn lemma_fixed_shape(pepper: Seq<char>, pwd: Seq<char>, salt: Seq<char>, s: Seq<char>)
    requires
        drawn_salt_text(salt),
        salted_form(fixed_params(), pepper, pwd, salt, s),
    ensures
        params_text(fixed_params()) == seq!['m', '=', '1', '0', '2', '4', ',', 't', '=', '1', ',', 'p', '=', '1'],
        s.len() == 96,
        s.subrange(30, 52) == salt,
        argon2id_digest_b64(encode_utf8(pepper), encode_utf8(pwd), salt, fixed_params()).len() == 43,
{
    reveal_with_fuel(decimal, 5);
    let d = argon2id_digest_b64(encode_utf8(pepper), encode_utf8(pwd), salt, fixed_params());
    assert(decimal(1024) =~= seq!['1', '0', '2', '4']);
    assert(decimal(1) =~= seq!['1']);
    assert(params_text(fixed_params()) =~= seq!['m', '=', '1', '0', '2', '4', ',', 't', '=', '1', ',', 'p', '=', '1']);
    let head = argon2id_prefix() + params_text(fixed_params()) + seq!['$'];
    assert(head.len() == 30);
    assert(s =~= head + salt + seq!['$'] + d);
    assert(s.subrange(30, 52) =~= salt);
}

} // verus!
