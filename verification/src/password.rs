//! The password hasher: Argon2id over a fresh random salt, and the check of
//! a password against a stored hash.

use vstd::prelude::*;
use argon2::{PasswordHasher, PasswordVerifier};
use crate::config::{AuthConfig, HashCost};
use crate::error::AuthError;
use crate::table::lemma_filter_step;

verus! {

/// The error type of the `password-hash` crate, as `argon2` re-exports it.
#[verifier::external_type_specification]
#[verifier::external_body]
pub struct ExPasswordHashError(argon2::password_hash::Error);

/// The longest password that Argon2 takes, in bytes.
pub const MAX_PASSWORD_BYTES: usize = 0xFFFF_FFFF;

/// The shortest salt that Argon2 takes, in bytes.
pub const MIN_SALT_BYTES: usize = 8;

/// The number of bytes in a freshly drawn salt.
pub const FRESH_SALT_BYTES: usize = 16;

/// The PHC string that Argon2id (version 0x13, 32 bytes of output, no
/// secret) gives for a password, a B64 salt and a cost; `None` where it
/// refuses them.
pub uninterp spec fn argon2_phc(
    password: Seq<char>,
    salt: Seq<char>,
    memory_kib: u32,
    iterations: u32,
    lanes: u32,
) -> Option<Seq<char>>;

/// Whether Argon2, run with the salt and parameters that `phc` embeds,
/// reproduces the output that `phc` embeds. False where `phc` does not parse.
pub uninterp spec fn argon2_accepts(password: Seq<char>, phc: Seq<char>) -> bool;

/// The parameters that a PHC string lists, in their order: each with its
/// name and, where its value is a decimal, that number. `None` where the
/// string does not parse.
pub uninterp spec fn phc_listed_params(phc: Seq<char>) -> Option<Seq<(Seq<char>, Option<u32>)>>;

/// The number of bytes that a salt string decodes to; `None` where it is
/// no B64 salt.
pub uninterp spec fn salt_byte_count(salt: Seq<char>) -> Option<nat>;

/// Parameters whose name is the one letter `key`.
pub open spec fn named(key: char) -> spec_fn((Seq<char>, Option<u32>)) -> bool {
    |pair: (Seq<char>, Option<u32>)| pair.0 == seq![key]
}

/// The number that `pairs` give under `key`, where exactly one pair has
/// that name and its value is a decimal.
pub open spec fn spec_param(pairs: Seq<(Seq<char>, Option<u32>)>, key: char) -> Option<u32> {
    let found = pairs.filter(named(key));
    if found.len() == 1 {
        found[0].1
    } else {
        None
    }
}

/// The cost that `pairs` state: memory under `m`, passes under `t`, lanes
/// under `p`, each listed exactly once.
pub open spec fn spec_cost_of(pairs: Seq<(Seq<char>, Option<u32>)>) -> Option<HashCost> {
    match (spec_param(pairs, 'm'), spec_param(pairs, 't'), spec_param(pairs, 'p')) {
        (Some(memory_kib), Some(iterations), Some(lanes)) => Some(
            HashCost { memory_kib, iterations, lanes },
        ),
        _ => None,
    }
}

/// The cost that a PHC string embeds; `None` where the string does not
/// parse, or does not list each of `m`, `t` and `p` exactly once. With each
/// listed once, this is the cost that a verification runs with.
pub open spec fn phc_embedded_cost(phc: Seq<char>) -> Option<HashCost> {
    match phc_listed_params(phc) {
        Some(pairs) => spec_cost_of(pairs),
        None => None,
    }
}

/// The parameters that a hash made at `cost` lists.
pub open spec fn listed(cost: HashCost) -> Seq<(Seq<char>, Option<u32>)> {
    seq![
        (seq!['m'], Some(cost.memory_kib)),
        (seq!['t'], Some(cost.iterations)),
        (seq!['p'], Some(cost.lanes)),
    ]
}

/// The views of a run of parameters.
pub open spec fn pairs_view(pairs: Seq<(String, Option<u32>)>) -> Seq<(Seq<char>, Option<u32>)> {
    pairs.map_values(|pair: (String, Option<u32>)| (pair.0@, pair.1))
}

/// The password is one the hasher takes: not empty, and no longer than
/// `MAX_PASSWORD_BYTES` in UTF-8.
pub open spec fn hashable(password: Seq<char>) -> bool {
    password.len() > 0 && vstd::utf8::encode_utf8(password).len() <= MAX_PASSWORD_BYTES
}

/// The salt is one the hasher takes: B64 of at least `MIN_SALT_BYTES`
/// bytes.
pub open spec fn usable_salt(salt: Seq<char>) -> bool {
    salt_byte_count(salt) matches Some(n) && n >= MIN_SALT_BYTES
}

/// Draws a salt: sixteen bytes from the operating system's generator, in
/// B64.
///
/// Calls `SaltString::generate` of `password-hash` with `rand_core::OsRng`.
/// The result is random; what holds of every draw is that it is the B64 of
/// sixteen bytes. `OsRng` panics where the operating system's generator
/// fails.
#[verifier::external_body]
fn fresh_salt() -> (salt: String)
    ensures
        salt_byte_count(salt@) == Some(FRESH_SALT_BYTES as nat),
{
    argon2::password_hash::SaltString::generate(&mut rand_core::OsRng).as_str().to_string()
}

/// Hashes `password` with `salt` at `cost`.
///
/// Calls `Argon2::hash_password` of `argon2` on a context made by
/// `Argon2::from(Params::new(..))`, and renders the result as a PHC string.
/// The contract names the result, and adds what the crate's source shows:
/// the call succeeds on a password of at most `MAX_PASSWORD_BYTES` bytes
/// with a salt of at least `MIN_SALT_BYTES` bytes; the PHC string lists
/// `m`, `t` and `p`, once each, with the cost it was made at; and
/// `verify_password` recomputes the hash from what the string embeds, so it
/// accepts the same password again. The cost must be valid: `Params::new`
/// multiplies the lane count by eight without a check.
#[verifier::external_body]
fn argon2_hash(password: &str, salt: &str, cost: HashCost) -> (res: Result<
    String,
    argon2::password_hash::Error,
>)
    requires
        cost.spec_is_valid(),
    ensures
        res is Ok <==> argon2_phc(
            password@,
            salt@,
            cost.memory_kib,
            cost.iterations,
            cost.lanes,
        ) is Some,
        usable_salt(salt@) && vstd::utf8::encode_utf8(password@).len() <= MAX_PASSWORD_BYTES
            ==> res is Ok,
        res matches Ok(h) ==> {
            &&& argon2_phc(password@, salt@, cost.memory_kib, cost.iterations, cost.lanes)
                == Some(h@)
            &&& phc_listed_params(h@) == Some(listed(cost))
            &&& argon2_accepts(password@, h@)
        },
{
    let salt = argon2::password_hash::SaltString::from_b64(salt)?;
    let params = argon2::Params::new(cost.memory_kib, cost.iterations, cost.lanes, None)?;
    let hash = argon2::Argon2::from(params).hash_password(password.as_bytes(), &salt)?;
    Ok(hash.to_string())
}

/// Lists the parameters of a PHC string.
///
/// Calls `PasswordHash::new` of `password-hash`, walks the parameters with
/// `ParamsString::iter`, and reads each value with `Value::decimal`.
#[verifier::external_body]
fn phc_params(phc: &str) -> (res: Option<Vec<(String, Option<u32>)>>)
    ensures
        res is Some <==> phc_listed_params(phc@) is Some,
        res matches Some(pairs) ==> phc_listed_params(phc@) == Some(pairs_view(pairs@)),
{
    let parsed = argon2::password_hash::PasswordHash::new(phc).ok()?;
    let mut pairs = Vec::new();
    for (name, value) in parsed.params.iter() {
        pairs.push((name.as_str().to_string(), value.decimal().ok()));
    }
    Some(pairs)
}

/// Checks `password` against the PHC string `phc`.
///
/// Calls `PasswordHash::new` and `Argon2::verify_password`. The call reads
/// the cost from the parameters of the string, allocates the memory they
/// ask for and multiplies the lane count by eight without a check; so each
/// of `m`, `t` and `p` must be listed once, with a valid cost.
#[verifier::external_body]
fn argon2_verify(password: &str, phc: &str) -> (res: Result<(), argon2::password_hash::Error>)
    requires
        phc_embedded_cost(phc@) matches Some(cost) && cost.spec_is_valid(),
    ensures
        res is Ok <==> argon2_accepts(password@, phc@),
{
    let parsed = argon2::password_hash::PasswordHash::new(phc)?;
    argon2::Argon2::default().verify_password(password.as_bytes(), &parsed)
}

/// A hash made at `cost` embeds that cost.
pub proof fn lemma_cost_of_listed(cost: HashCost)
    ensures
        spec_cost_of(listed(cost)) == Some(cost),
{
    let pairs = listed(cost);
    assert(seq!['m'][0] != seq!['t'][0]);
    assert(seq!['m'][0] != seq!['p'][0]);
    assert(seq!['t'][0] != seq!['p'][0]);
    assert(pairs.take(0) =~= Seq::<(Seq<char>, Option<u32>)>::empty());
    assert(pairs.take(3) =~= pairs);
    assert forall|key: char| key == 'm' || key == 't' || key == 'p' implies spec_param(pairs, key)
        == (if key == 'm' {
        pairs[0].1
    } else if key == 't' {
        pairs[1].1
    } else {
        pairs[2].1
    }) by {
        reveal(Seq::filter);
        assert(pairs.take(0).filter(named(key)).len() == 0);
        lemma_filter_step(pairs, named(key), 0);
        lemma_filter_step(pairs, named(key), 1);
        lemma_filter_step(pairs, named(key), 2);
    }
}

/// Whether `name` is the one letter `key`.
fn is_named(name: &String, key: char) -> (yes: bool)
    ensures
        yes == (name@ == seq![key]),
{
    let text = name.as_str();
    let yes = text.unicode_len() == 1 && text.get_char(0) == key;
    proof {
        if yes {
            assert(name@ =~= seq![key]);
        } else if name@.len() == 1 {
            assert(seq![key][0] == key);
        }
    }
    yes
}

/// Reads the number under `key`, where exactly one parameter has that name.
fn param_of(pairs: &Vec<(String, Option<u32>)>, key: char) -> (res: Option<u32>)
    ensures
        res == spec_param(pairs_view(pairs@), key),
{
    let ghost all = pairs_view(pairs@);
    let ghost wanted = named(key);
    let mut seen: usize = 0;
    let mut value: Option<u32> = None;
    let mut i: usize = 0;
    while i < pairs.len()
        invariant
            i <= pairs@.len(),
            all == pairs_view(pairs@),
            wanted == named(key),
            seen == all.take(i as int).filter(wanted).len(),
            seen <= i,
            seen >= 1 ==> value == all.take(i as int).filter(wanted)[0].1,
        decreases pairs@.len() - i,
    {
        proof {
            lemma_filter_step(all, wanted, i as int);
        }
        if is_named(&pairs[i].0, key) {
            if seen == 0 {
                value = pairs[i].1;
            }
            seen = seen + 1;
        }
        i = i + 1;
    }
    assert(all.take(i as int) =~= all);
    if seen == 1 {
        value
    } else {
        None
    }
}

/// Reads the cost out of a list of parameters.
pub fn cost_of(pairs: &Vec<(String, Option<u32>)>) -> (res: Option<HashCost>)
    ensures
        res == spec_cost_of(pairs_view(pairs@)),
{
    match (param_of(pairs, 'm'), param_of(pairs, 't'), param_of(pairs, 'p')) {
        (Some(memory_kib), Some(iterations), Some(lanes)) => Some(
            HashCost { memory_kib, iterations, lanes },
        ),
        _ => None,
    }
}

/// What `hash_password` makes of the hasher's answer: the PHC string, or a
/// configuration error where the hasher refused.
pub open spec fn hash_outcome(phc: Option<Seq<char>>) -> Result<Seq<char>, AuthError> {
    match phc {
        Some(h) => Ok(h),
        None => Err(AuthError::ConfigurationError),
    }
}

/// The hash of `password` under `salt` and `cost`: a password that is
/// empty or too long is a configuration error, anything else is what Argon2
/// makes of it.
pub open spec fn spec_hash_password(password: Seq<char>, salt: Seq<char>, cost: HashCost) -> Result<
    Seq<char>,
    AuthError,
> {
    if !hashable(password) {
        Err(AuthError::ConfigurationError)
    } else {
        hash_outcome(argon2_phc(password, salt, cost.memory_kib, cost.iterations, cost.lanes))
    }
}

/// `stored` is a hash of `password`: it parses, it lists each of `m`, `t`
/// and `p` once with a cost this library runs, and Argon2 reproduces its
/// output from `password`.
pub open spec fn password_matches(password: Seq<char>, stored: Seq<char>) -> bool {
    &&& phc_embedded_cost(stored) matches Some(cost) && cost.spec_is_valid()
    &&& argon2_accepts(password, stored)
}

/// The view of a hashing result.
pub open spec fn hash_view(res: Result<String, AuthError>) -> Result<Seq<char>, AuthError> {
    match res {
        Ok(h) => Ok(h@),
        Err(e) => Err(e),
    }
}

/// Turns the hasher's answer into the library's result.
pub fn finish_hash(raw: Result<String, argon2::password_hash::Error>) -> (res: Result<
    String,
    AuthError,
>)
    ensures
        raw matches Ok(h) ==> res == Ok::<String, AuthError>(h),
        raw is Err ==> res == Err::<String, AuthError>(AuthError::ConfigurationError),
{
    match raw {
        Ok(h) => Ok(h),
        Err(_) => Err(AuthError::ConfigurationError),
    }
}

/// Whether the hasher takes `password`.
pub fn is_hashable(password: &str) -> (yes: bool)
    ensures
        yes == hashable(password@),
{
    !password.is_empty() && password.as_bytes().len() <= MAX_PASSWORD_BYTES
}

/// Hashes `password` under the given salt.
///
/// The result is `spec_hash_password` of the arguments. A password the
/// hasher takes, under a salt it takes, always gets its hash. A hash that
/// comes back is one that `verify_password` accepts for the same password.
pub fn hash_password_with_salt(password: &str, salt: &str, config: &AuthConfig) -> (res: Result<
    String,
    AuthError,
>)
    ensures
        hash_view(res) == spec_hash_password(password@, salt@, config.spec_hash_cost()),
        hashable(password@) && usable_salt(salt@) ==> res is Ok,
        res matches Ok(h) ==> password_matches(password@, h@),
{
    if !is_hashable(password) {
        return Err(AuthError::ConfigurationError);
    }
    let cost = config.hash_cost();
    proof {
        lemma_cost_of_listed(cost);
    }
    finish_hash(argon2_hash(password, salt, cost))
}

/// Hashes `password` under a fresh random salt.
///
/// A password that is empty or too long is a configuration error; every
/// other password gets its hash, under some salt of sixteen bytes. The hash
/// is one that `verify_password` accepts for the same password.
pub fn hash_password(password: &str, config: &AuthConfig) -> (res: Result<String, AuthError>)
    ensures
        !hashable(password@) ==> res == Err::<String, AuthError>(AuthError::ConfigurationError),
        hashable(password@) ==> res is Ok,
        exists|salt: Seq<char>|
            salt_byte_count(salt) == Some(FRESH_SALT_BYTES as nat) && hash_view(res)
                == #[trigger] spec_hash_password(password@, salt, config.spec_hash_cost()),
        res matches Ok(h) ==> password_matches(password@, h@),
{
    let salt = fresh_salt();
    let res = hash_password_with_salt(password, salt.as_str(), config);
    assert(hash_view(res) == spec_hash_password(password@, salt@, config.spec_hash_cost()));
    res
}

/// Whether `stored` is a hash of `password`.
///
/// A stored hash that does not parse is answered with `false`, as a wrong
/// password is. So is one that leaves out or repeats one of the parameters
/// `m`, `t` and `p`, and one that asks for a cost outside what this library
/// runs, such as more than `MAX_MEMORY_KIB` of memory: the hasher is not
/// called on them.
pub fn verify_password(password: &str, stored: &str) -> (ok: bool)
    ensures
        ok == password_matches(password@, stored@),
{
    let pairs = match phc_params(stored) {
        None => {
            return false;
        },
        Some(pairs) => pairs,
    };
    match cost_of(&pairs) {
        None => false,
        Some(cost) => {
            if cost.is_valid() {
                argon2_verify(password, stored).is_ok()
            } else {
                false
            }
        },
    }
}

} // verus!
