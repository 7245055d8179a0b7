//! The configuration of the subsystem, built once at startup and handed by
//! reference to the hasher, the token issuer and the request gate.

use vstd::prelude::*;
use crate::error::AuthError;

verus! {

/// The default validity window of tokens and sessions: three days, in
/// seconds.
pub const DEFAULT_VALIDITY_WINDOW: i64 = 259_200;

/// The longest validity window that this library accepts: 2^48 seconds.
pub const MAX_VALIDITY_WINDOW: i64 = 0x1_0000_0000_0000;

/// The smallest memory cost that Argon2 accepts, in KiB.
pub const MIN_MEMORY_KIB: u32 = 8;

/// The largest memory cost that this library accepts, in KiB (2 GiB).
pub const MAX_MEMORY_KIB: u32 = 2_097_152;

/// The largest degree of parallelism that Argon2 accepts.
pub const MAX_LANES: u32 = 0xFF_FFFF;

/// The cost parameters of the password hasher.
#[derive(Debug, Clone, Copy, PartialEq, Eq, Structural)]
pub struct HashCost {
    /// Memory size in KiB.
    pub memory_kib: u32,
    /// Number of passes over the memory.
    pub iterations: u32,
    /// Degree of parallelism.
    pub lanes: u32,
}

impl HashCost {
    /// The cost is one the hasher can run with: at least one pass, between
    /// one and `MAX_LANES` lanes, and at least 8 KiB of memory per lane, up
    /// to `MAX_MEMORY_KIB`.
    pub open spec fn spec_is_valid(self) -> bool {
        &&& self.iterations >= 1
        &&& 1 <= self.lanes <= MAX_LANES
        &&& self.memory_kib >= MIN_MEMORY_KIB
        &&& self.memory_kib >= 8 * self.lanes
        &&& self.memory_kib <= MAX_MEMORY_KIB
    }

    /// Whether the hasher can run with this cost.
    #[verifier::when_used_as_spec(spec_is_valid)]
    pub fn is_valid(self) -> (ok: bool)
        ensures
            ok == self.spec_is_valid(),
    {
        self.iterations >= 1 && self.lanes >= 1 && self.lanes <= MAX_LANES
            && self.memory_kib >= MIN_MEMORY_KIB && self.memory_kib <= MAX_MEMORY_KIB
            && self.memory_kib / 8 >= self.lanes
    }

    /// The recommended cost: 19 MiB of memory, two passes, one lane.
    pub fn recommended() -> (cost: HashCost)
        ensures
            cost == (HashCost { memory_kib: 19_456, iterations: 2, lanes: 1 }),
            cost.spec_is_valid(),
    {
        HashCost { memory_kib: 19_456, iterations: 2, lanes: 1 }
    }
}

/// Signing secret, validity window, hashing cost and the request gate's session
/// check, fixed at startup.
///
/// With `check_sessions` off, the request gate honours a token of a revoked session
/// until the token itself expires: revocation may then lag by up to one
/// validity window.
pub struct AuthConfig {
    jwt_secret: String,
    validity_window: i64,
    hash_cost: HashCost,
    check_sessions: bool,
}

impl AuthConfig {
    #[verifier::type_invariant]
    spec fn well_formed(self) -> bool {
        &&& self.jwt_secret@.len() > 0
        &&& 0 < self.validity_window <= MAX_VALIDITY_WINDOW
        &&& self.hash_cost.spec_is_valid()
    }

    /// The signing secret.
    pub closed spec fn spec_secret(self) -> Seq<char> {
        self.jwt_secret@
    }

    /// The validity window of tokens and sessions, in seconds.
    pub closed spec fn spec_validity_window(self) -> i64 {
        self.validity_window
    }

    /// The cost parameters of the password hasher.
    pub closed spec fn spec_hash_cost(self) -> HashCost {
        self.hash_cost
    }

    /// Whether the request gate asks the session store on every request.
    pub closed spec fn spec_check_sessions(self) -> bool {
        self.check_sessions
    }

    /// The values are usable: a non-empty secret, a positive window of at
    /// most `MAX_VALIDITY_WINDOW` seconds and a valid hashing cost.
    pub open spec fn acceptable(secret: Seq<char>, window: i64, cost: HashCost) -> bool {
        secret.len() > 0 && 0 < window <= MAX_VALIDITY_WINDOW && cost.spec_is_valid()
    }

    /// Builds the configuration, with the request gate's session check on.
    ///
    /// Fails with `ConfigurationError` exactly when the secret is empty, the
    /// window is not positive or longer than `MAX_VALIDITY_WINDOW`, or the
    /// cost is invalid.
    pub fn new(jwt_secret: String, validity_window: i64, hash_cost: HashCost) -> (res: Result<
        AuthConfig,
        AuthError,
    >)
        ensures
            !Self::acceptable(jwt_secret@, validity_window, hash_cost) ==> res
                == Err::<AuthConfig, AuthError>(AuthError::ConfigurationError),
            Self::acceptable(jwt_secret@, validity_window, hash_cost) ==> res is Ok && {
                let c = res->Ok_0;
                &&& c.spec_secret() == jwt_secret@
                &&& c.spec_validity_window() == validity_window
                &&& c.spec_hash_cost() == hash_cost
                &&& c.spec_check_sessions()
            },
    {
        if jwt_secret.as_str().is_empty() || validity_window <= 0 || validity_window
            > MAX_VALIDITY_WINDOW || !hash_cost.is_valid() {
            return Err(AuthError::ConfigurationError);
        }
        Ok(AuthConfig { jwt_secret, validity_window, hash_cost, check_sessions: true })
    }

    /// The same configuration with the request gate's session check set to
    /// `check_sessions`.
    pub fn with_session_check(self, check_sessions: bool) -> (res: AuthConfig)
        ensures
            res.spec_secret() == self.spec_secret(),
            res.spec_validity_window() == self.spec_validity_window(),
            res.spec_hash_cost() == self.spec_hash_cost(),
            res.spec_check_sessions() == check_sessions,
    {
        proof {
            use_type_invariant(&self);
        }
        AuthConfig {
            jwt_secret: self.jwt_secret,
            validity_window: self.validity_window,
            hash_cost: self.hash_cost,
            check_sessions,
        }
    }

    /// The signing secret.
    pub fn secret(&self) -> (s: &str)
        ensures
            s@ == self.spec_secret(),
            s@.len() > 0,
    {
        proof {
            use_type_invariant(self);
        }
        self.jwt_secret.as_str()
    }

    /// The validity window of tokens and sessions, in seconds.
    pub fn validity_window(&self) -> (w: i64)
        ensures
            w == self.spec_validity_window(),
            0 < w <= MAX_VALIDITY_WINDOW,
    {
        proof {
            use_type_invariant(self);
        }
        self.validity_window
    }

    /// The cost parameters of the password hasher.
    pub fn hash_cost(&self) -> (cost: HashCost)
        ensures
            cost == self.spec_hash_cost(),
            cost.spec_is_valid(),
    {
        proof {
            use_type_invariant(self);
        }
        self.hash_cost
    }

    /// Whether the request gate asks the session store on every request.
    pub fn check_sessions(&self) -> (on: bool)
        ensures
            on == self.spec_check_sessions(),
    {
        self.check_sessions
    }

    /// A copy of this configuration.
    pub fn duplicate(&self) -> (res: AuthConfig)
        ensures
            res.spec_secret() == self.spec_secret(),
            res.spec_validity_window() == self.spec_validity_window(),
            res.spec_hash_cost() == self.spec_hash_cost(),
            res.spec_check_sessions() == self.spec_check_sessions(),
    {
        proof {
            use_type_invariant(self);
        }
        AuthConfig {
            jwt_secret: self.jwt_secret.clone(),
            validity_window: self.validity_window,
            hash_cost: self.hash_cost,
            check_sessions: self.check_sessions,
        }
    }
}

} // verus!
