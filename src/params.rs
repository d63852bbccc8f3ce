//! The cost parameters of every hash and verify operation.

use vstd::prelude::*;

verus! {

#[verifier::external_type_specification]
#[verifier::external_body]
pub struct ExParams(argon2::Params);

#[verifier::external_type_specification]
#[verifier::external_body]
pub struct ExB64Error(argon2::password_hash::errors::B64Error);

#[verifier::external_type_specification]
pub struct ExArgon2Error(argon2::Error);

/// Memory cost of the fixed configuration, in KiB.
pub const MEMORY_COST_KIB: u32 = 1024;

/// Number of passes of the fixed configuration.
pub const ITERATIONS: u32 = 1;

/// Degree of parallelism of the fixed configuration.
pub const PARALLELISM: u32 = 1;

/// Digest length of the fixed configuration: Argon2's standard output length.
pub const OUTPUT_LEN: usize = 32;

/// Cost parameters of the key-derivation function, as plain values.
///
/// Each hash or verify call allocates about `memory_cost_kib` KiB (rounded
/// down to a multiple of 4 × `parallelism`) while it runs: callers that run
/// calls concurrently bound their number accordingly.
#[derive(Clone, Copy, Debug, PartialEq, Eq, Structural)]
pub struct HashParams {
    pub memory_cost_kib: u32,
    pub iterations: u32,
    pub parallelism: u32,
    pub output_len: usize,
}

/// Argon2's parameter set, together with the plain values it was built from.
pub struct Argon2Params {
    inner: argon2::Params,
    values: Ghost<HashParams>,
}

impl Argon2Params {
    /// The plain values this parameter set was built from.
    pub closed spec fn values(&self) -> HashParams {
        self.values@
    }

    /// Argon2's own parameter set.
    pub fn as_argon2(&self) -> &argon2::Params {
        &self.inner
    }

    pub(crate) fn into_argon2(self) -> argon2::Params {
        self.inner
    }
}

/// The cost parameters were refused by Argon2; `cause` says which rule failed.
#[derive(Clone, Copy, Debug, PartialEq, Eq)]
pub struct ConfigError {
    pub cause: argon2::Error,
}

/// The first of Argon2's parameter rules that `(m, t, p, len)` breaks, checked
/// in Argon2's own order, or `None` when all of them hold.
pub open spec fn params_error(m: u32, t: u32, p: u32, len: usize) -> Option<argon2::Error> {
    if m < 8 || (m as int) < 8 * (p as int) {
        Some(argon2::Error::MemoryTooLittle)
    } else if t < 1 {
        Some(argon2::Error::TimeTooSmall)
    } else if p < 1 {
        Some(argon2::Error::ThreadsTooFew)
    } else if p > 0xFF_FFFF {
        Some(argon2::Error::ThreadsTooMany)
    } else if len < 4 {
        Some(argon2::Error::OutputTooShort)
    } else if len > 0xFFFF_FFFF {
        Some(argon2::Error::OutputTooLong)
    } else {
        None
    }
}

/// The fixed configuration, as a value.
pub open spec fn fixed_params() -> HashParams {
    HashParams {
        memory_cost_kib: MEMORY_COST_KIB,
        iterations: ITERATIONS,
        parallelism: PARALLELISM,
        output_len: OUTPUT_LEN,
    }
}

impl HashParams {
    /// All of Argon2's parameter rules hold.
    pub open spec fn valid(&self) -> bool {
        self.first_broken_rule() is None
    }

    /// The first of Argon2's parameter rules that these values break.
    pub open spec fn first_broken_rule(&self) -> Option<argon2::Error> {
        params_error(self.memory_cost_kib, self.iterations, self.parallelism, self.output_len)
    }

    /// The fixed configuration used by `get_params`.
    pub fn fixed() -> (r: HashParams)
        ensures
            r == fixed_params(),
    {
        HashParams {
            memory_cost_kib: MEMORY_COST_KIB,
            iterations: ITERATIONS,
            parallelism: PARALLELISM,
            output_len: OUTPUT_LEN,
        }
    }

    /// Checks these values against Argon2's rules and builds its parameter set.
    pub fn to_argon2(&self) -> (r: Result<Argon2Params, ConfigError>)
        ensures
            r is Ok <==> self.valid(),
            r matches Ok(p) ==> p.values() == *self,
            r matches Err(e) ==> Some(e.cause) == self.first_broken_rule(),
    {
        if self.parallelism > 0x1FFF_FFFF {
            // 8 * parallelism exceeds every memory cost a u32 can hold
            return Err(ConfigError { cause: argon2::Error::MemoryTooLittle });
        }
        match argon2_params(
            self.memory_cost_kib,
            self.iterations,
            self.parallelism,
            self.output_len,
        ) {
            Ok(p) => Ok(p),
            Err(e) => Err(ConfigError { cause: e }),
        }
    }
}

/// Relies on argon2::Params::new: it succeeds exactly when no parameter rule
/// is broken, and otherwise reports the first broken rule, in the order of
/// `params_error`. Leaves out the parallelism values for which its `8 * p_cost`
/// overflows.
#[verifier::external_body]
fn argon2_params(m: u32, t: u32, p: u32, len: usize) -> (r: Result<Argon2Params, argon2::Error>)
    requires
        p <= 0x1FFF_FFFF,
    ensures
        r is Ok <==> params_error(m, t, p, len) is None,
        r matches Err(e) ==> Some(e) == params_error(m, t, p, len),
        r matches Ok(a) ==> a.values() == (HashParams {
            memory_cost_kib: m,
            iterations: t,
            parallelism: p,
            output_len: len,
        }),
{
    match argon2::Params::new(m, t, p, Some(len)) {
        Ok(inner) => Ok(Argon2Params {
            inner,
            values: Ghost(
                HashParams { memory_cost_kib: m, iterations: t, parallelism: p, output_len: len },
            ),
        }),
        Err(e) => Err(e),
    }
}

/// Builds Argon2's parameter set from the fixed configuration, checking it
/// against Argon2's rules rather than assuming it valid.
pub fn get_params() -> (r: Result<Argon2Params, ConfigError>)
    ensures
        r is Ok <==> fixed_params().valid(),
        r is Ok,
        r matches Ok(p) ==> p.values() == fixed_params(),
{
    let fixed = HashParams::fixed();
    fixed.to_argon2()
}

} // verus!
