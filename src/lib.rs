//! Peppered Argon2id password hashing: a parameter provider and a hash
//! engine that hashes and verifies passwords under a server-side secret.

pub mod engine;
pub mod params;

pub use engine::{
    hash, hash_with, hash_with_salt, verdict, verify, verify_with, Checked, HashError,
    PasswordSalt, VerifyError, MAX_PASSWORD_LEN, MAX_PEPPER_LEN, MAX_RECORDED_PARALLELISM,
};
pub use params::{get_params, Argon2Params, ConfigError, HashParams};
