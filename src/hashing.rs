//! Hashing behind a module of its own, so that the algorithm can be swapped
//! in one place. The digest is XXH3 with 128 bits of output.
use std::hash::{Hash, Hasher};
use twox_hash::XxHash3_128;
use vstd::prelude::*;

verus! {

#[verifier::external_type_specification]
#[verifier::external_body]
pub struct ExXxHash3_128(XxHash3_128);

/// A streaming 128-bit XXH3 hasher that also serves as a `std::hash::Hasher`.
pub struct Xxh3Hasher128(XxHash3_128);

/// Relies on twox_hash's `XxHash3_128::new`: a hasher with the default seed
/// and secret and nothing written yet.
#[verifier::external_body]
fn fresh_state() -> XxHash3_128 {
    XxHash3_128::new()
}

/// Relies on twox_hash's `XxHash3_128::finish_128`: the digest of what was
/// written so far, leaving the state as it is.
#[verifier::external_body]
fn digest_128(state: &XxHash3_128) -> u128 {
    state.finish_128()
}

/// Relies on std's `Hash::hash`: feeds the value's bytes, as its `Hash` impl
/// chooses them, into the hasher.
#[verifier::external_body]
fn feed<T: Hash>(value: &T, hasher: &mut Xxh3Hasher128) {
    value.hash(hasher)
}

impl Default for Xxh3Hasher128 {
    fn default() -> Self {
        Xxh3Hasher128(fresh_state())
    }
}

impl Hasher for Xxh3Hasher128 {
    /// Relies on twox_hash's `XxHash3_128::write`: appends the bytes to the
    /// hashed stream.
    #[verifier::external_body]
    fn write(&mut self, bytes: &[u8]) {
        self.0.write(bytes)
    }

    /// The low 64 bits of the 128-bit digest.
    fn finish(&self) -> u64 {
        let d = digest_128(&self.0);
        d as u64
    }
}

impl Xxh3Hasher128 {
    /// The full 128-bit digest of what was written, consuming the hasher.
    pub fn finish_u128(self) -> (r: u128) {
        digest_128(&self.0)
    }
}

/// The 128-bit digest of one value, as its `Hash` impl writes it.
pub fn one_shot_128<T: Hash>(value: &T) -> u128 {
    let mut h = Xxh3Hasher128::default();
    feed(value, &mut h);
    h.finish_u128()
}

/// The low 64 bits of the 128-bit digest of one value.
pub fn one_shot_64<T: Hash>(value: &T) -> u64 {
    let mut h = Xxh3Hasher128::default();
    feed(value, &mut h);
    h.finish()
}

} // verus!
