//! A container for secret byte material.
//!
//! The container never takes part in printing, so the bytes it guards only
//! leave through `expose_secret`.

use vstd::prelude::*;

verus! {

/// A fixed-size array of secret bytes.
pub struct SecretArray<const N: usize> {
    pub data: [u8; N],
}

impl<const N: usize> SecretArray<N> {
    /// Wraps the given bytes; the caller keeps responsibility for erasing its
    /// own copy of the argument.
    pub fn new_and_dont_zeroize_argument(data: &[u8; N]) -> (r: Self)
        ensures
            r.data == *data,
    {
        SecretArray { data: *data }
    }

    /// Grants read access to the guarded bytes.
    pub fn expose_secret(&self) -> (r: &[u8; N])
        ensures
            *r == self.data,
    {
        &self.data
    }
}

} // verus!
