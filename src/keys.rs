use vstd::prelude::*;

use crate::hex::{hex_char, hex_digit, hex_of};

verus! {

/// A 32-byte secret key for a new account.
#[derive(Clone, Copy, Debug, PartialEq, Eq)]
pub struct PrivateKey {
    pub bytes: [u8; 32],
}

/// Why no key could be made.
#[derive(Clone, Copy, Debug, PartialEq, Eq, Structural)]
pub enum KeyError {
    /// The system's secure source of randomness failed.
    RandomnessUnavailable,
}

/// Relies on getrandom::getrandom: it fills the buffer from the operating
/// system's secure source of randomness, or reports an error. Nothing is
/// promised of the bytes.
#[verifier::external_body]
fn secure_random_32() -> (r: Option<[u8; 32]>) {
    let mut buf = [0u8; 32];
    match getrandom::getrandom(&mut buf) {
        Ok(()) => Some(buf),
        Err(_) => None,
    }
}

/// Draws a fresh key from the system's secure source of randomness. Every
/// string of 32 bytes is a valid key.
pub fn generate_private_key() -> (r: Result<PrivateKey, KeyError>)
    ensures
        r is Err ==> r == Err::<PrivateKey, KeyError>(KeyError::RandomnessUnavailable),
{
    match secure_random_32() {
        Some(bytes) => Ok(PrivateKey { bytes }),
        None => Err(KeyError::RandomnessUnavailable),
    }
}

impl PrivateKey {
    /// The key in the form that an endpoint's key import takes: 64 lower-case
    /// hexadecimal digits, without a prefix.
    pub fn to_hex(&self) -> (r: Vec<u8>)
        ensures
            r@ == hex_of(self.bytes@),
    {
        let mut out: Vec<u8> = Vec::new();
        let mut i: usize = 0;
        while i < 32
            invariant
                i <= 32,
                self.bytes@.len() == 32,
                out@.len() == 2 * i,
                forall|k: int| 0 <= k < 2 * i ==> out@[k] == #[trigger] hex_of(self.bytes@)[k],
            decreases 32 - i,
        {
            let b = self.bytes[i];
            out.push(hex_char(b / 16));
            out.push(hex_char(b % 16));
            proof {
                assert(hex_of(self.bytes@)[2 * i as int] == hex_digit(b / 16));
                assert(hex_of(self.bytes@)[2 * i + 1] == hex_digit(b % 16));
            }
            i = i + 1;
        }
        assert(out@ =~= hex_of(self.bytes@));
        out
    }
}

} // verus!
