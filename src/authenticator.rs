//! Mazda's seed/key challenge: a 24-bit register clocked by every bit of the
//! seed and the shared secret.
use vstd::prelude::*;
use vstd::string::StringSliceAdditionalSpecFns;
use crate::error::Error;
use crate::uds::{request_security_key, request_security_seed, request_session, UdsInterface};

verus! {

/// The register's value before any input.
pub const MAZDA_INITIAL_PARAMETER: u32 = 0x00C5_41A9;

/// One round: the register after taking in the low bit of `c`.
pub open spec fn key_round(param: u32, c: u8) -> u32 {
    let s = (c & 1u8) ^ ((param & 1u32) as u8);
    let p1: u32 = if s != 0 { param | 0x0100_0000u32 } else { param };
    let m: u32 = if s != 0 { 0x0010_9028u32 } else { 0u32 };
    let p2 = p1 >> 1u32;
    let p3 = p2 & 0xFFEF_6FD7u32;
    (((p2 ^ m) & 0x0010_9028u32) | p3) & 0x00FF_FFFFu32
}

/// The register after `r` rounds on the low bits of `c`, least significant first.
pub open spec fn key_rounds(param: u32, c: u8, r: nat) -> u32
    decreases r,
{
    if r == 0 {
        param
    } else {
        key_rounds(key_round(param, c), c >> 1u8, (r - 1) as nat)
    }
}

/// The register after every byte of `bytes`, eight rounds each, in order.
pub open spec fn key_register(param: u32, bytes: Seq<u8>) -> u32
    decreases bytes.len(),
{
    if bytes.len() == 0 {
        param
    } else {
        key_register(key_rounds(param, bytes[0], 8), bytes.drop_first())
    }
}

/// The three key bytes read out of the final register.
pub open spec fn key_of(p: u32) -> Seq<u8> {
    seq![
        ((p >> 4u32) & 0xFFu32) as u8,
        (((p >> 20u32) & 0xFFu32) + ((p >> 8u32) & 0xF0u32)) as u8,
        (((p << 4u32) & 0xFFu32) + ((p >> 16u32) & 0x0Fu32)) as u8,
    ]
}

/// The key for `seed` under the secret whose bytes are `secret`.
pub open spec fn derive_key(secret: Seq<u8>, parameter: u32, seed: Seq<u8>) -> Seq<u8> {
    key_of(key_register(parameter, seed + secret))
}

/// The key depends on the secret, the initial parameter and the seed alone:
/// equal inputs give equal keys.
pub proof fn lemma_key_determinism(
    secret1: Seq<u8>,
    seed1: Seq<u8>,
    secret2: Seq<u8>,
    seed2: Seq<u8>,
    parameter: u32,
)
    requires
        secret1 == secret2,
        seed1 == seed2,
    ensures
        derive_key(secret1, parameter, seed1) == derive_key(secret2, parameter, seed2),
{
}

/// Authenticates with Mazda's seed/key scheme.
pub struct MazdaAuthenticator {}

impl MazdaAuthenticator {
    /// Opens session `session_type` (usually 0x87), asks for a seed, and
    /// answers with the key derived from it and `key`.
    pub fn authenticate<U: UdsInterface>(&self, key: &str, interface: &U, session_type: u8) -> (r:
        Result<(), Error>) {
        if let Err(e) = request_session(interface, session_type) {
            return Err(e);
        }
        let seed = match request_security_seed(interface) {
            Ok(s) => s,
            Err(e) => return Err(e),
        };
        let answer = Self::generate_key(key, MAZDA_INITIAL_PARAMETER, seed.as_slice());
        request_security_key(interface, &answer)
    }

    /// Derives the three key bytes from `seed` and the secret `key`.
    pub fn generate_key(key: &str, parameter: u32, seed: &[u8]) -> (r: [u8; 3])
        ensures
            r@ == derive_key(key.spec_bytes(), parameter, seed@),
    {
        let secret = key.as_bytes();
        let mut nseed: Vec<u8> = Vec::new();
        crate::transport::append_bytes(&mut nseed, seed);
        crate::transport::append_bytes(&mut nseed, secret);
        let ghost input = nseed@;
        let mut parameter = parameter;
        let ghost p0 = parameter;
        let mut i: usize = 0;
        assert(nseed@.subrange(0, nseed@.len() as int) =~= input);
        while i < nseed.len()
            invariant
                input == nseed@,
                i <= nseed@.len(),
                key_register(parameter, nseed@.subrange(i as int, nseed@.len() as int))
                    == key_register(p0, input),
            decreases nseed@.len() - i,
        {
            let ghost rest = nseed@.subrange(i as int, nseed@.len() as int);
            assert(rest.drop_first() =~= nseed@.subrange(i + 1, nseed@.len() as int));
            let mut c = nseed[i];
            let ghost c0 = c;
            let ghost start = parameter;
            let mut round: u32 = 0;
            while round < 8
                invariant
                    round <= 8,
                    key_rounds(parameter, c, (8 - round) as nat) == key_rounds(start, c0, 8),
                decreases 8 - round,
            {
                let s = (c & 1) ^ (#[verifier::truncate] ((parameter & 1) as u8));
                let mut m: u32 = 0;
                if s != 0 {
                    parameter = parameter | 0x0100_0000;
                    m = 0x0010_9028;
                }
                c = c >> 1;
                parameter = parameter >> 1;
                let p3 = parameter & 0xFFEF_6FD7;
                parameter = parameter ^ m;
                parameter = parameter & 0x0010_9028;
                parameter = parameter | p3;
                parameter = parameter & 0x00FF_FFFF;
                round = round + 1;
            }
            i = i + 1;
        }
        assert(nseed@.subrange(i as int, nseed@.len() as int) =~= Seq::<u8>::empty());
        assert(input == seed@ + key.spec_bytes());
        let p = parameter;
        let a: u32 = (p >> 20) & 0xFF;
        let b: u32 = (p >> 8) & 0xF0;
        let c: u32 = (p << 4) & 0xFF;
        let d: u32 = (p >> 16) & 0x0F;
        proof {
            assert(a <= 0xFF) by (bit_vector)
                requires a == (p >> 20u32) & 0xFFu32;
            assert(b <= 0xF0) by (bit_vector)
                requires b == (p >> 8u32) & 0xF0u32;
            assert(c <= 0xFF) by (bit_vector)
                requires c == (p << 4u32) & 0xFFu32;
            assert(d <= 0x0F) by (bit_vector)
                requires d == (p >> 16u32) & 0x0Fu32;
        }
        let res = [
            #[verifier::truncate] (((p >> 4) & 0xFF) as u8),
            #[verifier::truncate] ((a + b) as u8),
            #[verifier::truncate] ((c + d) as u8),
        ];
        assert(res@ =~= key_of(p));
        res
    }
}

} // verus!
