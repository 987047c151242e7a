//! 32-byte account identities and the protocol's fixed addresses.
//!
//! Every account, program and mint on the host platform is named by a
//! 32-byte public key.  The protocol compares such keys byte for byte and
//! never inspects them otherwise, so a key is modelled as a plain
//! `[u8; 32]`.

use vstd::prelude::*;

verus! {

/// A 32-byte account identity on the host platform.
pub type Pubkey = [u8; 32];

/// True when the two keys hold the same 32 bytes.
pub open spec fn spec_key_eq(a: Seq<u8>, b: Seq<u8>) -> bool {
    a == b
}

/// Byte-for-byte equality of two keys.
pub fn key_eq(a: &Pubkey, b: &Pubkey) -> (r: bool)
    ensures
        r == (a@ == b@),
{
    let mut i: usize = 0;
    while i < 32
        invariant
            0 <= i <= 32,
            forall|j: int| 0 <= j < i ==> a@[j] == b@[j],
        decreases 32 - i,
    {
        if a[i] != b[i] {
            assert(a@ != b@);
            return false;
        }
        i += 1;
    }
    proof {
        assert(a@ =~= b@);
    }
    true
}

/// The all-zero key, the platform's default value meaning "no address".
pub fn default_key() -> (r: Pubkey)
    ensures
        r@ == spec_default_key(),
{
    [0u8; 32]
}

/// The all-zero key as a byte sequence.
pub open spec fn spec_default_key() -> Seq<u8> {
    Seq::new(32, |i: int| 0u8)
}

/// True when `a` is the all-zero key.
pub fn is_default_key(a: &Pubkey) -> (r: bool)
    ensures
        r == (a@ == spec_default_key()),
{
    let mut i: usize = 0;
    while i < 32
        invariant
            0 <= i <= 32,
            forall|j: int| 0 <= j < i ==> a@[j] == 0u8,
        decreases 32 - i,
    {
        if a[i] != 0 {
            assert(a@ != spec_default_key());
            return false;
        }
        i += 1;
    }
    proof {
        assert(a@ =~= spec_default_key());
    }
    true
}

/// The platform's native-transfer program, whose identity is the
/// all-zero key.
pub open spec fn spec_system_program_id() -> Seq<u8> {
    spec_default_key()
}

/// The platform's native-transfer program, whose identity is the
/// all-zero key.
pub fn system_program_id() -> (r: Pubkey)
    ensures
        r@ == spec_system_program_id(),
{
    default_key()
}

/// This protocol's own program identity
/// (`bfpP4enQQ7ajSLaMWhAy6wYZYmRV6uxVid3r5hphh68`).
pub open spec fn spec_bonk_paws_id() -> Seq<u8> {
    seq![
        0x08u8, 0xe1, 0xa3, 0x4e, 0xcc, 0x79, 0x60, 0x0d, 0x5c, 0xf1, 0x41, 0xbb, 0x6d, 0x26,
        0x55, 0x8d, 0x46, 0xde, 0xd2, 0x7b, 0x11, 0x1d, 0x83, 0xf5, 0xd3, 0x23, 0xee, 0xc6,
        0x5c, 0xd8, 0xc5, 0x79,
    ]
}

/// This protocol's own program identity.
pub fn bonk_paws_id() -> (r: Pubkey)
    ensures
        r@ == spec_bonk_paws_id(),
{
    let r: Pubkey = [
        0x08u8, 0xe1, 0xa3, 0x4e, 0xcc, 0x79, 0x60, 0x0d, 0x5c, 0xf1, 0x41, 0xbb, 0x6d, 0x26,
        0x55, 0x8d, 0x46, 0xde, 0xd2, 0x7b, 0x11, 0x1d, 0x83, 0xf5, 0xd3, 0x23, 0xee, 0xc6,
        0x5c, 0xd8, 0xc5, 0x79,
    ];
    proof {
        assert(r@ =~= spec_bonk_paws_id());
    }
    r
}

/// The trusted co-signing authority whose key must attest every donation
/// (`bfp1sHRTCvq7geo1hkBuaYbiFdEhsfeoidqimJDuSEy`).
pub open spec fn spec_signing_authority_id() -> Seq<u8> {
    seq![
        0x08u8, 0xe1, 0xa1, 0x7b, 0xe5, 0x49, 0x52, 0x3f, 0xf2, 0x81, 0xef, 0x6b, 0x0c, 0x77,
        0xcb, 0x3c, 0x62, 0xb9, 0xd0, 0x83, 0xde, 0x3a, 0x68, 0x15, 0x28, 0x44, 0x06, 0xbc,
        0x4a, 0xef, 0x05, 0xae,
    ]
}

/// The trusted co-signing authority whose key must attest every donation.
pub fn signing_authority_id() -> (r: Pubkey)
    ensures
        r@ == spec_signing_authority_id(),
{
    let r: Pubkey = [
        0x08u8, 0xe1, 0xa1, 0x7b, 0xe5, 0x49, 0x52, 0x3f, 0xf2, 0x81, 0xef, 0x6b, 0x0c, 0x77,
        0xcb, 0x3c, 0x62, 0xb9, 0xd0, 0x83, 0xde, 0x3a, 0x68, 0x15, 0x28, 0x44, 0x06, 0xbc,
        0x4a, 0xef, 0x05, 0xae,
    ];
    proof {
        assert(r@ =~= spec_signing_authority_id());
    }
    r
}

/// The donation token's mint
/// (`DezXAZ8z7PnrnRJjz3wXBoRgixCa6xjnB7YaB1pPB263`).
pub open spec fn spec_bonk_mint_id() -> Seq<u8> {
    seq![
        0xbcu8, 0x07, 0xc5, 0x6e, 0x60, 0xad, 0x3d, 0x3f, 0x17, 0x73, 0x82, 0xea, 0xc6, 0x54,
        0x8f, 0xba, 0x1f, 0xd3, 0x2c, 0xfd, 0x90, 0xca, 0x02, 0xb3, 0xe7, 0xcf, 0xa1, 0x85,
        0xfd, 0xce, 0x73, 0x98,
    ]
}

/// The donation token's mint.
pub fn bonk_mint_id() -> (r: Pubkey)
    ensures
        r@ == spec_bonk_mint_id(),
{
    let r: Pubkey = [
        0xbcu8, 0x07, 0xc5, 0x6e, 0x60, 0xad, 0x3d, 0x3f, 0x17, 0x73, 0x82, 0xea, 0xc6, 0x54,
        0x8f, 0xba, 0x1f, 0xd3, 0x2c, 0xfd, 0x90, 0xca, 0x02, 0xb3, 0xe7, 0xcf, 0xa1, 0x85,
        0xfd, 0xce, 0x73, 0x98,
    ];
    proof {
        assert(r@ =~= spec_bonk_mint_id());
    }
    r
}

/// The settlement token's mint (wrapped native asset)
/// (`So11111111111111111111111111111111111111112`).
pub open spec fn spec_wsol_mint_id() -> Seq<u8> {
    seq![
        0x06u8, 0x9b, 0x88, 0x57, 0xfe, 0xab, 0x81, 0x84, 0xfb, 0x68, 0x7f, 0x63, 0x46, 0x18,
        0xc0, 0x35, 0xda, 0xc4, 0x39, 0xdc, 0x1a, 0xeb, 0x3b, 0x55, 0x98, 0xa0, 0xf0, 0x00,
        0x00, 0x00, 0x00, 0x01,
    ]
}

/// The settlement token's mint (wrapped native asset).
pub fn wsol_mint_id() -> (r: Pubkey)
    ensures
        r@ == spec_wsol_mint_id(),
{
    let r: Pubkey = [
        0x06u8, 0x9b, 0x88, 0x57, 0xfe, 0xab, 0x81, 0x84, 0xfb, 0x68, 0x7f, 0x63, 0x46, 0x18,
        0xc0, 0x35, 0xda, 0xc4, 0x39, 0xdc, 0x1a, 0xeb, 0x3b, 0x55, 0x98, 0xa0, 0xf0, 0x00,
        0x00, 0x00, 0x00, 0x01,
    ];
    proof {
        assert(r@ =~= spec_wsol_mint_id());
    }
    r
}

/// The platform's signature-verification program
/// (`Ed25519SigVerify111111111111111111111111111`).
pub open spec fn spec_ed25519_program_id() -> Seq<u8> {
    seq![
        0x03u8, 0x7d, 0x46, 0xd6, 0x7c, 0x93, 0xfb, 0xbe, 0x12, 0xf9, 0x42, 0x8f, 0x83, 0x8d,
        0x40, 0xff, 0x05, 0x70, 0x74, 0x49, 0x27, 0xf4, 0x8a, 0x64, 0xfc, 0xca, 0x70, 0x44,
        0x80, 0x00, 0x00, 0x00,
    ]
}

/// The platform's signature-verification program.
pub fn ed25519_program_id() -> (r: Pubkey)
    ensures
        r@ == spec_ed25519_program_id(),
{
    let r: Pubkey = [
        0x03u8, 0x7d, 0x46, 0xd6, 0x7c, 0x93, 0xfb, 0xbe, 0x12, 0xf9, 0x42, 0x8f, 0x83, 0x8d,
        0x40, 0xff, 0x05, 0x70, 0x74, 0x49, 0x27, 0xf4, 0x8a, 0x64, 0xfc, 0xca, 0x70, 0x44,
        0x80, 0x00, 0x00, 0x00,
    ];
    proof {
        assert(r@ =~= spec_ed25519_program_id());
    }
    r
}

/// The external exchange program that executes swaps
/// (`JUP6LkbZbjS1jKKwapdHNy74zcZ3tLUZoi5QNyVTaV4`).
pub open spec fn spec_jupiter_id() -> Seq<u8> {
    seq![
        0x04u8, 0x79, 0xd5, 0x5b, 0xf2, 0x31, 0xc0, 0x6e, 0xee, 0x74, 0xc5, 0x6e, 0xce, 0x68,
        0x15, 0x07, 0xfd, 0xb1, 0xb2, 0xde, 0xa3, 0xf4, 0x8e, 0x51, 0x02, 0xb1, 0xcd, 0xa2,
        0x56, 0xbc, 0x13, 0x8f,
    ]
}

/// The external exchange program that executes swaps.
pub fn jupiter_id() -> (r: Pubkey)
    ensures
        r@ == spec_jupiter_id(),
{
    let r: Pubkey = [
        0x04u8, 0x79, 0xd5, 0x5b, 0xf2, 0x31, 0xc0, 0x6e, 0xee, 0x74, 0xc5, 0x6e, 0xce, 0x68,
        0x15, 0x07, 0xfd, 0xb1, 0xb2, 0xde, 0xa3, 0xf4, 0x8e, 0x51, 0x02, 0xb1, 0xcd, 0xa2,
        0x56, 0xbc, 0x13, 0x8f,
    ];
    proof {
        assert(r@ =~= spec_jupiter_id());
    }
    r
}

} // verus!
