//! Decoding of the co-signed donation payload (the signature operation
//! that must immediately precede a donation or match operation).
//!
//! The signature-verification program's payload begins with a fixed
//! 16-byte header describing where the attesting key and the signed
//! message live; any deviation from the expected template signals
//! payload-shape tampering.  Bytes 16..48 must hold the trusted
//! authority's key: a third party co-signs every donation, so a donor
//! cannot unilaterally redirect funds.  The signed message itself starts
//! at byte 0x70.
//!
//! Two message layouts exist.  The donation layout carries a correlation
//! id, the charity address and an optional match-target address (0x48
//! message bytes); the charity layout carries the charity address alone
//! (0x20 message bytes).

use vstd::prelude::*;

use crate::bytes_util::{range_matches, read_key, read_u64_le};
use crate::errors::BonkPawsError;
use crate::instructions::Instruction;
use crate::keys::{spec_ed25519_program_id, spec_signing_authority_id, ed25519_program_id,
    key_eq, signing_authority_id, Pubkey};

verus! {

/// Total payload length for the donation layout: message of 0x48 bytes.
pub const DONATION_PAYLOAD_LEN: usize = 0xB8;

/// Total payload length for the charity layout: message of 0x20 bytes.
pub const CHARITY_PAYLOAD_LEN: usize = 0x90;

/// The fixed header template for the donation layout: one signature, the
/// key at offset 0x30, the signature at offset 0x10, and a 0x48-byte
/// message at offset 0x70.
pub open spec fn spec_donation_sig_header() -> Seq<u8> {
    seq![
        0x01u8, 0x00, 0x30, 0x00, 0xff, 0xff, 0x10, 0x00, 0xff, 0xff, 0x70, 0x00, 0x48, 0x00,
        0xff, 0xff,
    ]
}

/// The fixed header template for the charity layout: as the donation
/// layout, with a 0x20-byte message at offset 0x70.
pub open spec fn spec_charity_sig_header() -> Seq<u8> {
    seq![
        0x01u8, 0x00, 0x30, 0x00, 0xff, 0xff, 0x10, 0x00, 0xff, 0xff, 0x70, 0x00, 0x20, 0x00,
        0xff, 0xff,
    ]
}

fn donation_sig_header() -> (r: [u8; 16])
    ensures
        r@ == spec_donation_sig_header(),
{
    let r: [u8; 16] = [
        0x01u8, 0x00, 0x30, 0x00, 0xff, 0xff, 0x10, 0x00, 0xff, 0xff, 0x70, 0x00, 0x48, 0x00,
        0xff, 0xff,
    ];
    proof {
        assert(r@ =~= spec_donation_sig_header());
    }
    r
}

fn charity_sig_header() -> (r: [u8; 16])
    ensures
        r@ == spec_charity_sig_header(),
{
    let r: [u8; 16] = [
        0x01u8, 0x00, 0x30, 0x00, 0xff, 0xff, 0x10, 0x00, 0xff, 0xff, 0x70, 0x00, 0x20, 0x00,
        0xff, 0xff,
    ];
    proof {
        assert(r@ =~= spec_charity_sig_header());
    }
    r
}

/// The structured content of a co-signed donation message.
#[derive(Clone, Copy, Debug)]
pub struct SignedDonationMessage {
    /// Correlation identifier, for the donation receipt.
    pub id: u64,
    /// The charity address the donation must reach.
    pub charity_key: Pubkey,
    /// The address matched proceeds must reach; the all-zero key means
    /// "no match requested".
    pub match_key: Pubkey,
}

/// The structured content of a co-signed charity message.
#[derive(Clone, Copy, Debug)]
pub struct SignedCharityMessage {
    /// The charity address the donation must reach.
    pub charity_key: Pubkey,
}

/// True when `ix` is a well-formed signature operation in the donation
/// layout, attested by the trusted authority.
pub open spec fn spec_donation_sig_ok(ix: Instruction) -> bool {
    &&& ix.program_id@ == spec_ed25519_program_id()
    &&& ix.data@.len() >= DONATION_PAYLOAD_LEN
    &&& ix.data@.subrange(0, 16) == spec_donation_sig_header()
    &&& ix.data@.subrange(16, 48) == spec_signing_authority_id()
}

/// The error a donation-layout decode reports, by check precedence.
pub open spec fn spec_donation_sig_error(ix: Instruction) -> BonkPawsError {
    if ix.program_id@ != spec_ed25519_program_id() {
        BonkPawsError::ProgramMismatch
    } else if ix.data@.len() < DONATION_PAYLOAD_LEN || ix.data@.subrange(0, 16)
        != spec_donation_sig_header() {
        BonkPawsError::SignatureHeaderMismatch
    } else {
        BonkPawsError::SignatureAuthorityMismatch
    }
}

/// Decodes the signature operation preceding a donation: checks its
/// program identity, header template and attesting authority, then
/// extracts the correlation id, the charity address and the optional
/// match-target address from the signed message.
pub fn decode_signed_donation(ix: &Instruction) -> (r: Result<
    SignedDonationMessage,
    BonkPawsError,
>)
    ensures
        r is Ok <==> spec_donation_sig_ok(*ix),
        match r {
            Ok(m) => {
                &&& m.id == vstd::bytes::spec_u64_from_le_bytes(
                    ix.data@.subrange(0x70, 0x78),
                )
                &&& m.charity_key@ == ix.data@.subrange(0x78, 0x98)
                &&& m.match_key@ == ix.data@.subrange(0x98, 0xB8)
            },
            Err(e) => e == spec_donation_sig_error(*ix),
        },
{
    let ed25519 = ed25519_program_id();
    if !key_eq(&ix.program_id, &ed25519) {
        return Err(BonkPawsError::ProgramMismatch);
    }
    if ix.data.len() < DONATION_PAYLOAD_LEN {
        return Err(BonkPawsError::SignatureHeaderMismatch);
    }
    let header = donation_sig_header();
    if !range_matches(ix.data.as_slice(), 0, header.as_slice()) {
        return Err(BonkPawsError::SignatureHeaderMismatch);
    }
    let authority = signing_authority_id();
    if !range_matches(ix.data.as_slice(), 16, authority.as_slice()) {
        return Err(BonkPawsError::SignatureAuthorityMismatch);
    }
    let id = read_u64_le(ix.data.as_slice(), 0x70);
    let charity_key = read_key(ix.data.as_slice(), 0x78);
    let match_key = read_key(ix.data.as_slice(), 0x98);
    Ok(SignedDonationMessage { id, charity_key, match_key })
}

/// True when `ix` is a well-formed signature operation in the charity
/// layout, attested by the trusted authority.
pub open spec fn spec_charity_sig_ok(ix: Instruction) -> bool {
    &&& ix.program_id@ == spec_ed25519_program_id()
    &&& ix.data@.len() >= CHARITY_PAYLOAD_LEN
    &&& ix.data@.subrange(0, 16) == spec_charity_sig_header()
    &&& ix.data@.subrange(16, 48) == spec_signing_authority_id()
}

/// The error a charity-layout decode reports, by check precedence.
pub open spec fn spec_charity_sig_error(ix: Instruction) -> BonkPawsError {
    if ix.program_id@ != spec_ed25519_program_id() {
        BonkPawsError::ProgramMismatch
    } else if ix.data@.len() < CHARITY_PAYLOAD_LEN || ix.data@.subrange(0, 16)
        != spec_charity_sig_header() {
        BonkPawsError::SignatureHeaderMismatch
    } else {
        BonkPawsError::SignatureAuthorityMismatch
    }
}

/// Decodes the signature operation in the charity layout: checks its
/// program identity, header template and attesting authority, then
/// extracts the charity address from the signed message.
pub fn decode_signed_charity(ix: &Instruction) -> (r: Result<SignedCharityMessage, BonkPawsError>)
    ensures
        r is Ok <==> spec_charity_sig_ok(*ix),
        match r {
            Ok(m) => m.charity_key@ == ix.data@.subrange(0x70, 0x90),
            Err(e) => e == spec_charity_sig_error(*ix),
        },
{
    let ed25519 = ed25519_program_id();
    if !key_eq(&ix.program_id, &ed25519) {
        return Err(BonkPawsError::ProgramMismatch);
    }
    if ix.data.len() < CHARITY_PAYLOAD_LEN {
        return Err(BonkPawsError::SignatureHeaderMismatch);
    }
    let header = charity_sig_header();
    if !range_matches(ix.data.as_slice(), 0, header.as_slice()) {
        return Err(BonkPawsError::SignatureHeaderMismatch);
    }
    let authority = signing_authority_id();
    if !range_matches(ix.data.as_slice(), 16, authority.as_slice()) {
        return Err(BonkPawsError::SignatureAuthorityMismatch);
    }
    let charity_key = read_key(ix.data.as_slice(), 0x70);
    Ok(SignedCharityMessage { charity_key })
}

} // verus!
