//! The enclosing transaction as the protocol sees it: an ordered list of
//! sibling operations and the position of the one currently executing.
//!
//! Every structural check of the protocol is phrased over this view: the
//! signature operation that must precede a donation, the swap and finalize
//! operations that must follow a match, and the origin attestation that
//! rejects nested calls.

use vstd::prelude::*;

use crate::errors::BonkPawsError;
use crate::keys::{key_eq, bonk_paws_id, spec_bonk_paws_id, Pubkey};

verus! {

/// Call discriminator of this protocol's match operation.
pub open spec fn spec_match_donation_discriminator() -> Seq<u8> {
    seq![0x96u8, 0x47, 0x81, 0xf0, 0x2a, 0xe3, 0x00, 0x6e]
}

/// Call discriminator of this protocol's match operation.
pub fn match_donation_discriminator() -> (r: [u8; 8])
    ensures
        r@ == spec_match_donation_discriminator(),
{
    let r: [u8; 8] = [0x96u8, 0x47, 0x81, 0xf0, 0x2a, 0xe3, 0x00, 0x6e];
    proof {
        assert(r@ =~= spec_match_donation_discriminator());
    }
    r
}

/// Call discriminator of this protocol's finalize operation.
pub open spec fn spec_finalize_donation_discriminator() -> Seq<u8> {
    seq![0x32u8, 0xc7, 0x41, 0x13, 0x68, 0x95, 0xf7, 0x73]
}

/// Call discriminator of this protocol's finalize operation.
pub fn finalize_donation_discriminator() -> (r: [u8; 8])
    ensures
        r@ == spec_finalize_donation_discriminator(),
{
    let r: [u8; 8] = [0x32u8, 0xc7, 0x41, 0x13, 0x68, 0x95, 0xf7, 0x73];
    proof {
        assert(r@ =~= spec_finalize_donation_discriminator());
    }
    r
}

/// Call discriminator of the earlier generation's finalize operation.
pub open spec fn spec_finalize_discriminator() -> Seq<u8> {
    seq![0xabu8, 0x3d, 0xda, 0x38, 0x7f, 0x73, 0x0c, 0xd9]
}

/// Call discriminator of the earlier generation's finalize operation.
pub fn finalize_discriminator() -> (r: [u8; 8])
    ensures
        r@ == spec_finalize_discriminator(),
{
    let r: [u8; 8] = [0xabu8, 0x3d, 0xda, 0x38, 0x7f, 0x73, 0x0c, 0xd9];
    proof {
        assert(r@ =~= spec_finalize_discriminator());
    }
    r
}

/// One account slot of an operation: the identity it names.
#[derive(Clone, Copy, Debug)]
pub struct AccountMeta {
    /// The named account's identity.
    pub pubkey: Pubkey,
}

/// One operation of a transaction: a call of `program_id` with an opaque
/// argument payload and an ordered account list.
#[derive(Clone, Debug)]
pub struct Instruction {
    /// The program the operation calls.
    pub program_id: Pubkey,
    /// The accounts handed to the call, in order.
    pub accounts: Vec<AccountMeta>,
    /// The call's argument payload.
    pub data: Vec<u8>,
}

/// The enclosing transaction's operation list together with the index of
/// the operation currently executing.
pub struct InstructionsView {
    /// All operations of the transaction, in execution order.
    pub instructions: Vec<Instruction>,
    /// The position of the currently executing operation.
    pub current_index: u16,
}

impl InstructionsView {
    /// The index of the currently executing operation.
    pub fn load_current_index(&self) -> (i: u16)
        ensures
            i == self.current_index,
    {
        self.current_index
    }

    /// The operation at an absolute index, or `None` when the index runs
    /// past the transaction's bounds.
    pub fn instruction_at(&self, index: usize) -> (r: Option<&Instruction>)
        ensures
            match r {
                Some(ix) => index < self.instructions@.len() && *ix == self.instructions@[
                    index as int
                ],
                None => index >= self.instructions@.len(),
            },
    {
        if index < self.instructions.len() {
            Some(&self.instructions[index])
        } else {
            None
        }
    }

    /// True when the operation at the current index is addressed to this
    /// protocol itself.
    ///
    /// An operation issued as a nested call by another program shows that
    /// program's identity at this position, so requiring our own identity
    /// here closes off forged or truncated surrounding structure.
    pub open spec fn spec_origin_ok(&self) -> bool {
        &&& (self.current_index as int) < self.instructions@.len()
        &&& self.instructions@[self.current_index as int].program_id@ == spec_bonk_paws_id()
    }

    /// Requires the operation at the current index to be addressed to this
    /// protocol itself: the anti-reentrancy guard.
    pub fn check_origin(&self) -> (r: Result<(), BonkPawsError>)
        ensures
            r is Ok <==> self.spec_origin_ok(),
            r is Err ==> (self.current_index as int) >= self.instructions@.len() && r == Err::<
                (),
                BonkPawsError,
            >(BonkPawsError::InvalidInstructionIndex) || (self.current_index as int)
                < self.instructions@.len() && r == Err::<(), BonkPawsError>(
                BonkPawsError::ProgramMismatch,
            ),
    {
        match self.instruction_at(self.current_index as usize) {
            Some(current) => {
                let own = bonk_paws_id();
                if key_eq(&current.program_id, &own) {
                    Ok(())
                } else {
                    Err(BonkPawsError::ProgramMismatch)
                }
            },
            None => Err(BonkPawsError::InvalidInstructionIndex),
        }
    }
}

} // verus!
