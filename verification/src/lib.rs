//! Request builders for a bonding-curve launchpad facade.
//!
//! The library has two layers. The address-derivation layer recomputes the
//! deterministic sub-accounts (authority, global config, pool state, vaults,
//! metadata, event authority) that both operations depend on, from fixed seed
//! byte strings plus caller-supplied mint identifiers. The call assembler
//! validates a caller-supplied account set against those derived addresses,
//! packages the fixed or caller-supplied parameter payload, and produces the
//! one outbound cross-program call (`create` or `buy`) for the external
//! launchpad program, with accounts in the program-mandated order and flags.

use vstd::prelude::*;

pub mod assemble;
pub mod derivation;
pub mod payload;
pub mod seeds;

pub use assemble::{buy, create, AssembleError, Buy, Create};

verus! {

/// A 32-byte ledger address, held as plain bytes so that contracts can speak
/// of its exact contents.
#[derive(Clone, Copy, Debug)]
pub struct Address {
    pub bytes: [u8; 32],
}

impl Address {
    /// The mathematical value of an address: its byte sequence.
    pub open spec fn view(self) -> Seq<u8> {
        self.bytes@
    }
}

/// Compares two addresses byte for byte.
pub fn address_eq(a: &Address, b: &Address) -> (r: bool)
    ensures
        r == (a@ == b@),
{
    let mut i: usize = 0;
    let mut same: bool = true;
    while i < 32
        invariant
            0 <= i <= 32,
            same == (forall|j: int| 0 <= j < i ==> a.bytes@[j] == b.bytes@[j]),
        decreases 32 - i,
    {
        if a.bytes[i] != b.bytes[i] {
            same = false;
        }
        i = i + 1;
    }
    proof {
        if same {
            assert(a.bytes@ =~= b.bytes@);
        }
    }
    same
}

/// One entry of an outbound call's account list: an address together with the
/// signer and writable flags the external program expects for that slot.
#[derive(Clone, Copy, Debug)]
pub struct AccountMeta {
    pub address: Address,
    pub is_signer: bool,
    pub is_writable: bool,
}

/// One assembled cross-program call: the program to invoke, its ordered
/// account list, and its parameter bytes.
#[derive(Debug)]
pub struct Instruction {
    pub program_id: Address,
    pub accounts: Vec<AccountMeta>,
    pub data: Vec<u8>,
}

} // verus!
