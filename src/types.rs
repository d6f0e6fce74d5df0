use vstd::prelude::*;

verus! {

/// A field element in canonical (non-Montgomery) representation, as four
/// little-endian 64-bit limbs.
#[derive(Clone, Copy, Debug, PartialEq, Eq, Structural)]
pub struct Fr {
    pub l0: u64,
    pub l1: u64,
    pub l2: u64,
    pub l3: u64,
}

impl Fr {
    /// The field element whose value is the given small integer.
    pub open spec fn spec_from_u32(v: u32) -> Fr {
        Fr { l0: v as u64, l1: 0, l2: 0, l3: 0 }
    }

    pub fn from_u32(v: u32) -> (r: Fr)
        ensures
            r == Fr::spec_from_u32(v),
    {
        Fr { l0: v as u64, l1: 0, l2: 0, l3: 0 }
    }

    pub fn zero() -> (r: Fr)
        ensures
            r == Fr::spec_from_u32(0),
    {
        Fr { l0: 0, l1: 0, l2: 0, l3: 0 }
    }
}

/// A committed block awaiting proof: its number, the account that collects
/// the block's fees, and the state root recorded at commit time.
#[derive(Clone, Copy, Debug, PartialEq, Eq, Structural)]
pub struct Operation {
    pub block_number: u32,
    pub fee_account: u32,
    pub new_root_hash: Fr,
}

/// One padded slot of a block's circuit input: the operation type, the
/// chunk of the operation it stands for, and the witness values that the
/// circuit consumes for it.
#[derive(Clone, Debug)]
pub struct SubOperation {
    pub tx_type: u8,
    pub chunk: u8,
    pub args: Vec<Fr>,
}

impl SubOperation {
    /// Whether `other` holds the same slot as this one.
    pub open spec fn same_as(&self, other: SubOperation) -> bool {
        self.tx_type == other.tx_type && self.chunk == other.chunk && self.args@ == other.args@
    }

    /// A copy of this slot.
    pub fn duplicate(&self) -> (r: SubOperation)
        ensures
            r.same_as(*self),
    {
        let args = self.args.clone();
        proof {
            assert(args@ =~= self.args@);
        }
        SubOperation { tx_type: self.tx_type, chunk: self.chunk, args }
    }
}

/// Everything a prover needs to prove one block.
#[derive(Clone, Debug)]
pub struct ProverData {
    pub public_data_commitment: Fr,
    pub old_root: Fr,
    pub new_root: Fr,
    pub validator_address: Fr,
    pub operations: Vec<SubOperation>,
    pub validator_balances: Vec<Fr>,
    pub validator_audit_path: Vec<Fr>,
    pub validator_account: Vec<Fr>,
}

} // verus!
