use vstd::prelude::*;
use crate::types::{Fr, Operation, ProverData, SubOperation};

verus! {

/// Units of public data per block chunk.
pub const CHUNK_WIDTH: usize = 64;

/// A fee taken by a transaction, to be credited to the block's fee account.
#[derive(Clone, Copy, Debug, PartialEq, Eq, Structural)]
pub struct CollectedFee {
    pub token: u16,
    pub amount: u128,
}

/// A ledger operation of a block, with what the replay itself reads of it.
#[derive(Clone, Copy, Debug, PartialEq, Eq, Structural)]
pub enum LedgerOp {
    Deposit,
    Transfer { token: u16, fee: u128 },
    TransferToNew { token: u16, fee: u128 },
    Withdraw { token: u16, fee: u128 },
    Close { token: u16, fee: u128 },
    FullExit { withdraw_amount: Option<u128> },
    ChangePubKeyOffchain,
    Noop,
}

/// How one ledger operation is replayed against the account tree.
#[derive(Clone, Copy, Debug, PartialEq, Eq, Structural)]
pub enum ReplayPlan {
    /// Nothing to apply: the slot is filled by padding.
    Skip,
    /// Apply the operation and derive its sub-operations from the witness
    /// alone.
    Unsigned,
    /// Apply a full exit; `success` shapes the witness.
    FullExit { success: bool },
    /// Apply the operation, pack its signature and derive the signature
    /// data; `fee` is collected for the fee account.
    Signed { fee: CollectedFee },
}

/// The plan for a ledger operation.
pub open spec fn plan_of(op: LedgerOp) -> ReplayPlan {
    match op {
        LedgerOp::Deposit => ReplayPlan::Unsigned,
        LedgerOp::ChangePubKeyOffchain => ReplayPlan::Unsigned,
        LedgerOp::FullExit { withdraw_amount } => ReplayPlan::FullExit {
            success: withdraw_amount is Some,
        },
        LedgerOp::Transfer { token, fee } => ReplayPlan::Signed {
            fee: CollectedFee { token, amount: fee },
        },
        LedgerOp::TransferToNew { token, fee } => ReplayPlan::Signed {
            fee: CollectedFee { token, amount: fee },
        },
        LedgerOp::Withdraw { token, fee } => ReplayPlan::Signed {
            fee: CollectedFee { token, amount: fee },
        },
        LedgerOp::Close { token, fee } => ReplayPlan::Signed {
            fee: CollectedFee { token, amount: fee },
        },
        LedgerOp::Noop => ReplayPlan::Skip,
    }
}

/// The fee an operation contributes, if any.
pub open spec fn fee_of(op: LedgerOp) -> Option<CollectedFee> {
    match plan_of(op) {
        ReplayPlan::Signed { fee } => Some(fee),
        _ => None,
    }
}

/// Decides how `op` is replayed.
pub fn replay_plan(op: &LedgerOp) -> (r: ReplayPlan)
    ensures
        r == plan_of(*op),
{
    match *op {
        LedgerOp::Deposit => ReplayPlan::Unsigned,
        LedgerOp::ChangePubKeyOffchain => ReplayPlan::Unsigned,
        LedgerOp::FullExit { withdraw_amount } => ReplayPlan::FullExit {
            success: withdraw_amount.is_some(),
        },
        LedgerOp::Transfer { token, fee } => ReplayPlan::Signed {
            fee: CollectedFee { token, amount: fee },
        },
        LedgerOp::TransferToNew { token, fee } => ReplayPlan::Signed {
            fee: CollectedFee { token, amount: fee },
        },
        LedgerOp::Withdraw { token, fee } => ReplayPlan::Signed {
            fee: CollectedFee { token, amount: fee },
        },
        LedgerOp::Close { token, fee } => ReplayPlan::Signed {
            fee: CollectedFee { token, amount: fee },
        },
        LedgerOp::Noop => ReplayPlan::Skip,
    }
}

/// A broken invariant of block preparation: the block must not be proved.
#[derive(Clone, Copy, Debug, PartialEq, Eq, Structural)]
pub enum InvariantViolation {
    /// The account tree was requested before any state was loaded.
    NoCachedState,
    /// The block number has no preceding state height.
    NoParentBlock,
    /// The requested state height lies below the cached one.
    HeightRegression,
    /// Too many sub-operations or too much public data for one block.
    PaddedLength,
    /// The fee-folding step did not report the fee account's data.
    MissingFeeAccountData,
    /// The recomputed root differs from the one recorded at commit time.
    RootMismatch,
}

/// Why a block's prover data could not be built.
#[derive(Clone, Debug)]
pub enum BuildError {
    /// Storage could not be read; the message says why.
    Storage(String),
    /// A transaction signature could not be packed.
    SignaturePacking(String),
    /// A correctness violation: stop, never skip the block.
    Invariant(InvariantViolation),
}

impl BuildError {
    pub open spec fn is_fatal(&self) -> bool {
        self is Invariant
    }
}

/// The state height a block is replayed from: the one just before it.
pub fn parent_height(block_number: u32) -> (r: Result<u32, BuildError>)
    ensures
        block_number >= 1 ==> (r matches Ok(h) && h == block_number - 1),
        block_number == 0 ==> (r matches Err(
            BuildError::Invariant(InvariantViolation::NoParentBlock),
        )),
{
    if block_number >= 1 {
        Ok(block_number - 1)
    } else {
        Err(BuildError::Invariant(InvariantViolation::NoParentBlock))
    }
}

/// The fee account identifier as a field element.
pub fn validator_address(fee_account: u32) -> (r: Fr)
    ensures
        r == Fr::spec_from_u32(fee_account),
{
    Fr::from_u32(fee_account)
}

/// Per-block accumulator of replay results: sub-operations and public data
/// in replay order, the collected fees, and, once the fees are folded into
/// the tree, the fee account's data and the resulting root.
pub struct WitnessAccumulator {
    pub fee_account: u32,
    pub block_number: u32,
    pub operations: Vec<SubOperation>,
    pub pubdata: Vec<u8>,
    pub fees: Vec<CollectedFee>,
    pub root_after_fees: Option<Fr>,
    pub pubdata_commitment: Option<Fr>,
    pub fee_account_balances: Option<Vec<Fr>>,
    pub fee_account_audit_path: Option<Vec<Fr>>,
    pub fee_account_witness: Option<Vec<Fr>>,
}

impl WitnessAccumulator {
    pub fn new(fee_account: u32, block_number: u32) -> (r: Self)
        ensures
            r.fee_account == fee_account,
            r.block_number == block_number,
            r.operations@.len() == 0,
            r.pubdata@.len() == 0,
            r.fees@.len() == 0,
            r.root_after_fees is None,
            r.pubdata_commitment is None,
            r.fee_account_balances is None,
            r.fee_account_audit_path is None,
            r.fee_account_witness is None,
    {
        WitnessAccumulator {
            fee_account,
            block_number,
            operations: Vec::new(),
            pubdata: Vec::new(),
            fees: Vec::new(),
            root_after_fees: None,
            pubdata_commitment: None,
            fee_account_balances: None,
            fee_account_audit_path: None,
            fee_account_witness: None,
        }
    }
    /// Records the replay of `op`: its sub-operations and public data are
    /// appended in order and its fee, if any, is collected. A no-op records
    /// nothing; its slot is filled by padding.
    pub fn record(&mut self, op: &LedgerOp, sub_ops: Vec<SubOperation>, pubdata: Vec<u8>)
        ensures
            final(self).fee_account == old(self).fee_account,
            final(self).block_number == old(self).block_number,
            final(self).root_after_fees == old(self).root_after_fees,
            final(self).pubdata_commitment == old(self).pubdata_commitment,
            final(self).fee_account_balances == old(self).fee_account_balances,
            final(self).fee_account_audit_path == old(self).fee_account_audit_path,
            final(self).fee_account_witness == old(self).fee_account_witness,
            plan_of(*op) is Skip ==> {
                &&& final(self).operations@ == old(self).operations@
                &&& final(self).pubdata@ == old(self).pubdata@
                &&& final(self).fees@ == old(self).fees@
            },
            !(plan_of(*op) is Skip) ==> {
                &&& final(self).operations@ == old(self).operations@ + sub_ops@
                &&& final(self).pubdata@ == old(self).pubdata@ + pubdata@
                &&& final(self).fees@ == match fee_of(*op) {
                    Some(f) => old(self).fees@.push(f),
                    None => old(self).fees@,
                }
            },
    {
        let plan = replay_plan(op);
        match plan {
            ReplayPlan::Skip => {},
            _ => {
                let mut sub_ops = sub_ops;
                let mut pubdata = pubdata;
                self.operations.append(&mut sub_ops);
                self.pubdata.append(&mut pubdata);
                match plan {
                    ReplayPlan::Signed { fee: f } => {
                        self.fees.push(f);
                    },
                    _ => {},
                }
            },
        }
    }

    /// Pads the block to exactly `chunks` sub-operations and
    /// `CHUNK_WIDTH * chunks` units of public data, with copies of `filler`
    /// (the witness backend's empty slot) and zero units. Fails, changing
    /// nothing, where the replay produced more than that.
    pub fn pad_to_block(&mut self, chunks: usize, filler: &SubOperation) -> (r: Result<
        (),
        BuildError,
    >)
        requires
            chunks <= usize::MAX / CHUNK_WIDTH,
        ensures
            r is Ok <==> (old(self).operations@.len() <= chunks && old(self).pubdata@.len()
                <= CHUNK_WIDTH * chunks),
            r matches Err(e) ==> e == BuildError::Invariant(InvariantViolation::PaddedLength)
                && *final(self) == *old(self),
            r is Ok ==> {
                &&& final(self).operations@.len() == chunks
                &&& final(self).operations@.subrange(0, old(self).operations@.len() as int)
                    == old(self).operations@
                &&& forall|i: int|
                    old(self).operations@.len() <= i < chunks
                        ==> (#[trigger] final(self).operations@[i]).same_as(*filler)
                &&& final(self).pubdata@ == old(self).pubdata@ + Seq::new(
                    (CHUNK_WIDTH * chunks - old(self).pubdata@.len()) as nat,
                    |i: int| 0u8,
                )
                &&& final(self).fees@ == old(self).fees@
                &&& final(self).fee_account == old(self).fee_account
                &&& final(self).block_number == old(self).block_number
                &&& final(self).root_after_fees == old(self).root_after_fees
                &&& final(self).pubdata_commitment == old(self).pubdata_commitment
                &&& final(self).fee_account_balances == old(self).fee_account_balances
                &&& final(self).fee_account_audit_path == old(self).fee_account_audit_path
                &&& final(self).fee_account_witness == old(self).fee_account_witness
            },
    {
        let total = CHUNK_WIDTH * chunks;
        if self.operations.len() > chunks || self.pubdata.len() > total {
            return Err(BuildError::Invariant(InvariantViolation::PaddedLength));
        }
        let ghost ops0 = self.operations@;
        let ghost data0 = self.pubdata@;
        while self.operations.len() < chunks
            invariant
                ops0.len() <= self.operations@.len() <= chunks,
                self.operations@.subrange(0, ops0.len() as int) == ops0,
                forall|i: int|
                    ops0.len() <= i < self.operations@.len() ==> (
                    #[trigger] self.operations@[i]).same_as(*filler),
                self.pubdata@ == data0,
                self.fees@ == old(self).fees@,
                self.fee_account == old(self).fee_account,
                self.block_number == old(self).block_number,
                self.root_after_fees == old(self).root_after_fees,
                self.pubdata_commitment == old(self).pubdata_commitment,
                self.fee_account_balances == old(self).fee_account_balances,
                self.fee_account_audit_path == old(self).fee_account_audit_path,
                self.fee_account_witness == old(self).fee_account_witness,
            decreases chunks - self.operations@.len(),
        {
            let ghost before = self.operations@;
            self.operations.push(filler.duplicate());
            proof {
                assert(self.operations@.subrange(0, ops0.len() as int) =~= before.subrange(
                    0,
                    ops0.len() as int,
                ));
            }
        }
        while self.pubdata.len() < total
            invariant
                total == CHUNK_WIDTH * chunks,
                data0.len() <= self.pubdata@.len() <= total,
                self.pubdata@ == data0 + Seq::new(
                    (self.pubdata@.len() - data0.len()) as nat,
                    |i: int| 0u8,
                ),
                self.operations@.len() == chunks,
                self.operations@.subrange(0, ops0.len() as int) == ops0,
                forall|i: int|
                    ops0.len() <= i < chunks ==> (#[trigger] self.operations@[i]).same_as(*filler),
                self.fees@ == old(self).fees@,
                self.fee_account == old(self).fee_account,
                self.block_number == old(self).block_number,
                self.root_after_fees == old(self).root_after_fees,
                self.pubdata_commitment == old(self).pubdata_commitment,
                self.fee_account_balances == old(self).fee_account_balances,
                self.fee_account_audit_path == old(self).fee_account_audit_path,
                self.fee_account_witness == old(self).fee_account_witness,
            decreases total - self.pubdata@.len(),
        {
            self.pubdata.push(0u8);
            proof {
                assert(self.pubdata@ =~= data0 + Seq::new(
                    (self.pubdata@.len() - data0.len()) as nat,
                    |i: int| 0u8,
                ));
            }
        }
        Ok(())
    }

    /// Assembles the block's prover data once the fees are folded in and the
    /// public data is committed to. The root after the fees must be the one
    /// the commit record holds, and the fee account's data must be present.
    pub fn into_prover_data(self, commit: &Operation, initial_root: Fr) -> (r: Result<
        ProverData,
        BuildError,
    >)
        ensures
            self.root_after_fees is None ==> (r matches Err(e) && e == BuildError::Invariant(
                InvariantViolation::MissingFeeAccountData,
            )),
            (self.root_after_fees matches Some(root) && root != commit.new_root_hash) ==> (
            r matches Err(e) && e == BuildError::Invariant(InvariantViolation::RootMismatch)),
            r is Ok <==> {
                &&& self.root_after_fees == Some(commit.new_root_hash)
                &&& self.pubdata_commitment is Some
                &&& self.fee_account_balances is Some
                &&& self.fee_account_audit_path is Some
                &&& self.fee_account_witness is Some
            },
            r matches Err(e) ==> e.is_fatal(),
            r matches Ok(pd) ==> {
                &&& Some(pd.public_data_commitment) == self.pubdata_commitment
                &&& pd.old_root == initial_root
                &&& pd.new_root == commit.new_root_hash
                &&& pd.validator_address == Fr::spec_from_u32(commit.fee_account)
                &&& pd.operations@ == self.operations@
                &&& Some(pd.validator_balances) == self.fee_account_balances
                &&& Some(pd.validator_audit_path) == self.fee_account_audit_path
                &&& Some(pd.validator_account) == self.fee_account_witness
            },
    {
        let root = match self.root_after_fees {
            Some(root) => root,
            None => {
                return Err(BuildError::Invariant(InvariantViolation::MissingFeeAccountData));
            },
        };
        if root != commit.new_root_hash {
            return Err(BuildError::Invariant(InvariantViolation::RootMismatch));
        }
        match (
            self.pubdata_commitment,
            self.fee_account_balances,
            self.fee_account_audit_path,
            self.fee_account_witness,
        ) {
            (Some(commitment), Some(balances), Some(path), Some(account)) => Ok(
                ProverData {
                    public_data_commitment: commitment,
                    old_root: initial_root,
                    new_root: commit.new_root_hash,
                    validator_address: validator_address(commit.fee_account),
                    operations: self.operations,
                    validator_balances: balances,
                    validator_audit_path: path,
                    validator_account: account,
                },
            ),
            _ => Err(BuildError::Invariant(InvariantViolation::MissingFeeAccountData)),
        }
    }
}

} // verus!
