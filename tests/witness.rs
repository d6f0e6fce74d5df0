use prover_pool::types::{Fr, Operation, SubOperation};
use prover_pool::witness::{
    parent_height, replay_plan, validator_address, BuildError, CollectedFee, InvariantViolation,
    LedgerOp, ReplayPlan, WitnessAccumulator,
};

fn sub(tx_type: u8, chunk: u8) -> SubOperation {
    SubOperation { tx_type, chunk, args: vec![Fr::from_u32(tx_type as u32)] }
}

fn filler() -> SubOperation {
    SubOperation { tx_type: 0, chunk: 0, args: vec![Fr::zero()] }
}

fn commit(root: u32) -> Operation {
    Operation { block_number: 5, fee_account: 7, new_root_hash: Fr::from_u32(root) }
}

fn finalized(mut acc: WitnessAccumulator, root: u32) -> WitnessAccumulator {
    acc.root_after_fees = Some(Fr::from_u32(root));
    acc.pubdata_commitment = Some(Fr::from_u32(99));
    acc.fee_account_balances = Some(vec![Fr::from_u32(1)]);
    acc.fee_account_audit_path = Some(vec![Fr::from_u32(2), Fr::from_u32(3)]);
    acc.fee_account_witness = Some(vec![Fr::from_u32(4)]);
    acc
}

#[test]
fn plans_follow_operation_kinds() {
    assert_eq!(replay_plan(&LedgerOp::Deposit), ReplayPlan::Unsigned);
    assert_eq!(replay_plan(&LedgerOp::ChangePubKeyOffchain), ReplayPlan::Unsigned);
    assert_eq!(replay_plan(&LedgerOp::Noop), ReplayPlan::Skip);
    assert_eq!(
        replay_plan(&LedgerOp::Close { token: 4, fee: 6 }),
        ReplayPlan::Signed { fee: CollectedFee { token: 4, amount: 6 } }
    );
    assert_eq!(
        replay_plan(&LedgerOp::Transfer { token: 2, fee: 30 }),
        ReplayPlan::Signed { fee: CollectedFee { token: 2, amount: 30 } }
    );
    assert_eq!(
        replay_plan(&LedgerOp::TransferToNew { token: 1, fee: 3 }),
        ReplayPlan::Signed { fee: CollectedFee { token: 1, amount: 3 } }
    );
    assert_eq!(
        replay_plan(&LedgerOp::Withdraw { token: 0, fee: 8 }),
        ReplayPlan::Signed { fee: CollectedFee { token: 0, amount: 8 } }
    );
    assert_eq!(
        replay_plan(&LedgerOp::FullExit { withdraw_amount: Some(5) }),
        ReplayPlan::FullExit { success: true }
    );
    assert_eq!(
        replay_plan(&LedgerOp::FullExit { withdraw_amount: None }),
        ReplayPlan::FullExit { success: false }
    );
}

#[test]
fn parent_height_is_previous_block() {
    assert_eq!(parent_height(5).unwrap(), 4);
    assert!(matches!(
        parent_height(0),
        Err(BuildError::Invariant(InvariantViolation::NoParentBlock))
    ));
}

#[test]
fn validator_address_is_fee_account_value() {
    assert_eq!(validator_address(7), Fr { l0: 7, l1: 0, l2: 0, l3: 0 });
}

#[test]
fn record_appends_and_collects_fees() {
    let mut acc = WitnessAccumulator::new(7, 5);
    acc.record(&LedgerOp::Deposit, vec![sub(1, 0), sub(1, 1)], vec![1; 128]);
    acc.record(&LedgerOp::Noop, vec![sub(9, 9)], vec![9; 64]);
    acc.record(&LedgerOp::Transfer { token: 2, fee: 30 }, vec![sub(5, 0)], vec![5; 64]);
    acc.record(&LedgerOp::Close { token: 1, fee: 9 }, vec![sub(4, 0)], vec![4; 64]);
    assert_eq!(acc.operations.len(), 4);
    assert_eq!(acc.operations[2].tx_type, 5);
    assert_eq!(acc.pubdata.len(), 256);
    assert_eq!(acc.pubdata[128], 5);
    assert_eq!(
        acc.fees,
        vec![CollectedFee { token: 2, amount: 30 }, CollectedFee { token: 1, amount: 9 }]
    );
}

#[test]
fn single_deposit_block_pads_to_exact_lengths() {
    let chunks = 8usize;
    let mut acc = WitnessAccumulator::new(7, 5);
    acc.record(&LedgerOp::Deposit, vec![sub(1, 0), sub(1, 1)], vec![1; 128]);
    acc.pad_to_block(chunks, &filler()).unwrap();
    assert_eq!(acc.operations.len(), chunks);
    assert_eq!(acc.pubdata.len(), 64 * chunks);
    assert_eq!(acc.operations[1].tx_type, 1);
    assert!(acc.operations[2..]
        .iter()
        .all(|o| o.tx_type == 0 && o.chunk == 0 && o.args == vec![Fr::zero()]));
    assert!(acc.pubdata[128..].iter().all(|b| *b == 0));
    let initial = Fr::from_u32(11);
    let pd = finalized(acc, 42).into_prover_data(&commit(42), initial).unwrap();
    assert_eq!(pd.old_root, initial);
    assert_eq!(pd.new_root, Fr::from_u32(42));
    assert_eq!(pd.validator_address, Fr::from_u32(7));
    assert_eq!(pd.operations.len(), chunks);
    assert_eq!(pd.public_data_commitment, Fr::from_u32(99));
    assert_eq!(pd.validator_audit_path.len(), 2);
}

#[test]
fn overfull_block_is_fatal_and_unchanged() {
    let mut acc = WitnessAccumulator::new(7, 5);
    acc.record(&LedgerOp::Deposit, vec![sub(1, 0), sub(1, 1), sub(1, 2)], vec![1; 192]);
    let err = acc.pad_to_block(2, &filler()).unwrap_err();
    assert!(matches!(err, BuildError::Invariant(InvariantViolation::PaddedLength)));
    assert_eq!(acc.operations.len(), 3);
    assert_eq!(acc.pubdata.len(), 192);
}

#[test]
fn root_mismatch_is_fatal() {
    let mut acc = WitnessAccumulator::new(7, 5);
    acc.pad_to_block(4, &filler()).unwrap();
    let err = finalized(acc, 41).into_prover_data(&commit(42), Fr::zero()).unwrap_err();
    assert!(matches!(err, BuildError::Invariant(InvariantViolation::RootMismatch)));
}

#[test]
fn missing_fee_account_data_is_fatal() {
    let acc = WitnessAccumulator::new(7, 5);
    let err = acc.into_prover_data(&commit(42), Fr::zero()).unwrap_err();
    assert!(matches!(err, BuildError::Invariant(InvariantViolation::MissingFeeAccountData)));
    let mut acc = finalized(WitnessAccumulator::new(7, 5), 42);
    acc.fee_account_witness = None;
    let err = acc.into_prover_data(&commit(42), Fr::zero()).unwrap_err();
    assert!(matches!(err, BuildError::Invariant(InvariantViolation::MissingFeeAccountData)));
}

#[test]
fn same_replay_gives_same_public_data() {
    let run = || {
        let mut acc = WitnessAccumulator::new(7, 5);
        acc.record(&LedgerOp::Deposit, vec![sub(1, 0)], vec![3; 64]);
        acc.record(&LedgerOp::Withdraw { token: 0, fee: 2 }, vec![sub(3, 0)], vec![7; 64]);
        acc.pad_to_block(4, &filler()).unwrap();
        acc
    };
    let a = run();
    let b = run();
    assert_eq!(a.pubdata, b.pubdata);
    assert_eq!(a.fees, b.fees);
}

#[test]
fn duplicate_copies_every_field() {
    let s = SubOperation { tx_type: 3, chunk: 2, args: vec![Fr::from_u32(5), Fr::from_u32(6)] };
    let d = s.duplicate();
    assert_eq!(d.tx_type, 3);
    assert_eq!(d.chunk, 2);
    assert_eq!(d.args, s.args);
}

#[test]
fn close_collects_its_fee() {
    let mut acc = WitnessAccumulator::new(7, 5);
    acc.record(&LedgerOp::Close { token: 3, fee: 11 }, vec![sub(4, 0)], vec![4; 64]);
    assert_eq!(acc.fees, vec![CollectedFee { token: 3, amount: 11 }]);
}
