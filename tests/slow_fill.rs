use anchor_lang::solana_program::keccak;
use svm_spoke::{
    commutative_keccak256, current_time, execute_v3_slow_relay_leaf, get_v3_relay_hash,
    is_relay_hash_valid, process_proof, request_v3_slow_fill, verify_merkle_proof, CustomError,
    ExecuteV3SlowRelayLeaf, FillStatus, FillStatusAccount, FillType, RootBundle, SlowFillV3Relay,
    State, V3RelayData, V3SlowFill,
};

const CHAIN_ID: u64 = 34268394551451;
const NOW: u32 = 1_700_000_000;

fn key(b: u8) -> [u8; 32] {
    [b; 32]
}

fn relay_data() -> V3RelayData {
    V3RelayData {
        depositor: key(1),
        recipient: key(2),
        exclusive_relayer: key(3),
        input_token: key(4),
        output_token: key(5),
        input_amount: 1_000,
        output_amount: 990,
        origin_chain_id: 1,
        deposit_id: 42,
        fill_deadline: NOW - 100,
        exclusivity_deadline: NOW - 200,
        message: vec![0xde, 0xad],
    }
}

fn state() -> State {
    State { seed: 0, chain_id: CHAIN_ID, current_time: NOW, paused_fills: false }
}

fn request_ctx(status: FillStatus) -> SlowFillV3Relay {
    SlowFillV3Relay {
        state: state(),
        signer: key(9),
        fill_status: FillStatusAccount { status, relayer: [0u8; 32] },
    }
}

fn leaf(chain_id: u64) -> V3SlowFill {
    V3SlowFill { relay_data: relay_data(), chain_id, updated_output_amount: 985 }
}

fn other_leaf_hash() -> [u8; 32] {
    let mut d = relay_data();
    d.deposit_id = 43;
    V3SlowFill { relay_data: d, chain_id: CHAIN_ID, updated_output_amount: 1 }.to_keccak_hash()
}

// A two-leaf tree holding the correct leaf and one other.
fn tree_for(leaf_hash: [u8; 32]) -> ([u8; 32], Vec<[u8; 32]>) {
    let sibling = other_leaf_hash();
    (commutative_keccak256(&leaf_hash, &sibling), vec![sibling])
}

fn execute_ctx(status: FillStatus, root: [u8; 32]) -> ExecuteV3SlowRelayLeaf {
    ExecuteV3SlowRelayLeaf {
        state: state(),
        root_bundle: RootBundle { slow_relay_root: root },
        signer: key(7),
        fill_status: FillStatusAccount { status, relayer: key(9) },
        recipient: key(2),
        mint: key(5),
        mint_decimals: 6,
    }
}

fn relay_hash() -> [u8; 32] {
    get_v3_relay_hash(&relay_data(), CHAIN_ID)
}

#[test]
fn to_bytes_layout() {
    let bytes = leaf(CHAIN_ID).to_bytes();
    assert_eq!(bytes.len(), 5 * 32 + 4 * 8 + 2 * 4 + 2 + 2 * 8);
    assert_eq!(&bytes[0..32], &key(1));
    assert_eq!(&bytes[128..160], &key(5));
    assert_eq!(&bytes[160..168], &1_000u64.to_le_bytes());
    assert_eq!(&bytes[184..192], &42u64.to_le_bytes());
    assert_eq!(&bytes[192..196], &(NOW - 100).to_le_bytes());
    assert_eq!(&bytes[200..202], &[0xde, 0xad]);
    assert_eq!(&bytes[202..210], &CHAIN_ID.to_le_bytes());
    assert_eq!(&bytes[210..218], &985u64.to_le_bytes());
}

#[test]
fn to_keccak_hash_is_keccak_of_bytes() {
    let l = leaf(CHAIN_ID);
    let h = l.to_keccak_hash();
    assert_eq!(h, keccak::hash(&l.to_bytes()).0);
    assert_eq!(h, leaf(CHAIN_ID).to_keccak_hash());
    assert_ne!(h, other_leaf_hash());
    assert_ne!(h, leaf(CHAIN_ID + 1).to_keccak_hash());
}

#[test]
fn relay_hash_is_keccak_of_borsh_layout() {
    let d = relay_data();
    let mut input = leaf(0).to_bytes()[0..200].to_vec();
    input.extend_from_slice(&2u32.to_le_bytes());
    input.extend_from_slice(&[0xde, 0xad]);
    input.extend_from_slice(&CHAIN_ID.to_le_bytes());
    assert_eq!(get_v3_relay_hash(&d, CHAIN_ID), keccak::hash(&input).0);
    assert!(is_relay_hash_valid(&relay_hash(), &d, CHAIN_ID));
    assert!(!is_relay_hash_valid(&relay_hash(), &d, CHAIN_ID + 1));
}

#[test]
fn pair_hash_is_order_independent() {
    let (a, b) = (key(1), key(2));
    let mut joined = a.to_vec();
    joined.extend_from_slice(&b);
    assert_eq!(commutative_keccak256(&a, &b), keccak::hash(&joined).0);
    assert_eq!(commutative_keccak256(&b, &a), keccak::hash(&joined).0);
}

#[test]
fn merkle_proof_accepts_members_and_rejects_bit_flips() {
    let leaves: Vec<[u8; 32]> = (0u8..4).map(|i| keccak::hash(&[i]).0).collect();
    let n01 = commutative_keccak256(&leaves[0], &leaves[1]);
    let n23 = commutative_keccak256(&leaves[2], &leaves[3]);
    let root = commutative_keccak256(&n01, &n23);
    let proof = vec![leaves[3], n01];
    assert_eq!(process_proof(&proof, &leaves[2]), root);
    assert_eq!(verify_merkle_proof(&root, &leaves[2], &proof), Ok(()));
    assert_eq!(verify_merkle_proof(&root, &leaves[1], &vec![leaves[0], n23]), Ok(()));
    for i in 0..2 {
        let mut bad = proof.clone();
        bad[i][7] ^= 0x10;
        assert_eq!(
            verify_merkle_proof(&root, &leaves[2], &bad),
            Err(CustomError::InvalidMerkleProof)
        );
    }
    assert_eq!(
        verify_merkle_proof(&root, &keccak::hash(&[9]).0, &proof),
        Err(CustomError::InvalidMerkleProof)
    );
    assert_eq!(verify_merkle_proof(&root, &root, &vec![]), Ok(()));
}

#[test]
fn current_time_prefers_override() {
    assert_eq!(current_time(&state(), 5), NOW);
    let mut s = state();
    s.current_time = 0;
    assert_eq!(current_time(&s, 5), 5);
}

#[test]
fn request_marks_record_requested() {
    let mut ctx = request_ctx(FillStatus::Unfilled);
    let ev = request_v3_slow_fill(&mut ctx, relay_hash(), relay_data(), 0).unwrap();
    assert_eq!(ctx.fill_status.status, FillStatus::RequestedSlowFill);
    assert_eq!(ctx.fill_status.relayer, key(9));
    assert_eq!(ev.depositor, key(1));
    assert_eq!(ev.recipient, key(2));
    assert_eq!(ev.exclusive_relayer, key(3));
    assert_eq!(ev.output_amount, 990);
    assert_eq!(ev.deposit_id, 42);
    assert_eq!(ev.message, vec![0xde, 0xad]);
}

#[test]
fn request_when_paused_fails() {
    let mut ctx = request_ctx(FillStatus::Unfilled);
    ctx.state.paused_fills = true;
    let r = request_v3_slow_fill(&mut ctx, relay_hash(), relay_data(), 0);
    assert_eq!(r.unwrap_err(), CustomError::FillsArePaused);
    assert_eq!(ctx.fill_status.status, FillStatus::Unfilled);
}

#[test]
fn request_with_wrong_relay_hash_fails() {
    let mut ctx = request_ctx(FillStatus::Unfilled);
    let r = request_v3_slow_fill(&mut ctx, key(0), relay_data(), 0);
    assert_eq!(r.unwrap_err(), CustomError::InvalidRelayHash);
}

#[test]
fn request_inside_exclusivity_window_fails() {
    let mut ctx = request_ctx(FillStatus::Unfilled);
    let mut d = relay_data();
    d.exclusivity_deadline = NOW;
    let h = get_v3_relay_hash(&d, CHAIN_ID);
    let r = request_v3_slow_fill(&mut ctx, h, d, 0);
    assert_eq!(r.unwrap_err(), CustomError::NoSlowFillsInExclusivityWindow);
    assert_eq!(ctx.fill_status.status, FillStatus::Unfilled);
}

#[test]
fn request_before_fill_deadline_fails() {
    let mut ctx = request_ctx(FillStatus::Unfilled);
    let mut d = relay_data();
    d.fill_deadline = NOW + 1;
    let h = get_v3_relay_hash(&d, CHAIN_ID);
    let r = request_v3_slow_fill(&mut ctx, h, d, 0);
    assert_eq!(r.unwrap_err(), CustomError::ExpiredFillDeadline);
}

#[test]
fn request_uses_clock_without_override() {
    let mut ctx = request_ctx(FillStatus::Unfilled);
    ctx.state.current_time = 0;
    let r = request_v3_slow_fill(&mut ctx, relay_hash(), relay_data(), NOW - 150);
    assert_eq!(r.unwrap_err(), CustomError::ExpiredFillDeadline);
    assert!(request_v3_slow_fill(&mut ctx, relay_hash(), relay_data(), NOW).is_ok());
}

#[test]
fn request_on_filled_record_fails() {
    for status in [FillStatus::RequestedSlowFill, FillStatus::Filled] {
        let mut ctx = request_ctx(status);
        let r = request_v3_slow_fill(&mut ctx, relay_hash(), relay_data(), 0);
        assert_eq!(r.unwrap_err(), CustomError::InvalidSlowFillRequest);
        assert_eq!(ctx.fill_status.status, status);
    }
}

#[test]
fn execute_with_proof_for_other_bundle_fails() {
    let (other_root, proof) = tree_for(leaf(CHAIN_ID + 1).to_keccak_hash());
    let (root, _) = tree_for(leaf(CHAIN_ID).to_keccak_hash());
    assert_ne!(root, other_root);
    let mut ctx = execute_ctx(FillStatus::RequestedSlowFill, other_root);
    let r = execute_v3_slow_relay_leaf(&mut ctx, relay_hash(), leaf(CHAIN_ID), 2, proof);
    assert_eq!(r.unwrap_err(), CustomError::InvalidMerkleProof);
    assert_eq!(ctx.fill_status.status, FillStatus::RequestedSlowFill);
}

#[test]
fn execute_overrides_destination_chain_id() {
    let (root, proof) = tree_for(leaf(CHAIN_ID).to_keccak_hash());
    let mut ctx = execute_ctx(FillStatus::RequestedSlowFill, root);
    let r = execute_v3_slow_relay_leaf(&mut ctx, relay_hash(), leaf(777), 1, proof);
    assert!(r.is_ok());
    assert_eq!(ctx.fill_status.status, FillStatus::Filled);

    let (forged_root, forged_proof) = tree_for(leaf(777).to_keccak_hash());
    let mut ctx = execute_ctx(FillStatus::RequestedSlowFill, forged_root);
    let r = execute_v3_slow_relay_leaf(&mut ctx, relay_hash(), leaf(777), 1, forged_proof);
    assert_eq!(r.unwrap_err(), CustomError::InvalidMerkleProof);
}

#[test]
fn execute_with_wrong_accounts_fails() {
    let (root, proof) = tree_for(leaf(CHAIN_ID).to_keccak_hash());
    let mut ctx = execute_ctx(FillStatus::RequestedSlowFill, root);
    let r = execute_v3_slow_relay_leaf(&mut ctx, key(0), leaf(CHAIN_ID), 1, proof.clone());
    assert_eq!(r.unwrap_err(), CustomError::InvalidRelayHash);
    ctx.recipient = key(8);
    let r = execute_v3_slow_relay_leaf(&mut ctx, relay_hash(), leaf(CHAIN_ID), 1, proof.clone());
    assert_eq!(r.unwrap_err(), CustomError::InvalidFillRecipient);
    ctx.recipient = key(2);
    ctx.mint = key(8);
    let r = execute_v3_slow_relay_leaf(&mut ctx, relay_hash(), leaf(CHAIN_ID), 1, proof);
    assert_eq!(r.unwrap_err(), CustomError::InvalidMint);
    assert_eq!(ctx.fill_status.status, FillStatus::RequestedSlowFill);
}

#[test]
fn execute_before_request_fails() {
    let (root, proof) = tree_for(leaf(CHAIN_ID).to_keccak_hash());
    let mut ctx = execute_ctx(FillStatus::Unfilled, root);
    let r = execute_v3_slow_relay_leaf(&mut ctx, relay_hash(), leaf(CHAIN_ID), 1, proof);
    assert_eq!(r.unwrap_err(), CustomError::InvalidSlowFillRequest);
    assert_eq!(ctx.fill_status.status, FillStatus::Unfilled);
}

#[test]
fn slow_fill_happy_path() {
    let mut req = request_ctx(FillStatus::Unfilled);
    request_v3_slow_fill(&mut req, relay_hash(), relay_data(), 0).unwrap();
    assert_eq!(req.fill_status.status, FillStatus::RequestedSlowFill);

    let (root, proof) = tree_for(leaf(CHAIN_ID).to_keccak_hash());
    let mut ctx = execute_ctx(FillStatus::RequestedSlowFill, root);
    ctx.fill_status = req.fill_status;
    let out = execute_v3_slow_relay_leaf(&mut ctx, relay_hash(), leaf(CHAIN_ID), 1, proof)
        .unwrap();
    assert_eq!(ctx.fill_status.status, FillStatus::Filled);
    assert_eq!(ctx.fill_status.relayer, key(9));
    assert_eq!(out.transfer.amount, 985);
    assert_eq!(out.transfer.mint, key(5));
    assert_eq!(out.transfer.recipient, key(2));
    assert_eq!(out.transfer.decimals, 6);
    let ev = out.event;
    assert_eq!(ev.repayment_chain_id, 0);
    assert_eq!(ev.relayer, key(7));
    assert_eq!(ev.output_amount, 990);
    assert_eq!(ev.message, vec![0xde, 0xad]);
    assert_eq!(ev.relay_execution_info.fill_type, FillType::SlowFill);
    assert_eq!(ev.relay_execution_info.updated_output_amount, 985);
    assert_eq!(ev.relay_execution_info.updated_recipient, key(2));
    assert_eq!(ev.relay_execution_info.updated_message, vec![0xde, 0xad]);
}

#[test]
fn execute_twice_fails_second_time() {
    let (root, proof) = tree_for(leaf(CHAIN_ID).to_keccak_hash());
    let mut ctx = execute_ctx(FillStatus::RequestedSlowFill, root);
    let first = execute_v3_slow_relay_leaf(&mut ctx, relay_hash(), leaf(CHAIN_ID), 1, proof.clone());
    assert!(first.is_ok());
    let second = execute_v3_slow_relay_leaf(&mut ctx, relay_hash(), leaf(CHAIN_ID), 1, proof);
    assert_eq!(second.unwrap_err(), CustomError::InvalidSlowFillRequest);
    assert_eq!(ctx.fill_status.status, FillStatus::Filled);
}

#[test]
fn new_fill_record_is_unfilled() {
    let r = FillStatusAccount::new();
    assert_eq!(r.status, FillStatus::Unfilled);
    assert_eq!(r.relayer, [0u8; 32]);
}
