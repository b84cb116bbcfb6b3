use vstd::prelude::*;
use crate::bytes::append_bytes;
use crate::merkle::{process_proof_of, verify_merkle_proof};
use crate::relay::{is_relay_hash_valid, relay_hash_of, slow_fill_hash, V3RelayData, V3SlowFill};
use crate::state::{CustomError, FillStatus, FillStatusAccount, FillType, RootBundle, State};

verus! {

/// Accounts of a slow-fill request.
#[derive(Clone, Debug)]
pub struct SlowFillV3Relay {
    pub state: State,
    /// The account asking for the slow fill.
    pub signer: [u8; 32],
    /// The record stored under the relay hash.
    pub fill_status: FillStatusAccount,
}

/// Accounts of a slow-fill execution.
#[derive(Clone, Debug)]
pub struct ExecuteV3SlowRelayLeaf {
    pub state: State,
    /// The root bundle named by the caller.
    pub root_bundle: RootBundle,
    /// The account executing the leaf.
    pub signer: [u8; 32],
    /// The record stored under the relay hash.
    pub fill_status: FillStatusAccount,
    /// The recipient account supplied by the caller.
    pub recipient: [u8; 32],
    /// The mint supplied by the caller.
    pub mint: [u8; 32],
    /// Decimals of that mint.
    pub mint_decimals: u8,
}

/// Record published when a slow fill is requested.
#[derive(Clone, Debug)]
pub struct RequestedV3SlowFill {
    pub input_token: [u8; 32],
    pub output_token: [u8; 32],
    pub input_amount: u64,
    pub output_amount: u64,
    pub origin_chain_id: u64,
    pub deposit_id: u64,
    pub fill_deadline: u32,
    pub exclusivity_deadline: u32,
    pub exclusive_relayer: [u8; 32],
    pub depositor: [u8; 32],
    pub recipient: [u8; 32],
    pub message: Vec<u8>,
}

/// Execution details of a fill.
#[derive(Clone, Debug)]
pub struct V3RelayExecutionEventInfo {
    pub updated_recipient: [u8; 32],
    pub updated_message: Vec<u8>,
    pub updated_output_amount: u64,
    pub fill_type: FillType,
}

/// Record published when a relay is filled.
#[derive(Clone, Debug)]
pub struct FilledV3Relay {
    pub input_token: [u8; 32],
    pub output_token: [u8; 32],
    pub input_amount: u64,
    pub output_amount: u64,
    pub repayment_chain_id: u64,
    pub origin_chain_id: u64,
    pub deposit_id: u64,
    pub fill_deadline: u32,
    pub exclusivity_deadline: u32,
    pub exclusive_relayer: [u8; 32],
    pub relayer: [u8; 32],
    pub depositor: [u8; 32],
    pub recipient: [u8; 32],
    pub message: Vec<u8>,
    pub relay_execution_info: V3RelayExecutionEventInfo,
}

/// The transfer from the state-owned vault that an execution calls for.
#[derive(Clone, Copy, Debug)]
pub struct SlowFillTransfer {
    pub amount: u64,
    pub mint: [u8; 32],
    pub recipient: [u8; 32],
    pub decimals: u8,
}

/// What a successful execution hands to the runtime: the transfer to make
/// and the record to publish, in one transaction with the status change.
#[derive(Clone, Debug)]
pub struct SlowFillExecution {
    pub transfer: SlowFillTransfer,
    pub event: FilledV3Relay,
}

/// The time the checks go by: the override when it is set, else the clock.
pub open spec fn current_time_of(state: State, clock_time: u32) -> u32 {
    if state.current_time != 0 {
        state.current_time
    } else {
        clock_time
    }
}

/// The first failing check of a request other than the record's status.
pub open spec fn request_precondition_error(
    state: State,
    relay_hash: Seq<u8>,
    d: V3RelayData,
    clock_time: u32,
) -> Option<CustomError> {
    let now = current_time_of(state, clock_time);
    if state.paused_fills {
        Some(CustomError::FillsArePaused)
    } else if relay_hash != relay_hash_of(d, state.chain_id) {
        Some(CustomError::InvalidRelayHash)
    } else if !(d.exclusivity_deadline < now) {
        Some(CustomError::NoSlowFillsInExclusivityWindow)
    } else if !(d.fill_deadline < now) {
        Some(CustomError::ExpiredFillDeadline)
    } else {
        None
    }
}

/// The error a request ends with, or `None` when it succeeds.
pub open spec fn request_error(
    ctx: SlowFillV3Relay,
    relay_hash: Seq<u8>,
    d: V3RelayData,
    clock_time: u32,
) -> Option<CustomError> {
    match request_precondition_error(ctx.state, relay_hash, d, clock_time) {
        Some(e) => Some(e),
        None => if ctx.fill_status.status != FillStatus::Unfilled {
            Some(CustomError::InvalidSlowFillRequest)
        } else {
            None
        },
    }
}

/// The leaf as the executing chain sees it: its own chain id in place of
/// whatever the caller supplied.
pub open spec fn corrected_leaf(l: V3SlowFill, chain_id: u64) -> V3SlowFill {
    V3SlowFill {
        relay_data: l.relay_data,
        chain_id: chain_id,
        updated_output_amount: l.updated_output_amount,
    }
}

/// The first failing check of an execution other than the record's status.
pub open spec fn execute_precondition_error(
    ctx: ExecuteV3SlowRelayLeaf,
    relay_hash: Seq<u8>,
    l: V3SlowFill,
    proof: Seq<[u8; 32]>,
) -> Option<CustomError> {
    if relay_hash != relay_hash_of(l.relay_data, ctx.state.chain_id) {
        Some(CustomError::InvalidRelayHash)
    } else if ctx.recipient@ != l.relay_data.recipient@ {
        Some(CustomError::InvalidFillRecipient)
    } else if ctx.mint@ != l.relay_data.output_token@ {
        Some(CustomError::InvalidMint)
    } else if process_proof_of(slow_fill_hash(corrected_leaf(l, ctx.state.chain_id)), proof)
        != ctx.root_bundle.slow_relay_root@ {
        Some(CustomError::InvalidMerkleProof)
    } else {
        None
    }
}

/// The error an execution ends with, or `None` when it succeeds.
pub open spec fn execute_error(
    ctx: ExecuteV3SlowRelayLeaf,
    relay_hash: Seq<u8>,
    l: V3SlowFill,
    proof: Seq<[u8; 32]>,
) -> Option<CustomError> {
    match execute_precondition_error(ctx, relay_hash, l, proof) {
        Some(e) => Some(e),
        None => if ctx.fill_status.status != FillStatus::RequestedSlowFill {
            Some(CustomError::InvalidSlowFillRequest)
        } else {
            None
        },
    }
}

/// The request record carries the relay data verbatim.
pub open spec fn requested_event_of(ev: RequestedV3SlowFill, d: V3RelayData) -> bool {
    &&& ev.input_token@ == d.input_token@
    &&& ev.output_token@ == d.output_token@
    &&& ev.input_amount == d.input_amount
    &&& ev.output_amount == d.output_amount
    &&& ev.origin_chain_id == d.origin_chain_id
    &&& ev.deposit_id == d.deposit_id
    &&& ev.fill_deadline == d.fill_deadline
    &&& ev.exclusivity_deadline == d.exclusivity_deadline
    &&& ev.exclusive_relayer@ == d.exclusive_relayer@
    &&& ev.depositor@ == d.depositor@
    &&& ev.recipient@ == d.recipient@
    &&& ev.message@ == d.message@
}

/// The fill record of a slow fill: relay data, the executor, the amount paid
/// out, the slow-fill tag and no repayment chain.
pub open spec fn filled_event_of(ev: FilledV3Relay, l: V3SlowFill, relayer: Seq<u8>) -> bool {
    let d = l.relay_data;
    &&& ev.input_token@ == d.input_token@
    &&& ev.output_token@ == d.output_token@
    &&& ev.input_amount == d.input_amount
    &&& ev.output_amount == d.output_amount
    &&& ev.repayment_chain_id == 0
    &&& ev.origin_chain_id == d.origin_chain_id
    &&& ev.deposit_id == d.deposit_id
    &&& ev.fill_deadline == d.fill_deadline
    &&& ev.exclusivity_deadline == d.exclusivity_deadline
    &&& ev.exclusive_relayer@ == d.exclusive_relayer@
    &&& ev.relayer@ == relayer
    &&& ev.depositor@ == d.depositor@
    &&& ev.recipient@ == d.recipient@
    &&& ev.message@ == d.message@
    &&& ev.relay_execution_info.updated_recipient@ == d.recipient@
    &&& ev.relay_execution_info.updated_message@ == d.message@
    &&& ev.relay_execution_info.updated_output_amount == l.updated_output_amount
    &&& ev.relay_execution_info.fill_type == FillType::SlowFill
}

/// The time the checks go by: `state.current_time` when nonzero, else `clock_time`.
pub fn current_time(state: &State, clock_time: u32) -> (r: u32)
    ensures
        r == current_time_of(*state, clock_time),
{
    if state.current_time != 0 {
        state.current_time
    } else {
        clock_time
    }
}

fn copy_bytes(v: &Vec<u8>) -> (r: Vec<u8>)
    ensures
        r@ == v@,
{
    let mut r: Vec<u8> = Vec::new();
    append_bytes(&mut r, v.as_slice());
    r
}

/// Moves an unfilled record to `RequestedSlowFill`, stamping the requester,
/// once the exclusivity window and the fill deadline have both passed.
/// On failure nothing changes.
pub fn request_v3_slow_fill(
    ctx: &mut SlowFillV3Relay,
    relay_hash: [u8; 32],
    relay_data: V3RelayData,
    clock_time: u32,
) -> (r: Result<RequestedV3SlowFill, CustomError>)
    requires
        relay_data.message@.len() <= u32::MAX,
    ensures
        match r {
            Ok(ev) => {
                &&& request_error(*old(ctx), relay_hash@, relay_data, clock_time) is None
                &&& final(ctx).fill_status.status == FillStatus::RequestedSlowFill
                &&& final(ctx).fill_status.relayer == old(ctx).signer
                &&& final(ctx).state == old(ctx).state
                &&& final(ctx).signer == old(ctx).signer
                &&& requested_event_of(ev, relay_data)
            },
            Err(e) => {
                &&& request_error(*old(ctx), relay_hash@, relay_data, clock_time) == Some(e)
                &&& *final(ctx) == *old(ctx)
            },
        },
{
    if ctx.state.paused_fills {
        return Err(CustomError::FillsArePaused);
    }
    if !is_relay_hash_valid(&relay_hash, &relay_data, ctx.state.chain_id) {
        return Err(CustomError::InvalidRelayHash);
    }
    let now = current_time(&ctx.state, clock_time);
    if !(relay_data.exclusivity_deadline < now) {
        return Err(CustomError::NoSlowFillsInExclusivityWindow);
    }
    if !(relay_data.fill_deadline < now) {
        return Err(CustomError::ExpiredFillDeadline);
    }
    if ctx.fill_status.status != FillStatus::Unfilled {
        return Err(CustomError::InvalidSlowFillRequest);
    }
    ctx.fill_status.status = FillStatus::RequestedSlowFill;
    ctx.fill_status.relayer = ctx.signer;
    Ok(
        RequestedV3SlowFill {
            input_token: relay_data.input_token,
            output_token: relay_data.output_token,
            input_amount: relay_data.input_amount,
            output_amount: relay_data.output_amount,
            origin_chain_id: relay_data.origin_chain_id,
            deposit_id: relay_data.deposit_id,
            fill_deadline: relay_data.fill_deadline,
            exclusivity_deadline: relay_data.exclusivity_deadline,
            exclusive_relayer: relay_data.exclusive_relayer,
            depositor: relay_data.depositor,
            recipient: relay_data.recipient,
            message: relay_data.message,
        },
    )
}

/// Pays out an included, requested slow-fill leaf: checks the relay hash, the
/// recipient and mint, the leaf's inclusion in the root bundle (with this
/// chain's id in place of the caller's) and that the record is
/// `RequestedSlowFill`; then marks the record `Filled` and returns the
/// transfer of `updated_output_amount` and the fill record.
/// `_root_bundle_id` names the bundle that `ctx.root_bundle` was loaded from.
/// On failure nothing changes.
pub fn execute_v3_slow_relay_leaf(
    ctx: &mut ExecuteV3SlowRelayLeaf,
    relay_hash: [u8; 32],
    slow_fill_leaf: V3SlowFill,
    _root_bundle_id: u32,
    proof: Vec<[u8; 32]>,
) -> (r: Result<SlowFillExecution, CustomError>)
    requires
        slow_fill_leaf.relay_data.message@.len() <= u32::MAX,
    ensures
        match r {
            Ok(out) => {
                &&& execute_error(*old(ctx), relay_hash@, slow_fill_leaf, proof@) is None
                &&& final(ctx).fill_status.status == FillStatus::Filled
                &&& final(ctx).fill_status.relayer == old(ctx).fill_status.relayer
                &&& final(ctx).state == old(ctx).state
                &&& final(ctx).root_bundle == old(ctx).root_bundle
                &&& final(ctx).signer == old(ctx).signer
                &&& final(ctx).recipient == old(ctx).recipient
                &&& final(ctx).mint == old(ctx).mint
                &&& final(ctx).mint_decimals == old(ctx).mint_decimals
                &&& out.transfer.amount == slow_fill_leaf.updated_output_amount
                &&& out.transfer.mint@ == slow_fill_leaf.relay_data.output_token@
                &&& out.transfer.recipient@ == slow_fill_leaf.relay_data.recipient@
                &&& out.transfer.decimals == old(ctx).mint_decimals
                &&& filled_event_of(out.event, slow_fill_leaf, old(ctx).signer@)
            },
            Err(e) => {
                &&& execute_error(*old(ctx), relay_hash@, slow_fill_leaf, proof@) == Some(e)
                &&& *final(ctx) == *old(ctx)
            },
        },
{
    if !is_relay_hash_valid(&relay_hash, &slow_fill_leaf.relay_data, ctx.state.chain_id) {
        return Err(CustomError::InvalidRelayHash);
    }
    if !crate::bytes::bytes32_eq(&ctx.recipient, &slow_fill_leaf.relay_data.recipient) {
        return Err(CustomError::InvalidFillRecipient);
    }
    if !crate::bytes::bytes32_eq(&ctx.mint, &slow_fill_leaf.relay_data.output_token) {
        return Err(CustomError::InvalidMint);
    }
    let ghost supplied = slow_fill_leaf;
    let mut slow_fill = slow_fill_leaf;
    slow_fill.chain_id = ctx.state.chain_id;
    assert(slow_fill == corrected_leaf(supplied, ctx.state.chain_id));
    let leaf = slow_fill.to_keccak_hash();
    match verify_merkle_proof(&ctx.root_bundle.slow_relay_root, &leaf, &proof) {
        Ok(()) => {},
        Err(e) => {
            return Err(e);
        },
    }
    if ctx.fill_status.status != FillStatus::RequestedSlowFill {
        return Err(CustomError::InvalidSlowFillRequest);
    }
    ctx.fill_status.status = FillStatus::Filled;
    let relay_data = slow_fill.relay_data;
    let updated_message = copy_bytes(&relay_data.message);
    let transfer = SlowFillTransfer {
        amount: slow_fill.updated_output_amount,
        mint: ctx.mint,
        recipient: relay_data.recipient,
        decimals: ctx.mint_decimals,
    };
    let event = FilledV3Relay {
        input_token: relay_data.input_token,
        output_token: relay_data.output_token,
        input_amount: relay_data.input_amount,
        output_amount: relay_data.output_amount,
        repayment_chain_id: 0,
        origin_chain_id: relay_data.origin_chain_id,
        deposit_id: relay_data.deposit_id,
        fill_deadline: relay_data.fill_deadline,
        exclusivity_deadline: relay_data.exclusivity_deadline,
        exclusive_relayer: relay_data.exclusive_relayer,
        relayer: ctx.signer,
        depositor: relay_data.depositor,
        recipient: relay_data.recipient,
        message: relay_data.message,
        relay_execution_info: V3RelayExecutionEventInfo {
            updated_recipient: relay_data.recipient,
            updated_message,
            updated_output_amount: slow_fill.updated_output_amount,
            fill_type: FillType::SlowFill,
        },
    };
    Ok(SlowFillExecution { transfer, event })
}

/// A status change that the lifecycle allows: `Unfilled` to
/// `RequestedSlowFill`, and `RequestedSlowFill` to `Filled`.
pub open spec fn legal_step(from: FillStatus, to: FillStatus) -> bool {
    ||| from == FillStatus::Unfilled && to == FillStatus::RequestedSlowFill
    ||| from == FillStatus::RequestedSlowFill && to == FillStatus::Filled
}

/// `ctx` with its fill record set to `status`.
pub open spec fn with_status(ctx: ExecuteV3SlowRelayLeaf, status: FillStatus) -> ExecuteV3SlowRelayLeaf {
    ExecuteV3SlowRelayLeaf {
        fill_status: FillStatusAccount { status: status, relayer: ctx.fill_status.relayer },
        ..ctx
    }
}

/// `Unfilled`, `RequestedSlowFill`, `Filled` is the only path a record takes:
/// a request succeeds only from `Unfilled` and an execution only from
/// `RequestedSlowFill`, each taking one legal step; a request from any other
/// status, or an execution from any other status, fails, and with
/// `InvalidSlowFillRequest` once every other check has passed.
pub proof fn lemma_fill_lifecycle(
    req: SlowFillV3Relay,
    relay_data: V3RelayData,
    clock_time: u32,
    exe: ExecuteV3SlowRelayLeaf,
    leaf: V3SlowFill,
    proof: Seq<[u8; 32]>,
    relay_hash: Seq<u8>,
)
    ensures
        request_error(req, relay_hash, relay_data, clock_time) is None ==> legal_step(
            req.fill_status.status,
            FillStatus::RequestedSlowFill,
        ),
        execute_error(exe, relay_hash, leaf, proof) is None ==> legal_step(
            exe.fill_status.status,
            FillStatus::Filled,
        ),
        req.fill_status.status != FillStatus::Unfilled ==> request_error(
            req,
            relay_hash,
            relay_data,
            clock_time,
        ) is Some,
        req.fill_status.status != FillStatus::Unfilled && request_precondition_error(
            req.state,
            relay_hash,
            relay_data,
            clock_time,
        ) is None ==> request_error(req, relay_hash, relay_data, clock_time) == Some(
            CustomError::InvalidSlowFillRequest,
        ),
        exe.fill_status.status != FillStatus::RequestedSlowFill ==> execute_error(
            exe,
            relay_hash,
            leaf,
            proof,
        ) is Some,
        exe.fill_status.status != FillStatus::RequestedSlowFill && execute_precondition_error(
            exe,
            relay_hash,
            leaf,
            proof,
        ) is None ==> execute_error(exe, relay_hash, leaf, proof) == Some(
            CustomError::InvalidSlowFillRequest,
        ),
{
}

/// Execution ignores the caller's destination chain id: two leaves that
/// differ only in it meet the same outcome, which is that of the leaf
/// carrying the executing chain's own id.
pub proof fn lemma_chain_id_overridden(
    ctx: ExecuteV3SlowRelayLeaf,
    relay_hash: Seq<u8>,
    a: V3SlowFill,
    b: V3SlowFill,
    proof: Seq<[u8; 32]>,
)
    requires
        a.relay_data == b.relay_data,
        a.updated_output_amount == b.updated_output_amount,
    ensures
        execute_error(ctx, relay_hash, a, proof) == execute_error(ctx, relay_hash, b, proof),
        execute_error(ctx, relay_hash, a, proof) == execute_error(
            ctx,
            relay_hash,
            corrected_leaf(a, ctx.state.chain_id),
            proof,
        ),
{
    assert(corrected_leaf(a, ctx.state.chain_id) == corrected_leaf(b, ctx.state.chain_id));
    assert(corrected_leaf(corrected_leaf(a, ctx.state.chain_id), ctx.state.chain_id)
        == corrected_leaf(a, ctx.state.chain_id));
}

/// Executing a leaf a second time, after the first execution succeeded and
/// left the record `Filled`, fails with `InvalidSlowFillRequest`.
pub proof fn lemma_execute_once(
    ctx: ExecuteV3SlowRelayLeaf,
    relay_hash: Seq<u8>,
    leaf: V3SlowFill,
    proof: Seq<[u8; 32]>,
)
    requires
        execute_error(ctx, relay_hash, leaf, proof) is None,
    ensures
        execute_error(with_status(ctx, FillStatus::Filled), relay_hash, leaf, proof) == Some(
            CustomError::InvalidSlowFillRequest,
        ),
{
}

/// A request that succeeded leaves a record that a second request refuses
/// with `InvalidSlowFillRequest`, whatever the clock then says.
pub proof fn lemma_request_once(
    ctx: SlowFillV3Relay,
    relay_hash: Seq<u8>,
    relay_data: V3RelayData,
    clock_time: u32,
    later_ctx: SlowFillV3Relay,
    later_clock_time: u32,
)
    requires
        request_error(ctx, relay_hash, relay_data, clock_time) is None,
        later_ctx.state == ctx.state,
        later_ctx.fill_status.status == FillStatus::RequestedSlowFill,
        later_clock_time >= clock_time,
    ensures
        request_error(later_ctx, relay_hash, relay_data, later_clock_time) == Some(
            CustomError::InvalidSlowFillRequest,
        ),
{
}

} // verus!
