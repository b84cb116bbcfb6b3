use vstd::prelude::*;
use crate::bytes::{append_bytes, append_u32_le, append_u64_le, bytes32_eq, le_u32, le_u64};
use crate::bytes::{lemma_le_u32_injective, lemma_le_u64_injective};
use crate::keccak::{keccak256, keccak_of};

verus! {

/// The deposit as chosen by the depositor, identical on both chains.
#[derive(Clone, Debug)]
pub struct V3RelayData {
    pub depositor: [u8; 32],
    pub recipient: [u8; 32],
    pub exclusive_relayer: [u8; 32],
    pub input_token: [u8; 32],
    pub output_token: [u8; 32],
    pub input_amount: u64,
    pub output_amount: u64,
    pub origin_chain_id: u64,
    pub deposit_id: u64,
    pub fill_deadline: u32,
    pub exclusivity_deadline: u32,
    pub message: Vec<u8>,
}

/// A slow-fill leaf: relay data, destination chain and the amount to pay out.
#[derive(Clone, Debug)]
pub struct V3SlowFill {
    pub relay_data: V3RelayData,
    pub chain_id: u64,
    pub updated_output_amount: u64,
}

/// The fixed-width fields of relay data, in canonical order.
pub open spec fn relay_fields_bytes(d: V3RelayData) -> Seq<u8> {
    d.depositor@ + d.recipient@ + d.exclusive_relayer@ + d.input_token@ + d.output_token@
        + le_u64(d.input_amount) + le_u64(d.output_amount) + le_u64(d.origin_chain_id)
        + le_u64(d.deposit_id) + le_u32(d.fill_deadline) + le_u32(d.exclusivity_deadline)
}

/// Canonical encoding of a slow-fill leaf, matching the paired chain's struct order.
pub open spec fn slow_fill_bytes(l: V3SlowFill) -> Seq<u8> {
    relay_fields_bytes(l.relay_data) + l.relay_data.message@ + le_u64(l.chain_id) + le_u64(
        l.updated_output_amount,
    )
}

/// Digest of a slow-fill leaf.
pub open spec fn slow_fill_hash(l: V3SlowFill) -> Seq<u8> {
    keccak_of(slow_fill_bytes(l))
}

/// Serialized relay data: the fixed fields, then the message with a
/// little-endian `u32` length prefix.
pub open spec fn relay_data_bytes(d: V3RelayData) -> Seq<u8> {
    relay_fields_bytes(d) + le_u32(d.message@.len() as u32) + d.message@
}

/// The relay hash that binds relay data to a destination chain.
pub open spec fn relay_hash_of(d: V3RelayData, chain_id: u64) -> Seq<u8> {
    keccak_of(relay_data_bytes(d) + le_u64(chain_id))
}

/// Two leaves agree on every encoded field.
pub open spec fn same_leaf(a: V3SlowFill, b: V3SlowFill) -> bool {
    &&& a.relay_data.depositor@ == b.relay_data.depositor@
    &&& a.relay_data.recipient@ == b.relay_data.recipient@
    &&& a.relay_data.exclusive_relayer@ == b.relay_data.exclusive_relayer@
    &&& a.relay_data.input_token@ == b.relay_data.input_token@
    &&& a.relay_data.output_token@ == b.relay_data.output_token@
    &&& a.relay_data.input_amount == b.relay_data.input_amount
    &&& a.relay_data.output_amount == b.relay_data.output_amount
    &&& a.relay_data.origin_chain_id == b.relay_data.origin_chain_id
    &&& a.relay_data.deposit_id == b.relay_data.deposit_id
    &&& a.relay_data.fill_deadline == b.relay_data.fill_deadline
    &&& a.relay_data.exclusivity_deadline == b.relay_data.exclusivity_deadline
    &&& a.relay_data.message@ == b.relay_data.message@
    &&& a.chain_id == b.chain_id
    &&& a.updated_output_amount == b.updated_output_amount
}

fn append_relay_fields(out: &mut Vec<u8>, d: &V3RelayData)
    ensures
        final(out)@ == old(out)@ + relay_fields_bytes(*d),
{
    let ghost start = out@;
    append_bytes(out, d.depositor.as_slice());
    append_bytes(out, d.recipient.as_slice());
    append_bytes(out, d.exclusive_relayer.as_slice());
    append_bytes(out, d.input_token.as_slice());
    append_bytes(out, d.output_token.as_slice());
    append_u64_le(out, d.input_amount);
    append_u64_le(out, d.output_amount);
    append_u64_le(out, d.origin_chain_id);
    append_u64_le(out, d.deposit_id);
    append_u32_le(out, d.fill_deadline);
    append_u32_le(out, d.exclusivity_deadline);
    assert(out@ =~= start + relay_fields_bytes(*d));
}

impl V3SlowFill {
    /// The canonical byte encoding of this leaf.
    pub fn to_bytes(&self) -> (r: Vec<u8>)
        ensures
            r@ == slow_fill_bytes(*self),
    {
        let mut bytes: Vec<u8> = Vec::new();
        append_relay_fields(&mut bytes, &self.relay_data);
        append_bytes(&mut bytes, self.relay_data.message.as_slice());
        append_u64_le(&mut bytes, self.chain_id);
        append_u64_le(&mut bytes, self.updated_output_amount);
        assert(bytes@ =~= slow_fill_bytes(*self));
        bytes
    }

    /// Keccak-256 digest of the canonical encoding.
    pub fn to_keccak_hash(&self) -> (r: [u8; 32])
        ensures
            r@ == slow_fill_hash(*self),
    {
        let input = self.to_bytes();
        keccak256(input.as_slice())
    }
}

/// Computes the relay hash of `relay_data` for the chain `chain_id`.
pub fn get_v3_relay_hash(relay_data: &V3RelayData, chain_id: u64) -> (r: [u8; 32])
    requires
        relay_data.message@.len() <= u32::MAX,
    ensures
        r@ == relay_hash_of(*relay_data, chain_id),
{
    let mut input: Vec<u8> = Vec::new();
    append_relay_fields(&mut input, relay_data);
    append_u32_le(&mut input, relay_data.message.len() as u32);
    append_bytes(&mut input, relay_data.message.as_slice());
    append_u64_le(&mut input, chain_id);
    assert(input@ =~= relay_data_bytes(*relay_data) + le_u64(chain_id));
    keccak256(input.as_slice())
}

/// Whether `relay_hash` is the relay hash of `relay_data` on `chain_id`.
pub fn is_relay_hash_valid(relay_hash: &[u8; 32], relay_data: &V3RelayData, chain_id: u64) -> (r:
    bool)
    requires
        relay_data.message@.len() <= u32::MAX,
    ensures
        r == (relay_hash@ == relay_hash_of(*relay_data, chain_id)),
{
    let expected = get_v3_relay_hash(relay_data, chain_id);
    bytes32_eq(relay_hash, &expected)
}

/// The canonical encoding is a function of the leaf's fields, and no two
/// leaves that differ in any field share an encoding.
pub proof fn lemma_slow_fill_bytes_injective(a: V3SlowFill, b: V3SlowFill)
    ensures
        same_leaf(a, b) ==> slow_fill_bytes(a) == slow_fill_bytes(b),
        slow_fill_bytes(a) == slow_fill_bytes(b) ==> same_leaf(a, b),
{
    if slow_fill_bytes(a) == slow_fill_bytes(b) {
        let (x, y) = (slow_fill_bytes(a), slow_fill_bytes(b));
        let (da, db) = (a.relay_data, b.relay_data);
        let n = relay_fields_bytes(da).len();
        assert(n == 200);
        let ma = da.message@.len() as int;
        let mb = db.message@.len() as int;
        assert(x.len() == n + ma + 16);
        assert(ma == mb);
        assert(da.depositor@ =~= x.subrange(0, 32));
        assert(db.depositor@ =~= y.subrange(0, 32));
        assert(da.recipient@ =~= x.subrange(32, 64));
        assert(db.recipient@ =~= y.subrange(32, 64));
        assert(da.exclusive_relayer@ =~= x.subrange(64, 96));
        assert(db.exclusive_relayer@ =~= y.subrange(64, 96));
        assert(da.input_token@ =~= x.subrange(96, 128));
        assert(db.input_token@ =~= y.subrange(96, 128));
        assert(da.output_token@ =~= x.subrange(128, 160));
        assert(db.output_token@ =~= y.subrange(128, 160));
        assert(le_u64(da.input_amount) =~= x.subrange(160, 168));
        assert(le_u64(db.input_amount) =~= y.subrange(160, 168));
        lemma_le_u64_injective(da.input_amount, db.input_amount);
        assert(le_u64(da.output_amount) =~= x.subrange(168, 176));
        assert(le_u64(db.output_amount) =~= y.subrange(168, 176));
        lemma_le_u64_injective(da.output_amount, db.output_amount);
        assert(le_u64(da.origin_chain_id) =~= x.subrange(176, 184));
        assert(le_u64(db.origin_chain_id) =~= y.subrange(176, 184));
        lemma_le_u64_injective(da.origin_chain_id, db.origin_chain_id);
        assert(le_u64(da.deposit_id) =~= x.subrange(184, 192));
        assert(le_u64(db.deposit_id) =~= y.subrange(184, 192));
        lemma_le_u64_injective(da.deposit_id, db.deposit_id);
        assert(le_u32(da.fill_deadline) =~= x.subrange(192, 196));
        assert(le_u32(db.fill_deadline) =~= y.subrange(192, 196));
        lemma_le_u32_injective(da.fill_deadline, db.fill_deadline);
        assert(le_u32(da.exclusivity_deadline) =~= x.subrange(196, 200));
        assert(le_u32(db.exclusivity_deadline) =~= y.subrange(196, 200));
        lemma_le_u32_injective(da.exclusivity_deadline, db.exclusivity_deadline);
        assert(da.message@ =~= x.subrange(200, 200 + ma));
        assert(db.message@ =~= y.subrange(200, 200 + ma));
        assert(le_u64(a.chain_id) =~= x.subrange(200 + ma, 208 + ma));
        assert(le_u64(b.chain_id) =~= y.subrange(200 + ma, 208 + ma));
        lemma_le_u64_injective(a.chain_id, b.chain_id);
        assert(le_u64(a.updated_output_amount) =~= x.subrange(208 + ma, 216 + ma));
        assert(le_u64(b.updated_output_amount) =~= y.subrange(208 + ma, 216 + ma));
        lemma_le_u64_injective(a.updated_output_amount, b.updated_output_amount);
    }
    if same_leaf(a, b) {
        assert(relay_fields_bytes(a.relay_data) =~= relay_fields_bytes(b.relay_data));
    }
}

} // verus!
