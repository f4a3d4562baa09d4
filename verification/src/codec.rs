use vstd::bytes::{
    lemma_auto_spec_u64_to_from_le_bytes, spec_u64_from_le_bytes, spec_u64_to_le_bytes,
    u64_from_le_bytes, u64_to_le_bytes,
};
use vstd::prelude::*;
use vstd::slice::slice_subrange;

use crate::identity::Identity;
use crate::policy::{HookConfig, PendingCapUpdate};

verus! {

/// Size in bytes of one serialized policy record: version (1) + exempt
/// wallet (32) + cap (8) + governance authority (32) + pending flag (1) +
/// new cap (8) + proposed-at (8) + execution time (8).
pub const CONFIG_RECORD_BYTES: usize = 98;

/// A 32-byte identity as it is laid out in a record: its four words, each
/// little-endian.
pub open spec fn spec_identity_to_bytes(id: Identity) -> Seq<u8> {
    spec_u64_to_le_bytes(id.w0) + spec_u64_to_le_bytes(id.w1) + spec_u64_to_le_bytes(id.w2)
        + spec_u64_to_le_bytes(id.w3)
}

/// The identity whose four words are read little-endian from a 32-byte run.
pub open spec fn spec_identity_from_bytes(s: Seq<u8>) -> Identity
    recommends
        s.len() == 32,
{
    Identity {
        w0: spec_u64_from_le_bytes(s.subrange(0, 8)),
        w1: spec_u64_from_le_bytes(s.subrange(8, 16)),
        w2: spec_u64_from_le_bytes(s.subrange(16, 24)),
        w3: spec_u64_from_le_bytes(s.subrange(24, 32)),
    }
}

/// The trailing quarter of a record: a presence flag, then the pending
/// update's three fields, or zeroes when nothing is in flight. Timestamps
/// are stored as their two's-complement bit patterns.
pub open spec fn spec_pending_to_bytes(pending: Option<PendingCapUpdate>) -> Seq<u8> {
    match pending {
        None => seq![0u8] + spec_u64_to_le_bytes(0) + spec_u64_to_le_bytes(0)
            + spec_u64_to_le_bytes(0),
        Some(p) => seq![1u8] + spec_u64_to_le_bytes(p.new_cap) + spec_u64_to_le_bytes(
            p.proposed_at as u64,
        ) + spec_u64_to_le_bytes(p.execution_time as u64),
    }
}

/// The fixed byte layout of one policy record.
pub open spec fn spec_serialize_config(c: HookConfig) -> Seq<u8> {
    seq![c.version] + spec_identity_to_bytes(c.dev_wallet) + spec_u64_to_le_bytes(c.wallet_cap_raw)
        + spec_identity_to_bytes(c.governance_authority) + spec_pending_to_bytes(
        c.pending_cap_update,
    )
}

/// The record a 98-byte run denotes, or `None` where the run is not a record:
/// wrong length, a pending flag other than 0 or 1, or a cleared flag with
/// nonzero bytes where the pending fields would stand.
pub open spec fn spec_deserialize_config(bytes: Seq<u8>) -> Option<HookConfig> {
    if bytes.len() != CONFIG_RECORD_BYTES {
        None
    } else {
        let version = bytes[0];
        let dev_wallet = spec_identity_from_bytes(bytes.subrange(1, 33));
        let wallet_cap_raw = spec_u64_from_le_bytes(bytes.subrange(33, 41));
        let governance_authority = spec_identity_from_bytes(bytes.subrange(41, 73));
        let flag = bytes[73];
        let new_cap = spec_u64_from_le_bytes(bytes.subrange(74, 82));
        let proposed_at = spec_u64_from_le_bytes(bytes.subrange(82, 90));
        let execution_time = spec_u64_from_le_bytes(bytes.subrange(90, 98));
        if flag == 0 && new_cap == 0 && proposed_at == 0 && execution_time == 0 {
            Some(
                HookConfig {
                    version,
                    dev_wallet,
                    wallet_cap_raw,
                    governance_authority,
                    pending_cap_update: None,
                },
            )
        } else if flag == 1 {
            Some(
                HookConfig {
                    version,
                    dev_wallet,
                    wallet_cap_raw,
                    governance_authority,
                    pending_cap_update: Some(
                        PendingCapUpdate {
                            new_cap,
                            proposed_at: proposed_at as i64,
                            execution_time: execution_time as i64,
                        },
                    ),
                },
            )
        } else {
            None
        }
    }
}

/// Append one little-endian word to a record being built.
fn push_u64_le(out: &mut Vec<u8>, x: u64)
    ensures
        final(out)@ == old(out)@ + spec_u64_to_le_bytes(x),
{
    let mut word = u64_to_le_bytes(x);
    out.append(&mut word);
}

/// Append an identity's 32 bytes to a record being built.
fn push_identity(out: &mut Vec<u8>, id: Identity)
    ensures
        final(out)@ == old(out)@ + spec_identity_to_bytes(id),
{
    push_u64_le(out, id.w0);
    push_u64_le(out, id.w1);
    push_u64_le(out, id.w2);
    push_u64_le(out, id.w3);
}

/// Lay a policy record out in its fixed 98-byte form.
pub fn serialize_config(config: &HookConfig) -> (out: Vec<u8>)
    ensures
        out@ == spec_serialize_config(*config),
        out@.len() == CONFIG_RECORD_BYTES,
{
    proof {
        lemma_auto_spec_u64_to_from_le_bytes();
    }
    let mut out: Vec<u8> = Vec::new();
    out.push(config.version);
    assert(out@ =~= seq![config.version]);
    push_identity(&mut out, config.dev_wallet);
    push_u64_le(&mut out, config.wallet_cap_raw);
    push_identity(&mut out, config.governance_authority);
    match config.pending_cap_update {
        None => {
            out.push(0u8);
            push_u64_le(&mut out, 0);
            push_u64_le(&mut out, 0);
            push_u64_le(&mut out, 0);
        },
        Some(p) => {
            out.push(1u8);
            push_u64_le(&mut out, p.new_cap);
            push_u64_le(&mut out, p.proposed_at as u64);
            push_u64_le(&mut out, p.execution_time as u64);
        },
    }
    assert(out@ =~= spec_serialize_config(*config));
    out
}

/// Read back an identity from its 32-byte run.
fn read_identity(bytes: &[u8]) -> (id: Identity)
    requires
        bytes@.len() == 32,
    ensures
        id == spec_identity_from_bytes(bytes@),
{
    let w0 = u64_from_le_bytes(slice_subrange(bytes, 0, 8));
    let w1 = u64_from_le_bytes(slice_subrange(bytes, 8, 16));
    let w2 = u64_from_le_bytes(slice_subrange(bytes, 16, 24));
    let w3 = u64_from_le_bytes(slice_subrange(bytes, 24, 32));
    Identity { w0, w1, w2, w3 }
}

/// Parse a serialized policy record. Returns `Some` exactly on the 98-byte
/// runs that `spec_deserialize_config` accepts, and then returns the record
/// they denote.
pub fn deserialize_config(bytes: &[u8]) -> (r: Option<HookConfig>)
    ensures
        r == spec_deserialize_config(bytes@),
{
    if bytes.len() != CONFIG_RECORD_BYTES {
        return None;
    }
    let version = *vstd::slice::slice_index_get(bytes, 0);
    let dev_wallet = read_identity(slice_subrange(bytes, 1, 33));
    let wallet_cap_raw = u64_from_le_bytes(slice_subrange(bytes, 33, 41));
    let governance_authority = read_identity(slice_subrange(bytes, 41, 73));
    let flag = *vstd::slice::slice_index_get(bytes, 73);
    let new_cap = u64_from_le_bytes(slice_subrange(bytes, 74, 82));
    let proposed_at = u64_from_le_bytes(slice_subrange(bytes, 82, 90));
    let execution_time = u64_from_le_bytes(slice_subrange(bytes, 90, 98));
    if flag == 0 && new_cap == 0 && proposed_at == 0 && execution_time == 0 {
        Some(
            HookConfig {
                version,
                dev_wallet,
                wallet_cap_raw,
                governance_authority,
                pending_cap_update: None,
            },
        )
    } else if flag == 1 {
        Some(
            HookConfig {
                version,
                dev_wallet,
                wallet_cap_raw,
                governance_authority,
                pending_cap_update: Some(
                    PendingCapUpdate {
                        new_cap,
                        proposed_at: proposed_at as i64,
                        execution_time: execution_time as i64,
                    },
                ),
            },
        )
    } else {
        None
    }
}

/// An identity read back from its own layout is itself.
pub proof fn lemma_identity_bytes_round_trip(id: Identity)
    ensures
        spec_identity_to_bytes(id).len() == 32,
        spec_identity_from_bytes(spec_identity_to_bytes(id)) == id,
{
    lemma_auto_spec_u64_to_from_le_bytes();
    let s = spec_identity_to_bytes(id);
    assert(s.subrange(0, 8) =~= spec_u64_to_le_bytes(id.w0));
    assert(s.subrange(8, 16) =~= spec_u64_to_le_bytes(id.w1));
    assert(s.subrange(16, 24) =~= spec_u64_to_le_bytes(id.w2));
    assert(s.subrange(24, 32) =~= spec_u64_to_le_bytes(id.w3));
}

/// Round trip of the record layout: parsing a record's own serialized form
/// gives the record back, for every record.
pub proof fn lemma_config_round_trip(c: HookConfig)
    ensures
        spec_serialize_config(c).len() == CONFIG_RECORD_BYTES,
        spec_deserialize_config(spec_serialize_config(c)) == Some(c),
{
    lemma_auto_spec_u64_to_from_le_bytes();
    lemma_identity_bytes_round_trip(c.dev_wallet);
    lemma_identity_bytes_round_trip(c.governance_authority);
    let bytes = spec_serialize_config(c);
    assert(bytes[0] == c.version);
    assert(bytes.subrange(1, 33) =~= spec_identity_to_bytes(c.dev_wallet));
    assert(bytes.subrange(33, 41) =~= spec_u64_to_le_bytes(c.wallet_cap_raw));
    assert(bytes.subrange(41, 73) =~= spec_identity_to_bytes(c.governance_authority));
    match c.pending_cap_update {
        None => {
            assert(bytes[73] == 0);
            assert(bytes.subrange(74, 82) =~= spec_u64_to_le_bytes(0));
            assert(bytes.subrange(82, 90) =~= spec_u64_to_le_bytes(0));
            assert(bytes.subrange(90, 98) =~= spec_u64_to_le_bytes(0));
        },
        Some(p) => {
            assert(bytes[73] == 1);
            assert(bytes.subrange(74, 82) =~= spec_u64_to_le_bytes(p.new_cap));
            assert(bytes.subrange(82, 90) =~= spec_u64_to_le_bytes(p.proposed_at as u64));
            assert(bytes.subrange(90, 98) =~= spec_u64_to_le_bytes(p.execution_time as u64));
            let proposed_at = p.proposed_at;
            let execution_time = p.execution_time;
            assert(((proposed_at as u64) as i64) == proposed_at) by (bit_vector);
            assert(((execution_time as u64) as i64) == execution_time) by (bit_vector);
        },
    }
}

/// Reading an identity out of a 32-byte run and laying it out again gives
/// the run back.
pub proof fn lemma_identity_bytes_canonical(s: Seq<u8>)
    requires
        s.len() == 32,
    ensures
        spec_identity_to_bytes(spec_identity_from_bytes(s)) == s,
{
    lemma_auto_spec_u64_to_from_le_bytes();
    let id = spec_identity_from_bytes(s);
    assert(spec_u64_to_le_bytes(id.w0) == s.subrange(0, 8));
    assert(spec_u64_to_le_bytes(id.w1) == s.subrange(8, 16));
    assert(spec_u64_to_le_bytes(id.w2) == s.subrange(16, 24));
    assert(spec_u64_to_le_bytes(id.w3) == s.subrange(24, 32));
    assert(spec_identity_to_bytes(id) =~= s);
}

/// The layout has no junk: every 98-byte run the parser accepts is the
/// serialized form of the record it returns, so distinct accepted runs
/// denote distinct records.
pub proof fn lemma_accepted_bytes_canonical(bytes: Seq<u8>)
    requires
        spec_deserialize_config(bytes) is Some,
    ensures
        spec_serialize_config(spec_deserialize_config(bytes)->Some_0) == bytes,
{
    lemma_auto_spec_u64_to_from_le_bytes();
    let c = spec_deserialize_config(bytes)->Some_0;
    lemma_identity_bytes_canonical(bytes.subrange(1, 33));
    lemma_identity_bytes_canonical(bytes.subrange(41, 73));
    assert(spec_u64_to_le_bytes(c.wallet_cap_raw) == bytes.subrange(33, 41));
    if bytes[73] == 1 {
        let new_cap = spec_u64_from_le_bytes(bytes.subrange(74, 82));
        let proposed_at = spec_u64_from_le_bytes(bytes.subrange(82, 90));
        let execution_time = spec_u64_from_le_bytes(bytes.subrange(90, 98));
        assert(((proposed_at as i64) as u64) == proposed_at) by (bit_vector);
        assert(((execution_time as i64) as u64) == execution_time) by (bit_vector);
        assert(spec_u64_to_le_bytes(new_cap) == bytes.subrange(74, 82));
        assert(spec_u64_to_le_bytes(proposed_at) == bytes.subrange(82, 90));
        assert(spec_u64_to_le_bytes(execution_time) == bytes.subrange(90, 98));
    } else {
        assert(spec_u64_to_le_bytes(0) == bytes.subrange(74, 82));
        assert(spec_u64_to_le_bytes(0) == bytes.subrange(82, 90));
        assert(spec_u64_to_le_bytes(0) == bytes.subrange(90, 98));
    }
    assert(spec_serialize_config(c) =~= bytes);
}

} // verus!
