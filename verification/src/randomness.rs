//! Commit-reveal randomness protocol and the weighted winner draw.
//!
//! The operator binds a secret before the per-slot ledger entropy is known
//! by publishing `sha256(secret, target_slot)`; after the target slot the
//! secret is revealed and combined with that slot's entropy, so neither
//! party can steer the final random value alone.

use vstd::prelude::*;
use vstd::bytes::{spec_u64_to_le_bytes, spec_u64_from_le_bytes, spec_u128_from_le_bytes};
use vstd::bytes::{u64_to_le_bytes, u64_from_le_bytes, u128_from_le_bytes};
use vstd::slice::slice_subrange;
use vstd::arithmetic::div_mod::lemma_mod_bound;
use crate::state::RIGS_PER_EXPLORATION;

verus! {

/// The SHA-256 digest of a byte sequence, by name only: the digest depends
/// on the input bytes alone, and nothing more is assumed of it.
pub uninterp spec fn sha256_of(data: Seq<u8>) -> Seq<u8>;

/// Relies on `anchor_lang::solana_program::hash::hash`: the SHA-256 digest
/// of the input bytes — a pure function of its input, 32 bytes long.
#[verifier::external_body]
fn sha256(data: &Vec<u8>) -> (r: [u8; 32])
    ensures
        r@ == sha256_of(data@),
{
    anchor_lang::solana_program::hash::hash(data.as_slice()).to_bytes()
}

/// The preimage bound by a commitment: the secret followed by the target
/// slot in little-endian bytes.
pub open spec fn spec_commit_data(secret: Seq<u8>, target_slot: u64) -> Seq<u8> {
    secret + spec_u64_to_le_bytes(target_slot)
}

/// The commitment for a secret and a target slot.
pub open spec fn spec_commit_hash(secret: Seq<u8>, target_slot: u64) -> Seq<u8> {
    sha256_of(spec_commit_data(secret, target_slot))
}

/// Whether a revealed secret matches a stored commitment.
pub open spec fn spec_reveal_ok(secret: Seq<u8>, target_slot: u64, commit_hash: Seq<u8>) -> bool {
    spec_commit_hash(secret, target_slot) == commit_hash
}

/// The final random value: the digest of the secret followed by the
/// external per-slot entropy.
pub open spec fn spec_random_value(secret: Seq<u8>, slot_hash: Seq<u8>) -> Seq<u8> {
    sha256_of(secret + slot_hash)
}

/// Append the 32 bytes of `arr` to `data`.
fn push_bytes32(data: &mut Vec<u8>, arr: &[u8; 32])
    requires
        old(data)@.len() + 32 <= usize::MAX,
    ensures
        final(data)@ == old(data)@ + arr@,
{
    let ghost start = data@;
    let mut i: usize = 0;
    while i < 32
        invariant
            i <= 32,
            data@ == start + arr@.subrange(0, i as int),
        decreases 32 - i,
    {
        let b = arr[i];
        data.push(b);
        proof {
            assert(start + arr@.subrange(0, i as int) + seq![arr@[i as int]]
                =~= start + arr@.subrange(0, i as int + 1));
        }
        i += 1;
    }
    proof {
        assert(arr@.subrange(0, 32) =~= arr@);
    }
}

/// Generate the commitment for a secret and a target slot.
pub fn generate_commit_hash(secret: &[u8; 32], target_slot: u64) -> (r: [u8; 32])
    ensures
        r@ == spec_commit_hash(secret@, target_slot),
{
    let mut data: Vec<u8> = Vec::new();
    push_bytes32(&mut data, secret);
    let slot_bytes = u64_to_le_bytes(target_slot);
    let ghost before = data@;
    let mut j: usize = 0;
    while j < slot_bytes.len()
        invariant
            j <= slot_bytes@.len(),
            slot_bytes@ == spec_u64_to_le_bytes(target_slot),
            slot_bytes@.len() == 8,
            before == secret@,
            data@ == before + slot_bytes@.subrange(0, j as int),
        decreases slot_bytes@.len() - j,
    {
        let b = slot_bytes[j];
        data.push(b);
        proof {
            assert(before + slot_bytes@.subrange(0, j as int) + seq![slot_bytes@[j as int]]
                =~= before + slot_bytes@.subrange(0, j as int + 1));
        }
        j += 1;
    }
    proof {
        assert(slot_bytes@.subrange(0, slot_bytes@.len() as int) =~= slot_bytes@);
        assert(data@ =~= spec_commit_data(secret@, target_slot));
    }
    sha256(&data)
}

/// Compare two 32-byte values.
fn bytes32_eq(a: &[u8; 32], b: &[u8; 32]) -> (eq: bool)
    ensures
        eq == (a@ == b@),
{
    let mut i: usize = 0;
    while i < 32
        invariant
            i <= 32,
            forall|k: int| 0 <= k < i ==> a@[k] == b@[k],
        decreases 32 - i,
    {
        if a[i] != b[i] {
            return false;
        }
        i += 1;
    }
    proof {
        assert(a@ =~= b@);
    }
    true
}

/// Check that a revealed secret and target slot reproduce the commitment.
pub fn verify_reveal(secret: &[u8; 32], target_slot: u64, commit_hash: &[u8; 32]) -> (ok: bool)
    ensures
        ok == spec_reveal_ok(secret@, target_slot, commit_hash@),
{
    let computed = generate_commit_hash(secret, target_slot);
    bytes32_eq(&computed, commit_hash)
}

/// A valid commitment always verifies against the secret and slot that
/// produced it: the commit-reveal round trip cannot fail.
pub proof fn lemma_commit_reveal_round_trip(secret: Seq<u8>, target_slot: u64)
    ensures
        spec_reveal_ok(secret, target_slot, spec_commit_hash(secret, target_slot)),
{
}

/// Combine the revealed secret with the per-slot entropy into the final
/// random value.
pub fn generate_random_value(secret: &[u8; 32], slot_hash: &[u8; 32]) -> (r: [u8; 32])
    ensures
        r@ == spec_random_value(secret@, slot_hash@),
{
    let mut data: Vec<u8> = Vec::new();
    push_bytes32(&mut data, secret);
    push_bytes32(&mut data, slot_hash);
    sha256(&data)
}

/// Walk of the serialized slot-hash entries: `count` entries remain, the
/// next starting at `offset`; the hash of the first entry whose slot equals
/// `target`, if the walk reaches one.
pub open spec fn slot_hash_lookup_at(data: Seq<u8>, count: nat, offset: int, target: u64) -> Option<
    Seq<u8>,
>
    decreases count,
{
    if count == 0 || offset + 40 > data.len() {
        None
    } else if spec_u64_from_le_bytes(data.subrange(offset, offset + 8)) == target {
        Some(data.subrange(offset + 8, offset + 40))
    } else {
        slot_hash_lookup_at(data, (count - 1) as nat, offset + 40, target)
    }
}

/// The entropy recorded for `target` in a serialized slot-hash history:
/// 8 bytes of entry count, then 40-byte entries of slot and hash.
pub open spec fn spec_slot_hash(data: Seq<u8>, target: u64) -> Option<Seq<u8>> {
    if data.len() < 8 {
        None
    } else {
        slot_hash_lookup_at(data, spec_u64_from_le_bytes(data.subrange(0, 8)) as nat, 8, target)
    }
}

/// Copy 32 bytes out of a slice.
fn read_bytes32(data: &[u8], start: usize) -> (r: [u8; 32])
    requires
        start + 32 <= data@.len(),
    ensures
        r@ == data@.subrange(start as int, start as int + 32),
{
    let dlen = data.len();
    let mut r = [0u8; 32];
    let mut i: usize = 0;
    while i < 32
        invariant
            i <= 32,
            start + 32 <= dlen,
            dlen == data@.len(),
            r@.len() == 32,
            forall|k: int| 0 <= k < i ==> r@[k] == data@[start + k],
        decreases 32 - i,
    {
        let b = *vstd::slice::slice_index_get(data, start + i);
        r[i] = b;
        i += 1;
    }
    proof {
        assert(r@ =~= data@.subrange(start as int, start as int + 32));
    }
    r
}

/// Look up the hash recorded for `target_slot` in the serialized slot-hash
/// history (a count followed by 40-byte entries, newest first).
pub fn get_slot_hash(slot_hashes_data: &[u8], target_slot: u64) -> (r: Option<[u8; 32]>)
    ensures
        match r {
            Some(h) => spec_slot_hash(slot_hashes_data@, target_slot) == Some(h@),
            None => spec_slot_hash(slot_hashes_data@, target_slot) is None,
        },
{
    let n_bytes = slot_hashes_data.len();
    if n_bytes < 8 {
        return None;
    }
    let len_bytes = slice_subrange(slot_hashes_data, 0, 8);
    let n = u64_from_le_bytes(len_bytes);
    let mut offset: usize = 8;
    let mut i: u64 = 0;
    while i < n
        invariant
            i <= n,
            8 <= offset <= slot_hashes_data@.len(),
            spec_slot_hash(slot_hashes_data@, target_slot) == slot_hash_lookup_at(
                slot_hashes_data@,
                (n - i) as nat,
                offset as int,
                target_slot,
            ),
        decreases n - i,
    {
        if slot_hashes_data.len() - offset < 40 {
            return None;
        }
        let slot_bytes = slice_subrange(slot_hashes_data, offset, offset + 8);
        let slot = u64_from_le_bytes(slot_bytes);
        if slot == target_slot {
            let h = read_bytes32(slot_hashes_data, offset + 8);
            return Some(h);
        }
        offset += 40;
        i += 1;
    }
    None
}

/// Sum of the per-rig ticket counts.
pub open spec fn ticket_sum(s: Seq<u128>) -> int
    decreases s.len(),
{
    if s.len() == 0 {
        0
    } else {
        ticket_sum(s.drop_last()) + s.last()
    }
}

/// Extending a prefix by one element adds that element to its sum.
pub proof fn lemma_ticket_sum_take_step(s: Seq<u128>, i: int)
    requires
        0 <= i < s.len(),
    ensures
        ticket_sum(s.take(i + 1)) == ticket_sum(s.take(i)) + s[i],
{
    assert(s.take(i + 1).drop_last() =~= s.take(i));
    assert(s.take(i + 1).last() == s[i]);
}

/// A prefix sum never exceeds the whole sum.
pub proof fn lemma_ticket_sum_take_le(s: Seq<u128>, i: int)
    requires
        0 <= i <= s.len(),
    ensures
        ticket_sum(s.take(i)) <= ticket_sum(s),
    decreases s.len() - i,
{
    if i == s.len() {
        assert(s.take(i) =~= s);
    } else {
        lemma_ticket_sum_take_step(s, i);
        lemma_ticket_sum_take_le(s, i + 1);
    }
}

/// A longer prefix never sums to less.
pub proof fn lemma_ticket_sum_prefix_monotone(s: Seq<u128>, a: int, b: int)
    requires
        0 <= a <= b <= s.len(),
    ensures
        ticket_sum(s.take(a)) <= ticket_sum(s.take(b)),
    decreases b - a,
{
    if a < b {
        lemma_ticket_sum_take_step(s, a);
        lemma_ticket_sum_prefix_monotone(s, a + 1, b);
    }
}

/// The number drawn from a random value over a positive ticket total: the
/// first 16 bytes read little-endian, modulo the total.
pub open spec fn spec_draw(random_value: Seq<u8>, total: int) -> int {
    (spec_u128_from_le_bytes(random_value.subrange(0, 16)) as int) % total
}

/// Index `i` wins for this random value: the draw falls into the interval
/// of the cumulative ticket counts belonging to `i`.
pub open spec fn winner_at(random_value: Seq<u8>, tickets: Seq<u128>, i: int) -> bool {
    &&& 0 <= i < tickets.len()
    &&& ticket_sum(tickets.take(i)) <= spec_draw(random_value, ticket_sum(tickets))
    &&& spec_draw(random_value, ticket_sum(tickets)) < ticket_sum(tickets.take(i + 1))
}

/// The winning index for a random value over a ticket distribution.
pub open spec fn spec_winner(random_value: Seq<u8>, tickets: Seq<u128>) -> int {
    choose|i: int| winner_at(random_value, tickets, i)
}

/// The cumulative intervals partition the draw space: at most one index
/// can win.
pub proof fn lemma_winner_at_unique(random_value: Seq<u8>, tickets: Seq<u128>, i: int, j: int)
    requires
        winner_at(random_value, tickets, i),
        winner_at(random_value, tickets, j),
    ensures
        i == j,
{
    if i < j {
        lemma_ticket_sum_prefix_monotone(tickets, i + 1, j);
    }
    if j < i {
        lemma_ticket_sum_prefix_monotone(tickets, j + 1, i);
    }
}

/// Pick the winning rig for a random value: the draw lands in exactly one
/// interval of the cumulative ticket counts. Returns `None` exactly when no
/// tickets exist at all.
pub fn select_winning_rig(
    random_value: &[u8; 32],
    rig_tickets: &[u128; RIGS_PER_EXPLORATION],
) -> (winner: Option<u8>)
    requires
        ticket_sum(rig_tickets@) <= u128::MAX,
    ensures
        winner is None <==> ticket_sum(rig_tickets@) == 0,
        match winner {
            Some(w) => {
                &&& w < 36
                &&& winner_at(random_value@, rig_tickets@, w as int)
                &&& w as int == spec_winner(random_value@, rig_tickets@)
            },
            None => true,
        },
{
    let ghost s = rig_tickets@;
    let mut total: u128 = 0;
    let mut i: usize = 0;
    while i < RIGS_PER_EXPLORATION
        invariant
            i <= 36,
            s == rig_tickets@,
            s.len() == 36,
            total == ticket_sum(s.take(i as int)),
            ticket_sum(s) <= u128::MAX,
        decreases 36 - i,
    {
        proof {
            lemma_ticket_sum_take_step(s, i as int);
            lemma_ticket_sum_take_le(s, i as int + 1);
        }
        total = total + rig_tickets[i];
        i += 1;
    }
    proof {
        assert(s.take(36) =~= s);
    }
    if total == 0 {
        return None;
    }
    let first16 = slice_subrange(random_value.as_slice(), 0, 16);
    let random_u128 = u128_from_le_bytes(first16);
    let winning_ticket = random_u128 % total;
    proof {
        lemma_mod_bound(random_u128 as int, total as int);
    }
    let mut cumulative: u128 = 0;
    let mut j: usize = 0;
    while j < RIGS_PER_EXPLORATION
        invariant
            j <= 36,
            s == rig_tickets@,
            s.len() == 36,
            cumulative == ticket_sum(s.take(j as int)),
            ticket_sum(s) <= u128::MAX,
            winning_ticket as int == spec_draw(random_value@, ticket_sum(s)),
            winning_ticket < ticket_sum(s),
            cumulative <= winning_ticket,
        decreases 36 - j,
    {
        proof {
            lemma_ticket_sum_take_step(s, j as int);
            lemma_ticket_sum_take_le(s, j as int + 1);
        }
        cumulative = cumulative + rig_tickets[j];
        if winning_ticket < cumulative {
            proof {
                assert(winner_at(random_value@, s, j as int));
                lemma_winner_at_unique(
                    random_value@,
                    s,
                    j as int,
                    spec_winner(random_value@, s),
                );
            }
            return Some(j as u8);
        }
        j += 1;
    }
    proof {
        assert(s.take(36) =~= s);
        assert(false);
    }
    Some((RIGS_PER_EXPLORATION - 1) as u8)
}

} // verus!
