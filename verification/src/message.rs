use vstd::prelude::*;
use crate::principal::Principal;

verus! {

/// The `width` low-order bytes of `value`, least significant first.
pub open spec fn le_bytes(value: nat, width: nat) -> Seq<u8>
    decreases width,
{
    if width == 0 {
        Seq::empty()
    } else {
        seq![(value % 256) as u8] + le_bytes(value / 256, (width - 1) as nat)
    }
}

/// The unsigned sixty-four-bit number with the same bit pattern as `value`.
pub open spec fn twos_complement(value: i64) -> nat {
    if value >= 0 {
        value as nat
    } else {
        (value + 0x1_0000_0000_0000_0000) as nat
    }
}

/// The message an owner signs to authorize a delegated redemption: the owner's
/// identifier, the share amount, the receiver's identifier, the nonce and the
/// deadline, concatenated in that order, each number as eight little-endian
/// bytes.
pub open spec fn redeem_message_spec(
    owner: Principal,
    shares: u64,
    receiver: Principal,
    nonce: u64,
    deadline: i64,
) -> Seq<u8> {
    owner.bytes@ + le_bytes(shares as nat, 8) + receiver.bytes@ + le_bytes(nonce as nat, 8)
        + le_bytes(twos_complement(deadline), 8)
}

/// An encoding of `width` bytes is `width` bytes long.
pub proof fn lemma_le_bytes_len(value: nat, width: nat)
    ensures
        le_bytes(value, width).len() == width,
    decreases width,
{
    if width > 0 {
        lemma_le_bytes_len(value / 256, (width - 1) as nat);
    }
}

/// The number of values that `width` bytes can tell apart: `256^width`.
pub open spec fn capacity(width: nat) -> nat
    decreases width,
{
    if width == 0 {
        1
    } else {
        256 * capacity((width - 1) as nat)
    }
}

/// Two numbers below `256^width` with the same encoding are the same number.
pub proof fn lemma_le_bytes_injective(a: nat, b: nat, width: nat)
    requires
        le_bytes(a, width) == le_bytes(b, width),
        a < capacity(width),
        b < capacity(width),
    ensures
        a == b,
    decreases width,
{
    if width > 0 {
        let w = (width - 1) as nat;
        let ea = le_bytes(a, width);
        let eb = le_bytes(b, width);
        lemma_le_bytes_len(a / 256, w);
        lemma_le_bytes_len(b / 256, w);
        assert(ea[0] == (a % 256) as u8);
        assert(eb[0] == (b % 256) as u8);
        assert(le_bytes(a / 256, w) =~= ea.subrange(1, width as int));
        assert(le_bytes(b / 256, w) =~= eb.subrange(1, width as int));
        lemma_le_bytes_injective(a / 256, b / 256, w);
    }
}

/// The message binds every field of the request: two requests with the same
/// message agree on the owner, the share amount, the receiver, the nonce and
/// the deadline. A signature over the message therefore authorizes one
/// request and no other.
pub proof fn lemma_message_binds_every_field(
    owner: Principal,
    shares: u64,
    receiver: Principal,
    nonce: u64,
    deadline: i64,
    other_owner: Principal,
    other_shares: u64,
    other_receiver: Principal,
    other_nonce: u64,
    other_deadline: i64,
)
    requires
        redeem_message_spec(owner, shares, receiver, nonce, deadline) == redeem_message_spec(
            other_owner,
            other_shares,
            other_receiver,
            other_nonce,
            other_deadline,
        ),
    ensures
        owner == other_owner,
        shares == other_shares,
        receiver == other_receiver,
        nonce == other_nonce,
        deadline == other_deadline,
{
    let m = redeem_message_spec(owner, shares, receiver, nonce, deadline);
    let n = redeem_message_spec(
        other_owner,
        other_shares,
        other_receiver,
        other_nonce,
        other_deadline,
    );
    lemma_le_bytes_len(shares as nat, 8);
    lemma_le_bytes_len(nonce as nat, 8);
    lemma_le_bytes_len(twos_complement(deadline), 8);
    lemma_le_bytes_len(other_shares as nat, 8);
    lemma_le_bytes_len(other_nonce as nat, 8);
    lemma_le_bytes_len(twos_complement(other_deadline), 8);
    assert(m.subrange(0, 32) =~= owner.bytes@);
    assert(n.subrange(0, 32) =~= other_owner.bytes@);
    assert(m.subrange(32, 40) =~= le_bytes(shares as nat, 8));
    assert(n.subrange(32, 40) =~= le_bytes(other_shares as nat, 8));
    assert(m.subrange(40, 72) =~= receiver.bytes@);
    assert(n.subrange(40, 72) =~= other_receiver.bytes@);
    assert(m.subrange(72, 80) =~= le_bytes(nonce as nat, 8));
    assert(n.subrange(72, 80) =~= le_bytes(other_nonce as nat, 8));
    assert(m.subrange(80, 88) =~= le_bytes(twos_complement(deadline), 8));
    assert(n.subrange(80, 88) =~= le_bytes(twos_complement(other_deadline), 8));
    assert(owner.bytes =~= other_owner.bytes);
    assert(receiver.bytes =~= other_receiver.bytes);
    assert(capacity(8) == 0x1_0000_0000_0000_0000) by {
        reveal_with_fuel(capacity, 9);
    }
    lemma_le_bytes_injective(shares as nat, other_shares as nat, 8);
    lemma_le_bytes_injective(nonce as nat, other_nonce as nat, 8);
    lemma_le_bytes_injective(twos_complement(deadline), twos_complement(other_deadline), 8);
}

fn push_le(out: &mut Vec<u8>, value: u64)
    ensures
        final(out)@ == old(out)@ + le_bytes(value as nat, 8),
{
    let ghost start = out@;
    let mut rest: u64 = value;
    let mut i: usize = 0;
    while i < 8
        invariant
            i <= 8,
            out@ + le_bytes(rest as nat, (8 - i) as nat) == start + le_bytes(value as nat, 8),
        decreases 8 - i,
    {
        let ghost prior = out@;
        let low: u8 = (rest % 256) as u8;
        out.push(low);
        proof {
            assert(le_bytes(rest as nat, (8 - i) as nat) == seq![low] + le_bytes(
                (rest / 256) as nat,
                (8 - i - 1) as nat,
            ));
            assert(out@ + le_bytes((rest / 256) as nat, (8 - i - 1) as nat) =~= prior + le_bytes(
                rest as nat,
                (8 - i) as nat,
            ));
        }
        rest = rest / 256;
        i += 1;
    }
    assert(le_bytes(rest as nat, 0) =~= Seq::<u8>::empty());
    assert(out@ + Seq::<u8>::empty() =~= out@);
}

fn push_identifier(out: &mut Vec<u8>, party: &Principal)
    ensures
        final(out)@ == old(out)@ + party.bytes@,
{
    let ghost start = out@;
    let mut i: usize = 0;
    while i < 32
        invariant
            i <= 32,
            out@ == start + party.bytes@.subrange(0, i as int),
        decreases 32 - i,
    {
        out.push(party.bytes[i]);
        assert(party.bytes@.subrange(0, i + 1) =~= party.bytes@.subrange(0, i as int).push(
            party.bytes@[i as int],
        ));
        i += 1;
    }
    assert(party.bytes@.subrange(0, 32) =~= party.bytes@);
}

fn bit_pattern(value: i64) -> (bits: u64)
    ensures
        bits == twos_complement(value),
{
    if value >= 0 {
        value as u64
    } else {
        let magnitude: i64 = (value + i64::MAX) + 1;
        (magnitude as u64) + 0x8000_0000_0000_0000
    }
}

/// Builds the message an owner signs to authorize a delegated redemption.
pub fn redeem_message(
    owner: &Principal,
    shares: u64,
    receiver: &Principal,
    nonce: u64,
    deadline: i64,
) -> (message: Vec<u8>)
    ensures
        message@ == redeem_message_spec(*owner, shares, *receiver, nonce, deadline),
        message@.len() == 88,
{
    let mut message: Vec<u8> = Vec::new();
    push_identifier(&mut message, owner);
    push_le(&mut message, shares);
    push_identifier(&mut message, receiver);
    push_le(&mut message, nonce);
    push_le(&mut message, bit_pattern(deadline));
    proof {
        lemma_le_bytes_len(shares as nat, 8);
        lemma_le_bytes_len(nonce as nat, 8);
        lemma_le_bytes_len(twos_complement(deadline), 8);
        assert(message@ =~= redeem_message_spec(*owner, shares, *receiver, nonce, deadline));
    }
    message
}

} // verus!
