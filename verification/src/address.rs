use vstd::prelude::*;
use crate::principal::Principal;

verus! {

/// The tag under which the vault record is stored: the ASCII bytes of `vault`.
pub open spec fn vault_tag() -> Seq<u8> {
    seq![118u8, 97u8, 117u8, 108u8, 116u8]
}

/// The tag under which nonce records are stored: the ASCII bytes of `nonce`.
pub open spec fn nonce_tag() -> Seq<u8> {
    seq![110u8, 111u8, 110u8, 99u8, 101u8]
}

/// The storage key of the nonce record of `owner`: the tag, then the owner's
/// identifier.
pub open spec fn nonce_key_spec(owner: Principal) -> Seq<u8> {
    nonce_tag() + owner.bytes@
}

/// Records never share a key: the nonce records of two different owners are
/// stored under different keys, and none of them under the vault's key.
pub proof fn lemma_keys_are_distinct(a: Principal, b: Principal)
    ensures
        nonce_key_spec(a) == nonce_key_spec(b) ==> a == b,
        nonce_key_spec(a) != vault_tag(),
{
    if nonce_key_spec(a) == nonce_key_spec(b) {
        assert forall|i: int| 0 <= i < 32 implies a.bytes@[i] == b.bytes@[i] by {
            assert(nonce_key_spec(a)[5 + i] == a.bytes@[i]);
            assert(nonce_key_spec(b)[5 + i] == b.bytes@[i]);
        }
        assert(a.bytes =~= b.bytes);
    }
    assert(nonce_key_spec(a).len() == 37);
    assert(vault_tag().len() == 5);
}

/// The storage key of the vault record.
pub fn vault_key() -> (key: Vec<u8>)
    ensures
        key@ == vault_tag(),
{
    let mut key: Vec<u8> = Vec::new();
    key.push(118);
    key.push(97);
    key.push(117);
    key.push(108);
    key.push(116);
    assert(key@ =~= vault_tag());
    key
}

/// The storage key of the nonce record of `owner`.
pub fn nonce_key(owner: &Principal) -> (key: Vec<u8>)
    ensures
        key@ == nonce_key_spec(*owner),
{
    let mut key: Vec<u8> = Vec::new();
    key.push(110);
    key.push(111);
    key.push(110);
    key.push(99);
    key.push(101);
    assert(key@ =~= nonce_tag());
    let mut i: usize = 0;
    while i < 32
        invariant
            i <= 32,
            key@ == nonce_tag() + owner.bytes@.subrange(0, i as int),
        decreases 32 - i,
    {
        key.push(owner.bytes[i]);
        assert(owner.bytes@.subrange(0, i + 1) =~= owner.bytes@.subrange(0, i as int).push(
            owner.bytes@[i as int],
        ));
        i += 1;
    }
    assert(owner.bytes@.subrange(0, 32) =~= owner.bytes@);
    key
}

} // verus!
