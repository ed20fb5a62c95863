use vstd::prelude::*;

verus! {

/// Identifier of a principal or of an account: thirty-two opaque bytes.
///
/// The same type names users, the authority, asset and share units and the
/// custody account; two identifiers denote the same party exactly when their
/// bytes agree.
#[derive(Clone, Copy, Debug, Eq)]
pub struct Principal {
    pub bytes: [u8; 32],
}

impl Principal {
    /// Wraps thirty-two bytes as an identifier.
    pub fn new(bytes: [u8; 32]) -> (p: Principal)
        ensures
            p.bytes == bytes,
    {
        Principal { bytes }
    }
}

impl PartialEq for Principal {
    fn eq(&self, other: &Principal) -> (same: bool) {
        let mut i: usize = 0;
        while i < 32
            invariant
                i <= 32,
                forall|j: int| 0 <= j < i ==> self.bytes@[j] == other.bytes@[j],
            decreases 32 - i,
        {
            if self.bytes[i] != other.bytes[i] {
                return false;
            }
            i += 1;
        }
        assert(self.bytes =~= other.bytes);
        true
    }
}

impl vstd::std_specs::cmp::PartialEqSpecImpl for Principal {
    open spec fn obeys_eq_spec() -> bool {
        true
    }

    open spec fn eq_spec(&self, other: &Principal) -> bool {
        *self == *other
    }
}

} // verus!
