use vstd::prelude::*;

verus! {

broadcast use vstd::array::group_array_axioms;

/// A 32-byte identity: a caller, a stored authority, or a seed reference.
#[derive(Clone, Copy, Debug)]
pub struct Principal {
    pub bytes: [u8; 32],
}

impl View for Principal {
    type V = Seq<u8>;

    open spec fn view(&self) -> Seq<u8> {
        self.bytes@
    }
}

impl Principal {
    pub fn new(bytes: [u8; 32]) -> (r: Principal)
        ensures
            r@ == bytes@,
    {
        Principal { bytes }
    }

    /// Byte-for-byte equality of two identities.
    pub fn eq_bytes(&self, other: &Principal) -> (r: bool)
        ensures
            r == (self@ == other@),
    {
        eq_32(&self.bytes, &other.bytes)
    }
}

/// A 32-byte derived address at which a record is stored.
#[derive(Clone, Copy, Debug)]
pub struct Address {
    pub bytes: [u8; 32],
}

impl View for Address {
    type V = Seq<u8>;

    open spec fn view(&self) -> Seq<u8> {
        self.bytes@
    }
}

impl Address {
    /// Byte-for-byte equality of two addresses.
    pub fn eq_bytes(&self, other: &Address) -> (r: bool)
        ensures
            r == (self@ == other@),
    {
        eq_32(&self.bytes, &other.bytes)
    }
}

/// Byte-for-byte equality of two 32-byte values.
fn eq_32(a: &[u8; 32], b: &[u8; 32]) -> (r: bool)
    ensures
        r == (a@ == b@),
{
    let mut i: usize = 0;
    while i < 32
        invariant
            i <= 32,
            forall|j: int| 0 <= j < i ==> a@[j] == b@[j],
        decreases 32 - i,
    {
        if a[i] != b[i] {
            assert(a@[i as int] != b@[i as int]);
            return false;
        }
        i += 1;
    }
    assert(a@ =~= b@);
    true
}

} // verus!
