use vstd::prelude::*;

verus! {

/// A 32-byte account identity (a public key or a program-derived address).
#[derive(Clone, Copy, Debug)]
pub struct Address {
    pub bytes: [u8; 32],
}

impl View for Address {
    type V = Seq<u8>;

    open spec fn view(&self) -> Seq<u8> {
        self.bytes@
    }
}

impl Address {
    pub fn new(bytes: [u8; 32]) -> (r: Address)
        ensures
            r.bytes == bytes,
    {
        Address { bytes }
    }

    /// Byte-wise comparison of two addresses.
    pub fn same(&self, other: &Address) -> (r: bool)
        ensures
            r == (self@ == other@),
    {
        let mut i: usize = 0;
        while i < 32
            invariant
                0 <= i <= 32,
                self@.len() == 32,
                other@.len() == 32,
                forall|j: int| 0 <= j < i ==> self@[j] == other@[j],
            decreases 32 - i,
        {
            if self.bytes[i] != other.bytes[i] {
                assert(self@[i as int] != other@[i as int]);
                return false;
            }
            i = i + 1;
        }
        assert(self@ =~= other@);
        true
    }
}

impl PartialEq for Address {
    fn eq(&self, other: &Address) -> (r: bool) {
        self.same(other)
    }
}

impl vstd::std_specs::cmp::PartialEqSpecImpl for Address {
    open spec fn obeys_eq_spec() -> bool {
        true
    }

    open spec fn eq_spec(&self, other: &Address) -> bool {
        self@ == other@
    }
}

impl Eq for Address {}

} // verus!
