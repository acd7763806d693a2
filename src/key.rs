use vstd::prelude::*;

verus! {

/// A 32-byte account identity (an address on the host ledger).
#[derive(Clone, Copy, Debug)]
pub struct Key {
    pub bytes: [u8; 32],
}

impl View for Key {
    type V = Seq<u8>;

    open spec fn view(&self) -> Seq<u8> {
        self.bytes@
    }
}

impl Key {
    /// The key with the given bytes.
    pub fn new(bytes: [u8; 32]) -> (r: Key)
        ensures
            r.bytes == bytes,
    {
        Key { bytes }
    }

    /// The key whose bytes are all `b`.
    pub fn filled(b: u8) -> (r: Key)
        ensures
            r@.len() == 32,
            forall|i: int| 0 <= i < 32 ==> r@[i] == b,
    {
        Key { bytes: [b; 32] }
    }
}

impl PartialEq for Key {
    fn eq(&self, o: &Key) -> (r: bool)
        ensures
            r == (self.bytes == o.bytes),
    {
        let mut i: usize = 0;
        while i < 32
            invariant
                0 <= i <= 32,
                forall|j: int| 0 <= j < i ==> self.bytes[j] == o.bytes[j],
            decreases 32 - i,
        {
            if self.bytes[i] != o.bytes[i] {
                return false;
            }
            i = i + 1;
        }
        assert(self.bytes =~= o.bytes);
        true
    }
}

impl vstd::std_specs::cmp::PartialEqSpecImpl for Key {
    open spec fn obeys_eq_spec() -> bool {
        true
    }

    open spec fn eq_spec(&self, o: &Key) -> bool {
        self.bytes == o.bytes
    }
}

impl Eq for Key {
}

} // verus!
