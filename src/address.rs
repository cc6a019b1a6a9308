use vstd::prelude::*;

verus! {

/// A 32-byte ledger address.
#[derive(Clone, Copy, Debug)]
pub struct Address {
    pub bytes: [u8; 32],
}

impl View for Address {
    type V = Seq<u8>;

    open spec fn view(&self) -> Seq<u8> {
        self.bytes@
    }
}

/// The address of this program, which every derivation is made under.
pub open spec fn program_id() -> Seq<u8> {
    seq![
        30u8, 236, 145, 230, 148, 154, 86, 19, 207, 84, 201, 163, 150, 40, 66, 68,
        236, 208, 182, 19, 151, 41, 107, 252, 222, 216, 209, 165, 105, 169, 113, 140,
    ]
}

/// The program's own address.
pub fn id() -> (r: Address)
    ensures
        r@ == program_id(),
{
    let r = Address {
        bytes: [
            30u8, 236, 145, 230, 148, 154, 86, 19, 207, 84, 201, 163, 150, 40, 66, 68,
            236, 208, 182, 19, 151, 41, 107, 252, 222, 216, 209, 165, 105, 169, 113, 140,
        ],
    };
    assert(r@ =~= program_id());
    r
}

impl Address {
    pub fn new(bytes: [u8; 32]) -> (r: Address)
        ensures
            r@ == bytes@,
    {
        Address { bytes }
    }

    /// The address as a seed: its 32 bytes in order.
    pub fn to_vec(&self) -> (r: Vec<u8>)
        ensures
            r@ == self@,
    {
        let mut r: Vec<u8> = Vec::new();
        let mut i: usize = 0;
        while i < 32
            invariant
                i <= 32,
                self@.len() == 32,
                r@ == self@.subrange(0, i as int),
            decreases 32 - i,
        {
            r.push(self.bytes[i]);
            i = i + 1;
            assert(r@ =~= self@.subrange(0, i as int));
        }
        assert(self@.subrange(0, 32) =~= self@);
        r
    }

    /// Whether two addresses hold the same bytes.
    pub fn same(&self, other: &Address) -> (r: bool)
        ensures
            r == (self@ == other@),
    {
        let mut i: usize = 0;
        while i < 32
            invariant
                i <= 32,
                self@.len() == 32,
                other@.len() == 32,
                forall|j: int| 0 <= j < i ==> self@[j] == other@[j],
            decreases 32 - i,
        {
            if self.bytes[i] != other.bytes[i] {
                return false;
            }
            i = i + 1;
        }
        assert(self@ =~= other@);
        true
    }
}

} // verus!
