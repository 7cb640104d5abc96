//! Identifiers as plain values: principals, neurons and proposals.
use vstd::prelude::*;

verus! {

/// A principal (user, canister or subnet id), held as its raw bytes.
pub struct PrincipalId {
    pub bytes: Vec<u8>,
}

impl View for PrincipalId {
    type V = Seq<u8>;

    open spec fn view(&self) -> Seq<u8> {
        self.bytes@
    }
}

impl Clone for PrincipalId {
    fn clone(&self) -> (r: Self)
        ensures
            r@ == self@,
    {
        let bytes = self.bytes.clone();
        assert(bytes@ =~= self.bytes@);
        PrincipalId { bytes }
    }
}

impl PrincipalId {
    /// Whether `self` and `other` are the same principal.
    pub fn same_as(&self, other: &PrincipalId) -> (same: bool)
        ensures
            same == (self@ == other@),
    {
        let n = self.bytes.len();
        if n != other.bytes.len() {
            return false;
        }
        for i in 0..n
            invariant
                n == self.bytes.len(),
                n == other.bytes.len(),
                forall|k: int| 0 <= k < i ==> self.bytes@[k] == other.bytes@[k],
        {
            if self.bytes[i] != other.bytes[i] {
                return false;
            }
        }
        assert(self.bytes@ =~= other.bytes@);
        true
    }
}

/// The id of an SNS neuron (its subaccount bytes).
pub struct SnsNeuronId {
    pub id: Vec<u8>,
}

impl View for SnsNeuronId {
    type V = Seq<u8>;

    open spec fn view(&self) -> Seq<u8> {
        self.id@
    }
}

impl Clone for SnsNeuronId {
    fn clone(&self) -> (r: Self)
        ensures
            r@ == self@,
    {
        let id = self.id.clone();
        assert(id@ =~= self.id@);
        SnsNeuronId { id }
    }
}

/// The id of an NNS neuron.
#[derive(Clone, Copy, PartialEq, Eq, Structural)]
pub struct NnsNeuronId {
    pub id: u64,
}

} // verus!
