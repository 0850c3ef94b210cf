//! Device identities.
use vstd::prelude::*;

verus! {

/// The platform's identity of an output device, as its UTF-16 code units.
/// Identities are only ever compared for equality.
#[derive(Debug, PartialEq, Eq)]
pub struct DeviceId {
    pub units: Vec<u16>,
}

impl View for DeviceId {
    type V = Seq<u16>;

    open spec fn view(&self) -> Seq<u16> {
        self.units@
    }
}

impl DeviceId {
    pub fn new(units: Vec<u16>) -> (r: DeviceId)
        ensures
            r@ == units@,
    {
        DeviceId { units }
    }

    /// Whether `self` and `other` name the same device.
    pub fn same_as(&self, other: &DeviceId) -> (r: bool)
        ensures
            r == (self@ == other@),
    {
        let n = self.units.len();
        if n != other.units.len() {
            return false;
        }
        let mut i: usize = 0;
        while i < n
            invariant
                n == self@.len(),
                n == other@.len(),
                i <= n,
                forall|j: int| 0 <= j < i ==> self@[j] == other@[j],
            decreases n - i,
        {
            if self.units[i] != other.units[i] {
                return false;
            }
            i = i + 1;
        }
        assert(self@ =~= other@);
        true
    }

    /// A second identity naming the same device.
    pub fn duplicate(&self) -> (r: DeviceId)
        ensures
            r@ == self@,
    {
        let mut units: Vec<u16> = Vec::new();
        let mut i: usize = 0;
        while i < self.units.len()
            invariant
                i <= self@.len(),
                units@ == self@.subrange(0, i as int),
            decreases self@.len() - i,
        {
            units.push(self.units[i]);
            i = i + 1;
            assert(units@ =~= self@.subrange(0, i as int));
        }
        assert(units@ =~= self@);
        DeviceId { units }
    }
}

} // verus!
