//! Enumeration of the device slots of one PCI bus.

use vstd::prelude::*;

verus! {

/// Number of device slots on one PCI bus.
pub const DEVICES_PER_BUS: u32 = 32;

/// One PCI bus, named by its number.
#[derive(Clone, Copy, Debug, PartialEq, Eq, Structural)]
pub struct PciBus {
    pub num: u8,
}

/// One device slot of a bus.
#[derive(Clone, Copy, Debug)]
pub struct PciDev<'pci> {
    pub bus: &'pci PciBus,
    pub num: u8,
}

/// A walk over the device slots of a bus, lowest number first.
pub struct PciBusIter<'pci> {
    bus: &'pci PciBus,
    num: u32,
}

impl PciBus {
    /// Starts a walk over all 32 device slots of the bus.
    pub fn devs<'pci>(&'pci self) -> (iter: PciBusIter<'pci>)
        ensures
            iter.spec_bus() == *self,
            iter.spec_num() == 0,
            iter.remaining() =~= Seq::new(32, |i: int| i as u8),
    {
        PciBusIter::new(self)
    }
}

impl<'pci> PciBusIter<'pci> {
    /// The bus that is walked.
    pub closed spec fn spec_bus(&self) -> PciBus {
        *self.bus
    }

    /// The number of the slot that comes next; 32 or more when the walk is
    /// over.
    pub closed spec fn spec_num(&self) -> u32 {
        self.num
    }

    /// The numbers of the slots still to come, in the order in which `next`
    /// hands them out.
    pub open spec fn remaining(&self) -> Seq<u8> {
        if self.spec_num() < 32 {
            Seq::new((32 - self.spec_num()) as nat, |i: int| (self.spec_num() + i) as u8)
        } else {
            Seq::empty()
        }
    }

    pub fn new(bus: &'pci PciBus) -> (iter: Self)
        ensures
            iter.spec_bus() == *bus,
            iter.spec_num() == 0,
    {
        PciBusIter { bus, num: 0 }
    }

    /// Hands out the next device slot, or `None` once all 32 have been
    /// handed out.
    pub fn next(&mut self) -> (dev: Option<PciDev<'pci>>)
        ensures
            final(self).spec_bus() == old(self).spec_bus(),
            old(self).spec_num() < 32 ==> dev is Some && *dev->0.bus == old(self).spec_bus()
                && dev->0.num == old(self).spec_num() && final(self).spec_num() == old(
                self,
            ).spec_num() + 1,
            old(self).spec_num() >= 32 ==> dev is None && final(self).spec_num() == old(
                self,
            ).spec_num(),
            dev is Some <==> old(self).remaining().len() > 0,
            dev is Some ==> dev->0.num == old(self).remaining()[0],
            dev is Some ==> final(self).remaining() =~= old(self).remaining().drop_first(),
            dev is None ==> final(self).remaining() =~= old(self).remaining(),
    {
        if self.num < DEVICES_PER_BUS {
            let dev = PciDev { bus: self.bus, num: self.num as u8 };
            self.num += 1;
            Some(dev)
        } else {
            None
        }
    }
}

} // verus!
