use vstd::prelude::*;

verus! {

// Memory-mapped I/O, the foundation every device driver rests on. A backend
// carries out volatile, barrier-bracketed register accesses; what a driver
// can promise is exactly which accesses it issues, so the interface models a
// backend as the growing log of its operations. [`MockMmio`] is the in-tree
// backend, a register file for exercising the drivers; on real hardware the
// accesses go to physical addresses.

/// One memory-mapped register access: the address offset and the value
/// written, or the address offset and the value the hardware returned.
#[derive(Clone, Copy, Debug, PartialEq, Eq, Structural)]
pub enum MmioOp {
    Read(u64, u32),
    Write(u64, u32),
}

/// A memory-mapped I/O backend: 32-bit reads and writes at offsets from the
/// peripheral base address, logged in order.
pub trait Mmio {
    /// Every access this backend has carried out, oldest first.
    spec fn ops(&self) -> Seq<MmioOp>;

    /// Reads the register at `addr`. What comes back is the hardware's to
    /// decide; the log records it.
    fn read(&mut self, addr: u64) -> (r: u32)
        ensures
            final(self).ops() == old(self).ops().push(MmioOp::Read(addr, r)),
    ;

    /// Writes `data` to the register at `addr`.
    fn write(&mut self, addr: u64, data: u32)
        ensures
            final(self).ops() == old(self).ops().push(MmioOp::Write(addr, data)),
    ;

    /// Busy-waits until the register at `addr` reads a value with every bit
    /// of `mask` clear, and hands that value back. The backend carries the
    /// liveness: on hardware the device eventually reports ready. The log
    /// gains only reads of `addr`, the last being the value returned.
    fn read_until_clear(&mut self, addr: u64, mask: u32) -> (r: u32)
        ensures
            r & mask == 0,
            final(self).ops().len() > old(self).ops().len(),
            final(self).ops().subrange(0, old(self).ops().len() as int) == old(self).ops(),
            forall|j: int|
                old(self).ops().len() <= j < final(self).ops().len()
                    ==> (#[trigger] final(self).ops()[j]) is Read
                    && final(self).ops()[j]->Read_0 == addr,
            final(self).ops().last() == MmioOp::Read(addr, r),
    ;
}

/// The value at `addr` in a register file held as write history, newest last;
/// an address never written reads as zero.
pub open spec fn spec_reg_lookup(regs: Seq<(u64, u32)>, addr: u64) -> u32
    decreases regs.len(),
{
    if regs.len() == 0 {
        0
    } else if regs.last().0 == addr {
        regs.last().1
    } else {
        spec_reg_lookup(regs.drop_last(), addr)
    }
}

/// A register-file MMIO backend: writes land in an ordinary store, reads hand
/// back the last value written (zero before any write). Real device registers
/// are richer than memory -- the mock stands in for them in tests and
/// diagnostics.
pub struct MockMmio {
    regs: Vec<(u64, u32)>,
    log: Ghost<Seq<MmioOp>>,
}

impl MockMmio {
    /// The write history, newest last.
    pub closed spec fn spec_regs(&self) -> Seq<(u64, u32)> {
        self.regs@
    }

    /// The current value of the register at `addr`.
    pub open spec fn spec_reg(&self, addr: u64) -> u32 {
        spec_reg_lookup(self.spec_regs(), addr)
    }

    /// An empty register file with an empty log.
    pub fn new() -> (r: MockMmio)
        ensures
            r.ops() == Seq::<MmioOp>::empty(),
            r.spec_regs() == Seq::<(u64, u32)>::empty(),
    {
        MockMmio { regs: Vec::new(), log: Ghost(Seq::empty()) }
    }

    /// The current value of the register at `addr`.
    pub fn reg(&self, addr: u64) -> (r: u32)
        ensures
            r == self.spec_reg(addr),
    {
        let mut i: usize = self.regs.len();
        proof {
            assert(self.regs@.subrange(0, self.regs@.len() as int) =~= self.regs@);
        }
        while i > 0
            invariant
                i <= self.regs@.len(),
                spec_reg_lookup(self.regs@, addr) == spec_reg_lookup(
                    self.regs@.subrange(0, i as int),
                    addr,
                ),
            decreases i,
        {
            i -= 1;
            let entry: (u64, u32) = self.regs[i];
            proof {
                let prefix = self.regs@.subrange(0, i + 1);
                assert(prefix.last() == self.regs@[i as int]);
                assert(prefix.drop_last() =~= self.regs@.subrange(0, i as int));
            }
            if entry.0 == addr {
                return entry.1;
            }
        }
        proof {
            assert(self.regs@.subrange(0, 0) =~= Seq::<(u64, u32)>::empty());
        }
        0
    }

    /// Presets the register at `addr`, without logging an access: this is how
    /// a test arranges what the simulated hardware will show.
    pub fn set_reg(&mut self, addr: u64, val: u32)
        ensures
            final(self).ops() == old(self).ops(),
            final(self).spec_regs() == old(self).spec_regs().push((addr, val)),
            final(self).spec_reg(addr) == val,
            forall|a: u64| a != addr ==> final(self).spec_reg(a) == old(self).spec_reg(a),
    {
        self.regs.push((addr, val));
        proof {
            assert(self.regs@.drop_last() =~= old(self).regs@);
            assert forall|a: u64| a != addr implies spec_reg_lookup(self.regs@, a)
                == spec_reg_lookup(old(self).regs@, a) by {
                assert(self.regs@.last() == (addr, val));
            }
        }
    }
}

impl Mmio for MockMmio {
    closed spec fn ops(&self) -> Seq<MmioOp> {
        self.log@
    }

    fn read(&mut self, addr: u64) -> (r: u32) {
        let v: u32 = self.reg(addr);
        proof {
            self.log@ = self.log@.push(MmioOp::Read(addr, v));
        }
        v
    }

    fn write(&mut self, addr: u64, data: u32) {
        self.regs.push((addr, data));
        proof {
            self.log@ = self.log@.push(MmioOp::Write(addr, data));
        }
    }

    fn read_until_clear(&mut self, addr: u64, mask: u32) -> (r: u32) {
        let v: u32 = self.reg(addr);
        let ready: u32 = v & !mask;
        proof {
            assert(ready & mask == 0) by (bit_vector)
                requires
                    ready == v & !mask,
            ;
            self.log@ = self.log@.push(MmioOp::Read(addr, ready));
        }
        proof {
            assert(self.log@.subrange(0, old(self).log@.len() as int) =~= old(self).log@);
        }
        ready
    }
}

} // verus!
