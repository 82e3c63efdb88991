use vstd::prelude::*;

use crate::mmio::Mmio;
use crate::mmio::MmioOp;
use crate::synchronization::sleep;

verus! {

// The BCM2837 GPIO block: 54 pins, each with a three-bit function field
// spread over six select registers, set/clear output registers, and the
// pull-up/down control handshake. Each operation's contract is the exact
// register traffic it issues.

/// Number of GPIO pins.
pub const NUM_GPIOS: u8 = 54;

pub const GPIO_BASE: u64 = 0x0020_0000;

pub const GPFSEL0: u64 = GPIO_BASE + 0x00;

pub const GPFSEL1: u64 = GPIO_BASE + 0x04;

pub const GPFSEL2: u64 = GPIO_BASE + 0x08;

pub const GPFSEL3: u64 = GPIO_BASE + 0x0C;

pub const GPFSEL4: u64 = GPIO_BASE + 0x10;

pub const GPFSEL5: u64 = GPIO_BASE + 0x14;

pub const GPSET0: u64 = GPIO_BASE + 0x1C;

pub const GPSET1: u64 = GPIO_BASE + 0x20;

pub const GPCLR0: u64 = GPIO_BASE + 0x28;

pub const GPCLR1: u64 = GPIO_BASE + 0x2C;

pub const GPPUD: u64 = GPIO_BASE + 0x94;

pub const GPPUDCLK0: u64 = GPIO_BASE + 0x98;

pub const GPPUDCLK1: u64 = GPIO_BASE + 0x9C;

/// Pull up/down control mode.
#[derive(Clone, Copy, Debug, PartialEq, Eq, Structural)]
pub enum PullMode {
    Disabled,
    PullDown,
    PullUp,
}

/// The control word each pull mode programs.
pub open spec fn spec_pull_mode_value(mode: PullMode) -> u32 {
    match mode {
        PullMode::Disabled => 0x00,
        PullMode::PullDown => 0x01,
        PullMode::PullUp => 0x10,
    }
}

/// The functions a GPIO pin can be put to.
#[derive(Clone, Copy, Debug, PartialEq, Eq, Structural)]
pub enum Function {
    Input,
    Output,
    Func0,
    Func1,
    Func2,
    Func3,
    Func4,
    Func5,
}

/// The three-bit field each function programs.
pub open spec fn spec_function_bits(function: Function) -> u32 {
    match function {
        Function::Input => 0b000,
        Function::Output => 0b001,
        Function::Func0 => 0b100,
        Function::Func1 => 0b101,
        Function::Func2 => 0b110,
        Function::Func3 => 0b111,
        Function::Func4 => 0b011,
        Function::Func5 => 0b010,
    }
}

/// A pin mask restricted to the pins that exist.
pub open spec fn spec_gpio_mask(gpios: u64) -> u64 {
    gpios & 0x003F_FFFF_FFFF_FFFFu64
}

/// The low 32 pins of a mask.
pub open spec fn spec_gpio_lo(gpios: u64) -> u32 {
    spec_gpio_mask(gpios) as u32
}

/// The high pins of a mask.
pub open spec fn spec_gpio_hi(gpios: u64) -> u32 {
    (spec_gpio_mask(gpios) >> 32u64) as u32
}

/// Drives the masked pins high: one write to each output-set register.
pub fn output_set<M: Mmio>(m: &mut M, gpios: u64)
    ensures
        final(m).ops() == old(m).ops().push(MmioOp::Write(GPSET0, spec_gpio_lo(gpios))).push(
            MmioOp::Write(GPSET1, spec_gpio_hi(gpios)),
        ),
{
    proof {
        assert((1u64 << 54u64) - 1 == 0x003F_FFFF_FFFF_FFFFu64) by (bit_vector);
    }
    let masked: u64 = gpios & ((1u64 << NUM_GPIOS) - 1);
    let gpios_0: u32 = #[verifier::truncate] (masked as u32);
    let gpios_1: u32 = #[verifier::truncate] ((masked >> 32) as u32);
    m.write(GPSET0, gpios_0);
    m.write(GPSET1, gpios_1);
}

/// Drives the masked pins low: one write to each output-clear register.
pub fn output_clear<M: Mmio>(m: &mut M, gpios: u64)
    ensures
        final(m).ops() == old(m).ops().push(MmioOp::Write(GPCLR0, spec_gpio_lo(gpios))).push(
            MmioOp::Write(GPCLR1, spec_gpio_hi(gpios)),
        ),
{
    proof {
        assert((1u64 << 54u64) - 1 == 0x003F_FFFF_FFFF_FFFFu64) by (bit_vector);
    }
    let masked: u64 = gpios & ((1u64 << NUM_GPIOS) - 1);
    let gpios_0: u32 = #[verifier::truncate] (masked as u32);
    let gpios_1: u32 = #[verifier::truncate] ((masked >> 32) as u32);
    m.write(GPCLR0, gpios_0);
    m.write(GPCLR1, gpios_1);
}

/// The register writes one pull-mode change issues, in order: raise the
/// control signal, clock it into the masked pins, then clear both.
pub open spec fn spec_pull_mode_writes(gpios: u64, mode: PullMode) -> Seq<MmioOp> {
    seq![
        MmioOp::Write(GPPUD, spec_pull_mode_value(mode)),
        MmioOp::Write(GPPUDCLK0, spec_gpio_lo(gpios)),
        MmioOp::Write(GPPUDCLK1, spec_gpio_hi(gpios)),
        MmioOp::Write(GPPUD, 0),
        MmioOp::Write(GPPUDCLK0, 0),
        MmioOp::Write(GPPUDCLK1, 0),
    ]
}

/// Sets the pull-up/down mode of the masked pins, with the required setup
/// and hold delays between the control writes.
pub fn set_pull_mode<M: Mmio>(m: &mut M, gpios: u64, mode: PullMode)
    ensures
        final(m).ops() == old(m).ops() + spec_pull_mode_writes(gpios, mode),
{
    proof {
        assert((1u64 << 54u64) - 1 == 0x003F_FFFF_FFFF_FFFFu64) by (bit_vector);
    }
    let masked: u64 = gpios & ((1u64 << NUM_GPIOS) - 1);
    let gpios_0: u32 = #[verifier::truncate] (masked as u32);
    let gpios_1: u32 = #[verifier::truncate] ((masked >> 32) as u32);
    let mode_val: u32 = match mode {
        PullMode::Disabled => 0x00,
        PullMode::PullDown => 0x01,
        PullMode::PullUp => 0x10,
    };
    m.write(GPPUD, mode_val);
    sleep(150);
    m.write(GPPUDCLK0, gpios_0);
    m.write(GPPUDCLK1, gpios_1);
    sleep(150);
    m.write(GPPUD, 0x00);
    m.write(GPPUDCLK0, 0x00);
    m.write(GPPUDCLK1, 0x00);
    proof {
        assert(m.ops() =~= old(m).ops() + spec_pull_mode_writes(gpios, mode));
    }
}

/// The function-select register of bank `idx`.
pub fn gpfsel_reg(idx: usize) -> (r: u64)
    requires
        idx < 6,
    ensures
        r == spec_gpfsel_reg(idx as int),
{
    match idx {
        0 => GPFSEL0,
        1 => GPFSEL1,
        2 => GPFSEL2,
        3 => GPFSEL3,
        4 => GPFSEL4,
        _ => GPFSEL5,
    }
}

/// The function-select register of bank `idx`.
pub open spec fn spec_gpfsel_reg(idx: int) -> u64 {
    if idx == 0 {
        GPFSEL0
    } else if idx == 1 {
        GPFSEL1
    } else if idx == 2 {
        GPFSEL2
    } else if idx == 3 {
        GPFSEL3
    } else if idx == 4 {
        GPFSEL4
    } else {
        GPFSEL5
    }
}

/// The six function-select values after programming pin `i` and the pins
/// above it: a masked pin's three-bit field becomes `fbits`, every other
/// field keeps the value read back from the hardware. Pin 53 is left alone,
/// as the hardware driver has always done.
pub open spec fn spec_fsel_update(vals: Seq<u32>, gpios: u64, fbits: u32, i: int) -> Seq<u32>
    decreases 53 - i,
{
    if i < 0 || i >= 53 {
        vals
    } else {
        let shift = ((i % 10) * 3) as u32;
        let bank = i / 10;
        let vals2 = if gpios & (1u64 << (i as u64)) != 0 {
            vals.update(bank, (vals[bank] & !(0b111u32 << shift)) | (fbits << shift))
        } else {
            vals
        };
        spec_fsel_update(vals2, gpios, fbits, i + 1)
    }
}

/// Computes the function-select values for the masked pins over the values
/// read back from the banks.
pub fn compute_fsel(vals: Vec<u32>, gpios: u64, fbits: u32) -> (r: Vec<u32>)
    requires
        vals@.len() == 6,
    ensures
        r@ == spec_fsel_update(vals@, gpios, fbits, 0),
        r@.len() == 6,
{
    let ghost target = spec_fsel_update(vals@, gpios, fbits, 0);
    let mut out: Vec<u32> = vals;
    let mut i: usize = 0;
    while i < 53
        invariant
            i <= 53,
            out@.len() == 6,
            spec_fsel_update(out@, gpios, fbits, i as int) == target,
        decreases 53 - i,
    {
        if gpios & (1u64 << (i as u64)) != 0 {
            let shift: u32 = ((i % 10) * 3) as u32;
            let bank: usize = i / 10;
            let cur: u32 = out[bank];
            out[bank] = (cur & !(0b111u32 << shift)) | (fbits << shift);
        }
        i += 1;
    }
    proof {
        assert(spec_fsel_update(out@, gpios, fbits, 53) == out@);
    }
    out
}

/// Configures the function of the masked pins: reads the six select
/// registers, reprograms the masked pins' fields, and writes the six values
/// back. The contract names the exact traffic: six reads, then six writes of
/// [`spec_fsel_update`] applied to what was read.
pub fn set_function<M: Mmio>(m: &mut M, gpios: u64, function: Function)
    ensures
        ({
            let pre = old(m).ops();
            let ops = final(m).ops();
            let n = pre.len() as int;
            &&& ops.len() == pre.len() + 12
            &&& ops.subrange(0, n) == pre
            &&& ops[n] is Read && ops[n]->Read_0 == GPFSEL0
            &&& ops[n + 1] is Read && ops[n + 1]->Read_0 == GPFSEL1
            &&& ops[n + 2] is Read && ops[n + 2]->Read_0 == GPFSEL2
            &&& ops[n + 3] is Read && ops[n + 3]->Read_0 == GPFSEL3
            &&& ops[n + 4] is Read && ops[n + 4]->Read_0 == GPFSEL4
            &&& ops[n + 5] is Read && ops[n + 5]->Read_0 == GPFSEL5
            &&& ({
                let newvals = spec_fsel_update(
                    seq![
                        ops[n]->Read_1,
                        ops[n + 1]->Read_1,
                        ops[n + 2]->Read_1,
                        ops[n + 3]->Read_1,
                        ops[n + 4]->Read_1,
                        ops[n + 5]->Read_1,
                    ],
                    spec_gpio_mask(gpios),
                    spec_function_bits(function),
                    0,
                );
                &&& ops[n + 6] == MmioOp::Write(GPFSEL0, newvals[0])
                &&& ops[n + 7] == MmioOp::Write(GPFSEL1, newvals[1])
                &&& ops[n + 8] == MmioOp::Write(GPFSEL2, newvals[2])
                &&& ops[n + 9] == MmioOp::Write(GPFSEL3, newvals[3])
                &&& ops[n + 10] == MmioOp::Write(GPFSEL4, newvals[4])
                &&& ops[n + 11] == MmioOp::Write(GPFSEL5, newvals[5])
            })
        }),
{
    let ghost pre = old(m).ops();
    proof {
        assert((1u64 << 54u64) - 1 == 0x003F_FFFF_FFFF_FFFFu64) by (bit_vector);
    }
    let masked: u64 = gpios & ((1u64 << NUM_GPIOS) - 1);
    let function_bits: u32 = match function {
        Function::Input => 0b000,
        Function::Output => 0b001,
        Function::Func0 => 0b100,
        Function::Func1 => 0b101,
        Function::Func2 => 0b110,
        Function::Func3 => 0b111,
        Function::Func4 => 0b011,
        Function::Func5 => 0b010,
    };
    let mut gpfsel_val: Vec<u32> = Vec::new();
    let mut idx: usize = 0;
    while idx < 6
        invariant
            idx <= 6,
            gpfsel_val@.len() == idx,
            m.ops().len() == pre.len() + idx,
            m.ops().subrange(0, pre.len() as int) == pre,
            pre == old(m).ops(),
            forall|j: int|
                0 <= j < idx ==> m.ops()[pre.len() + j] == MmioOp::Read(
                    spec_gpfsel_reg(j),
                    #[trigger] gpfsel_val@[j],
                ),
        decreases 6 - idx,
    {
        let reg: u64 = gpfsel_reg(idx);
        let v: u32 = m.read(reg);
        gpfsel_val.push(v);
        idx += 1;
        proof {
            assert(m.ops().subrange(0, pre.len() as int) =~= pre);
        }
    }
    let ghost readvals = gpfsel_val@;
    let newvals: Vec<u32> = compute_fsel(gpfsel_val, masked, function_bits);
    let ghost after_reads = m.ops();
    let mut idx: usize = 0;
    while idx < 6
        invariant
            idx <= 6,
            newvals@.len() == 6,
            m.ops().len() == after_reads.len() + idx,
            m.ops().subrange(0, after_reads.len() as int) == after_reads,
            forall|j: int|
                0 <= j < idx ==> m.ops()[after_reads.len() + j] == MmioOp::Write(
                    spec_gpfsel_reg(j),
                    #[trigger] newvals@[j],
                ),
        decreases 6 - idx,
    {
        let reg: u64 = gpfsel_reg(idx);
        let v: u32 = newvals[idx];
        m.write(reg, v);
        idx += 1;
        proof {
            assert(m.ops().subrange(0, after_reads.len() as int) =~= after_reads);
        }
    }
    proof {
        assert(m.ops().subrange(0, pre.len() as int) =~= pre);
        let n = pre.len() as int;
        let ops = m.ops();
        assert(seq![
            ops[n]->Read_1,
            ops[n + 1]->Read_1,
            ops[n + 2]->Read_1,
            ops[n + 3]->Read_1,
            ops[n + 4]->Read_1,
            ops[n + 5]->Read_1,
        ] =~= readvals);
        assert(newvals@ == spec_fsel_update(
            readvals,
            spec_gpio_mask(gpios),
            spec_function_bits(function),
            0,
        ));
    }
}

} // verus!
