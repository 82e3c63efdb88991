use vstd::prelude::*;

use crate::irq::spec_has_handler;
use crate::irq::IrqChannel;
use crate::irq::IrqDomain;
use crate::irq::IrqRegistry;
use crate::mmio::Mmio;
use crate::mmio::MmioOp;

verus! {

// The BCM2837 interrupt controller. It exposes two domains -- the ARM basic
// sources and the shared peripheral sources -- over three pending registers:
// a basic register whose low bits are the ARM sources (with shortcut bits for
// a few frequent peripherals and two aggregate bits), and two 32-bit
// peripheral pending registers. Dispatch walks the pending bits in a fixed,
// hardcoded priority order; that order is part of the controller's contract.

pub const ARM_DOMAIN_ID: u8 = 0;

pub const PERIPHERAL_DOMAIN_ID: u8 = 1;

/// The ARM basic interrupt domain of this controller.
pub fn arm_domain() -> (r: IrqDomain)
    ensures
        r.spec_get() == ARM_DOMAIN_ID,
        r == IrqDomain::spec_new(ARM_DOMAIN_ID),
{
    IrqDomain::allocate(ARM_DOMAIN_ID)
}

/// The shared peripheral interrupt domain of this controller.
pub fn peripheral_domain() -> (r: IrqDomain)
    ensures
        r.spec_get() == PERIPHERAL_DOMAIN_ID,
        r == IrqDomain::spec_new(PERIPHERAL_DOMAIN_ID),
{
    IrqDomain::allocate(PERIPHERAL_DOMAIN_ID)
}

pub const IRQ_BASE: u64 = 0xB000;

pub const IRQ_BASIC_PENDING: u64 = IRQ_BASE + 0x200;

pub const IRQ_PENDING_1: u64 = IRQ_BASE + 0x204;

pub const IRQ_PENDING_2: u64 = IRQ_BASE + 0x208;

pub const IRQ_FIQ_CTRL: u64 = IRQ_BASE + 0x20C;

pub const IRQ_EN_1: u64 = IRQ_BASE + 0x210;

pub const IRQ_EN_2: u64 = IRQ_BASE + 0x214;

pub const IRQ_EN_BASIC: u64 = IRQ_BASE + 0x218;

pub const IRQ_DI_1: u64 = IRQ_BASE + 0x21C;

pub const IRQ_DI_2: u64 = IRQ_BASE + 0x220;

pub const IRQ_DI_BASIC: u64 = IRQ_BASE + 0x224;

// Peripheral interrupts spread over pending registers 1 and 2. The table has
// many reserved entries; enabling those would interfere with the GPU.
pub const IRQ_1_SYSTEM_TIMER_1: u32 = 1 << 1;

pub const IRQ_1_SYSTEM_TIMER_3: u32 = 1 << 3;

pub const IRQ_1_USB: u32 = 1 << 9;

pub const IRQ_1_AUX: u32 = 1 << 29;

pub const IRQ_2_I2C_SPI_SLAVE: u32 = 1 << 11;

pub const IRQ_2_PWA_0: u32 = 1 << 13;

pub const IRQ_2_PWA_1: u32 = 1 << 14;

pub const IRQ_2_SMI: u32 = 1 << 16;

pub const IRQ_2_GPIO_0: u32 = 1 << 17;

pub const IRQ_2_GPIO_1: u32 = 1 << 18;

pub const IRQ_2_GPIO_2: u32 = 1 << 19;

pub const IRQ_2_GPIO_3: u32 = 1 << 20;

pub const IRQ_2_I2C: u32 = 1 << 21;

pub const IRQ_2_SPI: u32 = 1 << 22;

pub const IRQ_2_PCM: u32 = 1 << 23;

pub const IRQ_2_UART: u32 = 1 << 25;

// The basic pending register: ARM sources in bits 0..=7.
pub const IRQ_BASIC_ARM_TIMER: u32 = 1 << 0;

pub const IRQ_BASIC_ARM_MBOX: u32 = 1 << 1;

pub const IRQ_BASIC_ARM_DOORBELL_0: u32 = 1 << 2;

pub const IRQ_BASIC_ARM_DOORBELL_1: u32 = 1 << 3;

pub const IRQ_BASIC_GPU_HALTED_0: u32 = 1 << 4;

pub const IRQ_BASIC_GPU_HALTED_1: u32 = 1 << 5;

pub const IRQ_BASIC_ILLEGAL_ACC_0: u32 = 1 << 6;

pub const IRQ_BASIC_ILLEGAL_ACC_1: u32 = 1 << 7;

/// Aggregate bits: one or more bits pending in peripheral register 1 or 2.
pub const IRQ_PERIP_REG_1: u32 = 1 << 8;

pub const IRQ_PERIP_REG_2: u32 = 1 << 9;

// Shortcut bits: a few peripheral sources mirrored into the basic register,
// excluded from the aggregate bits.
pub const IRQ_BASIC_PEND_GPU_7: u32 = 1 << 10;

pub const IRQ_BASIC_PEND_GPU_9: u32 = 1 << 11;

pub const IRQ_BASIC_PEND_GPU_10: u32 = 1 << 12;

pub const IRQ_BASIC_PEND_GPU_18: u32 = 1 << 13;

pub const IRQ_BASIC_PEND_GPU_19: u32 = 1 << 14;

pub const IRQ_BASIC_PEND_GPU_53: u32 = 1 << 15;

pub const IRQ_BASIC_PEND_GPU_54: u32 = 1 << 16;

pub const IRQ_BASIC_PEND_GPU_55: u32 = 1 << 17;

pub const IRQ_BASIC_PEND_GPU_56: u32 = 1 << 18;

pub const IRQ_BASIC_PEND_GPU_57: u32 = 1 << 19;

pub const IRQ_BASIC_PEND_GPU_62: u32 = 1 << 20;

/// The peripheral numbers this controller wires up.
pub open spec fn spec_valid_peripheral_number(number: u32) -> bool {
    number == 1 || number == 3 || number == 9 || number == 29 || number == 43 || number == 45
        || number == 46 || (48 <= number <= 55) || number == 57
}

/// Whether `number` names a wired peripheral source.
pub fn valid_irq_peripheral_number(number: u32) -> (r: bool)
    ensures
        r == spec_valid_peripheral_number(number),
{
    match number {
        1 | 3 | 9 | 29 | 43 | 45 | 46 | 48..=55 | 57 => true,
        _ => false,
    }
}

/// The channels this controller can mask and unmask: the eight ARM basic
/// sources and the wired peripheral sources.
pub open spec fn spec_valid_channel(ch: IrqChannel) -> bool {
    ||| (ch.domain.spec_get() == ARM_DOMAIN_ID && ch.number < 8)
    ||| (ch.domain.spec_get() == PERIPHERAL_DOMAIN_ID && spec_valid_peripheral_number(ch.number))
}

/// The single register write that masks `ch`: a one in the channel's bit of
/// its disable register.
pub open spec fn spec_mask_op(ch: IrqChannel) -> MmioOp
    recommends
        spec_valid_channel(ch),
{
    if ch.domain.spec_get() == ARM_DOMAIN_ID {
        MmioOp::Write(IRQ_DI_BASIC, 1u32 << ch.number)
    } else if ch.number < 32 {
        MmioOp::Write(IRQ_DI_1, 1u32 << ch.number)
    } else {
        MmioOp::Write(IRQ_DI_2, 1u32 << ((ch.number - 32) as u32))
    }
}

/// The single register write that unmasks `ch`: a one in the channel's bit of
/// its enable register.
pub open spec fn spec_unmask_op(ch: IrqChannel) -> MmioOp
    recommends
        spec_valid_channel(ch),
{
    if ch.domain.spec_get() == ARM_DOMAIN_ID {
        MmioOp::Write(IRQ_EN_BASIC, 1u32 << ch.number)
    } else if ch.number < 32 {
        MmioOp::Write(IRQ_EN_1, 1u32 << ch.number)
    } else {
        MmioOp::Write(IRQ_EN_2, 1u32 << ((ch.number - 32) as u32))
    }
}

/// Masks `ch`: exactly one write to the channel's disable register. The
/// disable registers are write-one-to-clear, so masking is idempotent; see
/// [`lemma_mask_interrupt_idempotent`]. A channel outside the controller's
/// range is an initialisation bug, excluded by precondition.
pub fn mask_interrupt<M: Mmio>(m: &mut M, channel: IrqChannel)
    requires
        spec_valid_channel(channel),
    ensures
        final(m).ops() == old(m).ops().push(spec_mask_op(channel)),
{
    if channel.domain.get() == ARM_DOMAIN_ID {
        m.write(IRQ_DI_BASIC, 1u32 << channel.number);
    } else if channel.number < 32 {
        m.write(IRQ_DI_1, 1u32 << channel.number);
    } else {
        m.write(IRQ_DI_2, 1u32 << (channel.number - 32));
    }
}

/// Unmasks `ch`: exactly one write to the channel's enable register.
pub fn unmask_interrupt<M: Mmio>(m: &mut M, channel: IrqChannel)
    requires
        spec_valid_channel(channel),
    ensures
        final(m).ops() == old(m).ops().push(spec_unmask_op(channel)),
{
    if channel.domain.get() == ARM_DOMAIN_ID {
        m.write(IRQ_EN_BASIC, 1u32 << channel.number);
    } else if channel.number < 32 {
        m.write(IRQ_EN_1, 1u32 << channel.number);
    } else {
        m.write(IRQ_EN_2, 1u32 << (channel.number - 32));
    }
}

/// The channel `(domain, number)` if `val` has a bit of `mask` set, else
/// nothing: one step of the dispatch walk.
pub open spec fn spec_pend(val: u32, mask: u32, domain_id: u8, number: u32) -> Seq<IrqChannel> {
    if val & mask > 0 {
        seq![IrqChannel { domain: IrqDomain::spec_new(domain_id), number }]
    } else {
        seq![]
    }
}

/// The channel `(domain, number)` if `gate` has a bit of `gate_mask` set and
/// `val` has a bit of `mask` set: one step of the dispatch walk behind an
/// aggregate bit.
pub open spec fn spec_pend_gated(
    gate: u32,
    gate_mask: u32,
    val: u32,
    mask: u32,
    domain_id: u8,
    number: u32,
) -> Seq<IrqChannel> {
    if gate & gate_mask > 0 && val & mask > 0 {
        seq![IrqChannel { domain: IrqDomain::spec_new(domain_id), number }]
    } else {
        seq![]
    }
}

/// The pending channels of one controller read, in the controller's fixed
/// priority order: ARM basic sources first, then the shortcut bits, then --
/// gated by the aggregate bits -- the peripheral registers in bit order.
/// Reordering this sequence would change real dispatch latency; it is part of
/// the contract.
pub open spec fn spec_pending_channels(b: u32, p1: u32, p2: u32) -> Seq<IrqChannel> {
    spec_pend(b, IRQ_BASIC_ARM_TIMER, ARM_DOMAIN_ID, 0)
        + spec_pend(b, IRQ_BASIC_ARM_MBOX, ARM_DOMAIN_ID, 1)
        + spec_pend(b, IRQ_BASIC_ARM_DOORBELL_0, ARM_DOMAIN_ID, 2)
        + spec_pend(b, IRQ_BASIC_ARM_DOORBELL_1, ARM_DOMAIN_ID, 3)
        + spec_pend(b, IRQ_BASIC_GPU_HALTED_0, ARM_DOMAIN_ID, 4)
        + spec_pend(b, IRQ_BASIC_GPU_HALTED_1, ARM_DOMAIN_ID, 5)
        + spec_pend(b, IRQ_BASIC_ILLEGAL_ACC_0, ARM_DOMAIN_ID, 6)
        + spec_pend(b, IRQ_BASIC_ILLEGAL_ACC_1, ARM_DOMAIN_ID, 7)
        + spec_pend(b, IRQ_BASIC_PEND_GPU_9, PERIPHERAL_DOMAIN_ID, 9)
        + spec_pend(b, IRQ_BASIC_PEND_GPU_53, PERIPHERAL_DOMAIN_ID, 53)
        + spec_pend(b, IRQ_BASIC_PEND_GPU_54, PERIPHERAL_DOMAIN_ID, 54)
        + spec_pend(b, IRQ_BASIC_PEND_GPU_55, PERIPHERAL_DOMAIN_ID, 55)
        + spec_pend(b, IRQ_BASIC_PEND_GPU_57, PERIPHERAL_DOMAIN_ID, 57)
        + spec_pend_gated(b, IRQ_PERIP_REG_1, p1, IRQ_1_SYSTEM_TIMER_1, PERIPHERAL_DOMAIN_ID, 1)
        + spec_pend_gated(b, IRQ_PERIP_REG_1, p1, IRQ_1_SYSTEM_TIMER_3, PERIPHERAL_DOMAIN_ID, 3)
        + spec_pend_gated(b, IRQ_PERIP_REG_1, p1, IRQ_1_USB, PERIPHERAL_DOMAIN_ID, 9)
        + spec_pend_gated(b, IRQ_PERIP_REG_1, p1, IRQ_1_AUX, PERIPHERAL_DOMAIN_ID, 29)
        + spec_pend_gated(b, IRQ_PERIP_REG_2, p2, IRQ_2_I2C_SPI_SLAVE, PERIPHERAL_DOMAIN_ID, 43)
        + spec_pend_gated(b, IRQ_PERIP_REG_2, p2, IRQ_2_PWA_0, PERIPHERAL_DOMAIN_ID, 45)
        + spec_pend_gated(b, IRQ_PERIP_REG_2, p2, IRQ_2_PWA_1, PERIPHERAL_DOMAIN_ID, 46)
        + spec_pend_gated(b, IRQ_PERIP_REG_2, p2, IRQ_2_SMI, PERIPHERAL_DOMAIN_ID, 48)
        + spec_pend_gated(b, IRQ_PERIP_REG_2, p2, IRQ_2_GPIO_0, PERIPHERAL_DOMAIN_ID, 49)
        + spec_pend_gated(b, IRQ_PERIP_REG_2, p2, IRQ_2_GPIO_1, PERIPHERAL_DOMAIN_ID, 50)
        + spec_pend_gated(b, IRQ_PERIP_REG_2, p2, IRQ_2_GPIO_2, PERIPHERAL_DOMAIN_ID, 51)
        + spec_pend_gated(b, IRQ_PERIP_REG_2, p2, IRQ_2_GPIO_3, PERIPHERAL_DOMAIN_ID, 52)
        + spec_pend_gated(b, IRQ_PERIP_REG_2, p2, IRQ_2_I2C, PERIPHERAL_DOMAIN_ID, 53)
        + spec_pend_gated(b, IRQ_PERIP_REG_2, p2, IRQ_2_SPI, PERIPHERAL_DOMAIN_ID, 54)
        + spec_pend_gated(b, IRQ_PERIP_REG_2, p2, IRQ_2_PCM, PERIPHERAL_DOMAIN_ID, 55)
        + spec_pend_gated(b, IRQ_PERIP_REG_2, p2, IRQ_2_UART, PERIPHERAL_DOMAIN_ID, 57)
}

/// Appends the channel `(domain, number)` to the dispatch list when `val` has
/// a bit of `mask` set.
pub fn handle_if(pending: &mut Vec<IrqChannel>, val: u32, mask: u32, domain: IrqDomain, number: u32)
    requires
        domain == IrqDomain::spec_new(domain.spec_get()),
    ensures
        final(pending)@ == old(pending)@ + spec_pend(val, mask, domain.spec_get(), number),
{
    if val & mask > 0 {
        pending.push(IrqChannel { domain, number });
        proof {
            assert(pending@ =~= old(pending)@ + spec_pend(val, mask, domain.spec_get(), number));
        }
    } else {
        proof {
            assert(pending@ =~= old(pending)@ + spec_pend(val, mask, domain.spec_get(), number));
        }
    }
}

/// The pending channels of one controller read, as a list in dispatch order.
#[verifier::rlimit(60)]
#[verifier::spinoff_prover]
pub fn pending_channels(b: u32, p1: u32, p2: u32) -> (r: Vec<IrqChannel>)
    ensures
        r@ == spec_pending_channels(b, p1, p2),
{
    let arm: IrqDomain = arm_domain();
    let per: IrqDomain = peripheral_domain();
    let mut v: Vec<IrqChannel> = Vec::new();
    handle_if(&mut v, b, IRQ_BASIC_ARM_TIMER, arm, 0);
    proof {
        assert(v@ =~= spec_pend(b, IRQ_BASIC_ARM_TIMER, ARM_DOMAIN_ID, 0));
    }
    handle_if(&mut v, b, IRQ_BASIC_ARM_MBOX, arm, 1);
    handle_if(&mut v, b, IRQ_BASIC_ARM_DOORBELL_0, arm, 2);
    handle_if(&mut v, b, IRQ_BASIC_ARM_DOORBELL_1, arm, 3);
    handle_if(&mut v, b, IRQ_BASIC_GPU_HALTED_0, arm, 4);
    handle_if(&mut v, b, IRQ_BASIC_GPU_HALTED_1, arm, 5);
    handle_if(&mut v, b, IRQ_BASIC_ILLEGAL_ACC_0, arm, 6);
    handle_if(&mut v, b, IRQ_BASIC_ILLEGAL_ACC_1, arm, 7);
    handle_if(&mut v, b, IRQ_BASIC_PEND_GPU_9, per, 9);
    handle_if(&mut v, b, IRQ_BASIC_PEND_GPU_53, per, 53);
    handle_if(&mut v, b, IRQ_BASIC_PEND_GPU_54, per, 54);
    handle_if(&mut v, b, IRQ_BASIC_PEND_GPU_55, per, 55);
    handle_if(&mut v, b, IRQ_BASIC_PEND_GPU_57, per, 57);
    let ghost basic = v@;
    if b & IRQ_PERIP_REG_1 > 0 {
        handle_if(&mut v, p1, IRQ_1_SYSTEM_TIMER_1, per, 1);
        handle_if(&mut v, p1, IRQ_1_SYSTEM_TIMER_3, per, 3);
        handle_if(&mut v, p1, IRQ_1_USB, per, 9);
        handle_if(&mut v, p1, IRQ_1_AUX, per, 29);
        proof {
            assert(v@ == basic + spec_pend_gated(
                b,
                IRQ_PERIP_REG_1,
                p1,
                IRQ_1_SYSTEM_TIMER_1,
                PERIPHERAL_DOMAIN_ID,
                1,
            ) + spec_pend_gated(
                b,
                IRQ_PERIP_REG_1,
                p1,
                IRQ_1_SYSTEM_TIMER_3,
                PERIPHERAL_DOMAIN_ID,
                3,
            ) + spec_pend_gated(b, IRQ_PERIP_REG_1, p1, IRQ_1_USB, PERIPHERAL_DOMAIN_ID, 9)
                + spec_pend_gated(b, IRQ_PERIP_REG_1, p1, IRQ_1_AUX, PERIPHERAL_DOMAIN_ID, 29));
        }
    } else {
        proof {
            assert(v@ =~= basic + spec_pend_gated(
                b,
                IRQ_PERIP_REG_1,
                p1,
                IRQ_1_SYSTEM_TIMER_1,
                PERIPHERAL_DOMAIN_ID,
                1,
            ) + spec_pend_gated(
                b,
                IRQ_PERIP_REG_1,
                p1,
                IRQ_1_SYSTEM_TIMER_3,
                PERIPHERAL_DOMAIN_ID,
                3,
            ) + spec_pend_gated(b, IRQ_PERIP_REG_1, p1, IRQ_1_USB, PERIPHERAL_DOMAIN_ID, 9)
                + spec_pend_gated(b, IRQ_PERIP_REG_1, p1, IRQ_1_AUX, PERIPHERAL_DOMAIN_ID, 29));
        }
    }
    let ghost with_reg1 = v@;
    if b & IRQ_PERIP_REG_2 > 0 {
        handle_if(&mut v, p2, IRQ_2_I2C_SPI_SLAVE, per, 43);
        handle_if(&mut v, p2, IRQ_2_PWA_0, per, 45);
        handle_if(&mut v, p2, IRQ_2_PWA_1, per, 46);
        handle_if(&mut v, p2, IRQ_2_SMI, per, 48);
        handle_if(&mut v, p2, IRQ_2_GPIO_0, per, 49);
        handle_if(&mut v, p2, IRQ_2_GPIO_1, per, 50);
        handle_if(&mut v, p2, IRQ_2_GPIO_2, per, 51);
        handle_if(&mut v, p2, IRQ_2_GPIO_3, per, 52);
        handle_if(&mut v, p2, IRQ_2_I2C, per, 53);
        handle_if(&mut v, p2, IRQ_2_SPI, per, 54);
        handle_if(&mut v, p2, IRQ_2_PCM, per, 55);
        handle_if(&mut v, p2, IRQ_2_UART, per, 57);
        proof {
            assert(v@ == with_reg1 + spec_pend_gated(
                b,
                IRQ_PERIP_REG_2,
                p2,
                IRQ_2_I2C_SPI_SLAVE,
                PERIPHERAL_DOMAIN_ID,
                43,
            ) + spec_pend_gated(b, IRQ_PERIP_REG_2, p2, IRQ_2_PWA_0, PERIPHERAL_DOMAIN_ID, 45)
                + spec_pend_gated(b, IRQ_PERIP_REG_2, p2, IRQ_2_PWA_1, PERIPHERAL_DOMAIN_ID, 46)
                + spec_pend_gated(b, IRQ_PERIP_REG_2, p2, IRQ_2_SMI, PERIPHERAL_DOMAIN_ID, 48)
                + spec_pend_gated(b, IRQ_PERIP_REG_2, p2, IRQ_2_GPIO_0, PERIPHERAL_DOMAIN_ID, 49)
                + spec_pend_gated(b, IRQ_PERIP_REG_2, p2, IRQ_2_GPIO_1, PERIPHERAL_DOMAIN_ID, 50)
                + spec_pend_gated(b, IRQ_PERIP_REG_2, p2, IRQ_2_GPIO_2, PERIPHERAL_DOMAIN_ID, 51)
                + spec_pend_gated(b, IRQ_PERIP_REG_2, p2, IRQ_2_GPIO_3, PERIPHERAL_DOMAIN_ID, 52)
                + spec_pend_gated(b, IRQ_PERIP_REG_2, p2, IRQ_2_I2C, PERIPHERAL_DOMAIN_ID, 53)
                + spec_pend_gated(b, IRQ_PERIP_REG_2, p2, IRQ_2_SPI, PERIPHERAL_DOMAIN_ID, 54)
                + spec_pend_gated(b, IRQ_PERIP_REG_2, p2, IRQ_2_PCM, PERIPHERAL_DOMAIN_ID, 55)
                + spec_pend_gated(b, IRQ_PERIP_REG_2, p2, IRQ_2_UART, PERIPHERAL_DOMAIN_ID, 57));
        }
    } else {
        proof {
            assert(v@ =~= with_reg1 + spec_pend_gated(
                b,
                IRQ_PERIP_REG_2,
                p2,
                IRQ_2_I2C_SPI_SLAVE,
                PERIPHERAL_DOMAIN_ID,
                43,
            ) + spec_pend_gated(b, IRQ_PERIP_REG_2, p2, IRQ_2_PWA_0, PERIPHERAL_DOMAIN_ID, 45)
                + spec_pend_gated(b, IRQ_PERIP_REG_2, p2, IRQ_2_PWA_1, PERIPHERAL_DOMAIN_ID, 46)
                + spec_pend_gated(b, IRQ_PERIP_REG_2, p2, IRQ_2_SMI, PERIPHERAL_DOMAIN_ID, 48)
                + spec_pend_gated(b, IRQ_PERIP_REG_2, p2, IRQ_2_GPIO_0, PERIPHERAL_DOMAIN_ID, 49)
                + spec_pend_gated(b, IRQ_PERIP_REG_2, p2, IRQ_2_GPIO_1, PERIPHERAL_DOMAIN_ID, 50)
                + spec_pend_gated(b, IRQ_PERIP_REG_2, p2, IRQ_2_GPIO_2, PERIPHERAL_DOMAIN_ID, 51)
                + spec_pend_gated(b, IRQ_PERIP_REG_2, p2, IRQ_2_GPIO_3, PERIPHERAL_DOMAIN_ID, 52)
                + spec_pend_gated(b, IRQ_PERIP_REG_2, p2, IRQ_2_I2C, PERIPHERAL_DOMAIN_ID, 53)
                + spec_pend_gated(b, IRQ_PERIP_REG_2, p2, IRQ_2_SPI, PERIPHERAL_DOMAIN_ID, 54)
                + spec_pend_gated(b, IRQ_PERIP_REG_2, p2, IRQ_2_PCM, PERIPHERAL_DOMAIN_ID, 55)
                + spec_pend_gated(b, IRQ_PERIP_REG_2, p2, IRQ_2_UART, PERIPHERAL_DOMAIN_ID, 57));
        }
    }
    v
}

/// The first pending channel that no binding serves, if any: dispatch stops
/// there, because an enabled interrupt nobody acknowledges would storm.
pub open spec fn spec_first_unhandled(pending: Seq<IrqChannel>, channels: Seq<IrqChannel>) -> Option<
    IrqChannel,
>
    decreases pending.len(),
{
    if pending.len() == 0 {
        None
    } else if !spec_has_handler(channels, pending[0]) {
        Some(pending[0])
    } else {
        spec_first_unhandled(pending.drop_first(), channels)
    }
}

/// Serves one interrupt: reads the three pending registers, resolves the set
/// bits to channels in priority order, and runs the first registered handler
/// of each. Stops at the first pending channel without a handler and names it
/// in the error; the caller must treat that as fatal, never ignore it.
pub fn serve_interrupt<M: Mmio, F: Fn() -> ()>(m: &mut M, handlers: &IrqRegistry<F>) -> (r: Result<
    (),
    IrqChannel,
>)
    requires
        handlers.wf(),
    ensures
        ({
            let pre = old(m).ops();
            let ops = final(m).ops();
            &&& ops.len() == pre.len() + 3
            &&& ops.subrange(0, pre.len() as int) == pre
            &&& ops[pre.len() as int] matches MmioOp::Read(ab, b) && ab == IRQ_BASIC_PENDING && (
            ops[pre.len() as int + 1] matches MmioOp::Read(a1, p1) && a1 == IRQ_PENDING_1 && (ops[pre.len() as int
                + 2] matches MmioOp::Read(a2, p2) && a2 == IRQ_PENDING_2 && r == (
            match spec_first_unhandled(spec_pending_channels(b, p1, p2), handlers.channels()) {
                Option::None => Ok::<(), IrqChannel>(()),
                Option::Some(c) => Err::<(), IrqChannel>(c),
            })))
        }),
{
    let ghost pre = old(m).ops();
    let b: u32 = m.read(IRQ_BASIC_PENDING);
    let p1: u32 = m.read(IRQ_PENDING_1);
    let p2: u32 = m.read(IRQ_PENDING_2);
    let pending: Vec<IrqChannel> = pending_channels(b, p1, p2);
    let ghost ops_now = m.ops();
    proof {
        assert(m.ops().subrange(0, pre.len() as int) =~= pre);
        assert(ops_now[pre.len() as int] == MmioOp::Read(IRQ_BASIC_PENDING, b));
        assert(ops_now[pre.len() as int + 1] == MmioOp::Read(IRQ_PENDING_1, p1));
        assert(ops_now[pre.len() as int + 2] == MmioOp::Read(IRQ_PENDING_2, p2));
        assert(pending@.subrange(0, pending@.len() as int) =~= pending@);
    }
    let mut k: usize = 0;
    while k < pending.len()
        invariant
            handlers.wf(),
            k <= pending@.len(),
            m.ops() == ops_now,
            pre == old(m).ops(),
            ops_now.len() == pre.len() + 3,
            ops_now.subrange(0, pre.len() as int) == pre,
            ops_now[pre.len() as int] == MmioOp::Read(IRQ_BASIC_PENDING, b),
            ops_now[pre.len() as int + 1] == MmioOp::Read(IRQ_PENDING_1, p1),
            ops_now[pre.len() as int + 2] == MmioOp::Read(IRQ_PENDING_2, p2),
            pending@ == spec_pending_channels(b, p1, p2),
            spec_first_unhandled(
                pending@.subrange(k as int, pending@.len() as int),
                handlers.channels(),
            ) == spec_first_unhandled(pending@, handlers.channels()),
        decreases pending@.len() - k,
    {
        let ch: IrqChannel = pending[k];
        let found: bool = handlers.handle(ch);
        proof {
            let rest = pending@.subrange(k as int, pending@.len() as int);
            assert(rest[0] == ch);
        }
        if !found {
            proof {
                let rest = pending@.subrange(k as int, pending@.len() as int);
                assert(spec_first_unhandled(rest, handlers.channels()) == Some(ch));
            }
            return Err(ch);
        }
        k += 1;
        proof {
            let prev = pending@.subrange(k - 1, pending@.len() as int);
            assert(prev.drop_first() =~= pending@.subrange(k as int, pending@.len() as int));
        }
    }
    proof {
        assert(pending@.subrange(pending@.len() as int, pending@.len() as int) =~= Seq::<
            IrqChannel,
        >::empty());
    }
    Ok(())
}

/// Masking a channel is idempotent: after one mask write the channel's mask
/// state is set, and a second identical write leaves it set -- the disable
/// registers act on the written ones only, there is no toggling.
pub proof fn lemma_mask_interrupt_idempotent(ops: Seq<MmioOp>, ch: IrqChannel)
    requires
        spec_valid_channel(ch),
    ensures
        spec_channel_masked(ops.push(spec_mask_op(ch)), ch) == Some(true),
        spec_channel_masked(ops.push(spec_mask_op(ch)).push(spec_mask_op(ch)), ch) == Some(true),
{
    lemma_channel_bit_nonzero(ch);
    assert(ops.push(spec_mask_op(ch)).drop_last() =~= ops);
    assert(ops.push(spec_mask_op(ch)).push(spec_mask_op(ch)).drop_last() =~= ops.push(
        spec_mask_op(ch),
    ));
}

/// Unmasking a channel is idempotent in the same way.
pub proof fn lemma_unmask_interrupt_idempotent(ops: Seq<MmioOp>, ch: IrqChannel)
    requires
        spec_valid_channel(ch),
    ensures
        spec_channel_masked(ops.push(spec_unmask_op(ch)), ch) == Some(false),
        spec_channel_masked(ops.push(spec_unmask_op(ch)).push(spec_unmask_op(ch)), ch) == Some(
            false,
        ),
{
    lemma_channel_bit_nonzero(ch);
    assert(ops.push(spec_unmask_op(ch)).drop_last() =~= ops);
    assert(ops.push(spec_unmask_op(ch)).push(spec_unmask_op(ch)).drop_last() =~= ops.push(
        spec_unmask_op(ch),
    ));
}

/// A pending channel that was never registered makes dispatch fail -- it is
/// never silently passed over.
pub proof fn lemma_unregistered_pending_faults(
    pending: Seq<IrqChannel>,
    channels: Seq<IrqChannel>,
    ch: IrqChannel,
)
    requires
        pending.contains(ch),
        !spec_has_handler(channels, ch),
    ensures
        spec_first_unhandled(pending, channels) is Some,
    decreases pending.len(),
{
    let i = choose|i: int| 0 <= i < pending.len() && pending[i] == ch;
    if !spec_has_handler(channels, pending[0]) {
    } else {
        assert(pending[0] != ch);
        assert(pending.drop_first()[i - 1] == ch);
        lemma_unregistered_pending_faults(pending.drop_first(), channels, ch);
    }
}

/// The mask-state bit a channel occupies in its disable/enable registers.
pub open spec fn spec_channel_bit(ch: IrqChannel) -> u32
    recommends
        spec_valid_channel(ch),
{
    if ch.domain.spec_get() == ARM_DOMAIN_ID || ch.number < 32 {
        1u32 << ch.number
    } else {
        1u32 << ((ch.number - 32) as u32)
    }
}

/// The disable register a channel's mask write goes to.
pub open spec fn spec_mask_reg(ch: IrqChannel) -> u64
    recommends
        spec_valid_channel(ch),
{
    if ch.domain.spec_get() == ARM_DOMAIN_ID {
        IRQ_DI_BASIC
    } else if ch.number < 32 {
        IRQ_DI_1
    } else {
        IRQ_DI_2
    }
}

/// The enable register a channel's unmask write goes to.
pub open spec fn spec_unmask_reg(ch: IrqChannel) -> u64
    recommends
        spec_valid_channel(ch),
{
    if ch.domain.spec_get() == ARM_DOMAIN_ID {
        IRQ_EN_BASIC
    } else if ch.number < 32 {
        IRQ_EN_1
    } else {
        IRQ_EN_2
    }
}

/// Whether `ch` is masked after the accesses `ops`: the last write touching
/// the channel's bit in its disable or enable register decides; `None` before
/// any such write (the initial state is the hardware's).
pub open spec fn spec_channel_masked(ops: Seq<MmioOp>, ch: IrqChannel) -> Option<bool>
    decreases ops.len(),
{
    if ops.len() == 0 {
        None
    } else {
        match ops.last() {
            MmioOp::Write(a, v) => {
                if a == spec_mask_reg(ch) && v & spec_channel_bit(ch) != 0 {
                    Some(true)
                } else if a == spec_unmask_reg(ch) && v & spec_channel_bit(ch) != 0 {
                    Some(false)
                } else {
                    spec_channel_masked(ops.drop_last(), ch)
                }
            },
            MmioOp::Read(a, v) => spec_channel_masked(ops.drop_last(), ch),
        }
    }
}

/// A channel's bit is a single set bit: a mask or unmask write is never a
/// no-op on its own channel.
pub proof fn lemma_channel_bit_nonzero(ch: IrqChannel)
    requires
        spec_valid_channel(ch),
    ensures
        spec_channel_bit(ch) & spec_channel_bit(ch) != 0,
        spec_mask_op(ch) == MmioOp::Write(spec_mask_reg(ch), spec_channel_bit(ch)),
        spec_unmask_op(ch) == MmioOp::Write(spec_unmask_reg(ch), spec_channel_bit(ch)),
{
    if ch.domain.spec_get() == ARM_DOMAIN_ID || ch.number < 32 {
        let n = ch.number;
        assert((1u32 << n) & (1u32 << n) != 0) by (bit_vector)
            requires
                n < 32,
        ;
    } else {
        let n: u32 = (ch.number - 32) as u32;
        assert((1u32 << n) & (1u32 << n) != 0) by (bit_vector)
            requires
                n < 32,
        ;
    }
}

} // verus!
