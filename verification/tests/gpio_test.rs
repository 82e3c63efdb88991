use rpi_kernel::gpio::output_clear;
use rpi_kernel::gpio::output_set;
use rpi_kernel::gpio::set_function;
use rpi_kernel::gpio::set_pull_mode;
use rpi_kernel::gpio::Function;
use rpi_kernel::gpio::PullMode;
use rpi_kernel::gpio::GPCLR0;
use rpi_kernel::gpio::GPFSEL1;
use rpi_kernel::gpio::GPPUD;
use rpi_kernel::gpio::GPPUDCLK0;
use rpi_kernel::gpio::GPSET0;
use rpi_kernel::gpio::GPSET1;
use rpi_kernel::mmio::MockMmio;

#[test]
fn output_set_drives_both_banks() {
    let mut m = MockMmio::new();
    output_set(&mut m, (1 << 5) | (1 << 10) | (1 << 40));
    assert_eq!(m.reg(GPSET0), (1 << 5) | (1 << 10));
    assert_eq!(m.reg(GPSET1), 1 << (40 - 32));
}

#[test]
fn output_clear_drives_both_banks() {
    let mut m = MockMmio::new();
    output_clear(&mut m, 1 << 5);
    assert_eq!(m.reg(GPCLR0), 1 << 5);
}

// Pins beyond the 54 that exist are masked away.
#[test]
fn output_set_masks_nonexistent_pins() {
    let mut m = MockMmio::new();
    output_set(&mut m, 1 << 60);
    assert_eq!(m.reg(GPSET0), 0);
    assert_eq!(m.reg(GPSET1), 0);
}

// The UART pins take their alternate function: three-bit fields inside the
// second select bank.
#[test]
fn set_function_programs_fsel_fields() {
    let mut m = MockMmio::new();
    set_function(&mut m, (1 << 14) | (1 << 15), Function::Func0);
    // Pins 14 and 15 live in bank 1 at field offsets 12 and 15; Func0 is 0b100.
    assert_eq!(m.reg(GPFSEL1), (0b100 << 12) | (0b100 << 15));
}

// Changing one pin's function leaves its neighbours' fields alone.
#[test]
fn set_function_preserves_other_fields() {
    let mut m = MockMmio::new();
    m.set_reg(GPFSEL1, 0b111 << 3);
    set_function(&mut m, 1 << 14, Function::Output);
    assert_eq!(m.reg(GPFSEL1), (0b111 << 3) | (0b001 << 12));
}

// The pull handshake raises the control signal, clocks it, and releases
// both.
#[test]
fn set_pull_mode_handshake() {
    let mut m = MockMmio::new();
    set_pull_mode(&mut m, 1 << 7, PullMode::PullDown);
    // Both control registers end released.
    assert_eq!(m.reg(GPPUD), 0);
    assert_eq!(m.reg(GPPUDCLK0), 0);
}
