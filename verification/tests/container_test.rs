use rpi_kernel::clock::ClockId;
use rpi_kernel::queue::Queue;

#[test]
fn queue_pushes_and_pops_at_the_same_end() {
    let mut q = Queue::<u32, 8>::new();
    assert!(q.empty());
    q.push(10);
    q.push(20);
    q.push(30);
    assert_eq!(q.size(), 3);
    assert_eq!(q.pop(), 30);
    assert_eq!(q.pop(), 20);
    assert_eq!(q.pop(), 10);
    assert!(q.empty());
}

#[test]
fn clock_names_and_codes() {
    assert_eq!(ClockId::Uart.as_str(), "Uart");
    assert_eq!(ClockId::Emmc.as_str(), "Emmc");
    assert_eq!(ClockId::PixelBvb.as_str(), "PixelBvb");
    assert_eq!(ClockId::Uart.value(), 0x2);
    assert_eq!(ClockId::Emmc.value(), 0x1);
    assert_eq!(ClockId::PixelBvb.value(), 0xe);
}
