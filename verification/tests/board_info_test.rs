use rpi_kernel::board_info::board_type_of_part_number;
use rpi_kernel::board_info::BoardType;
use rpi_kernel::mailbox::mock::MockFirmware;
use rpi_kernel::meta::board_info::raspi_board_info;
use rpi_kernel::meta::board_info::RaspiBoardType;
use rpi_kernel::meta::cpu_info::get_memory_model;
use rpi_kernel::meta::cpu_info::read_cache_info;
use rpi_kernel::meta::cpu_info::CacheLevel;
use rpi_kernel::meta::cpu_info::CacheType;

// The board survey decoded against the simulated firmware's values.
#[test]
fn board_survey_round_trip() {
    let mut fw = MockFirmware::new();
    fw.firmware_rev = 12345;
    fw.board_model = 4;
    fw.mac_w0 = 0xDDCC_BBAA;
    fw.mac_w1 = 0x0000_FFEE;
    fw.serial_lo = 0x89AB_CDEF;
    fw.serial_hi = 0x0123_4567;
    fw.arm_mem_base = 0x1000;
    fw.arm_mem_size = 1024 * 1024;
    fw.vc_mem_base = 0x2000;
    fw.vc_mem_size = 512 * 1024;

    let info = raspi_board_info(&mut fw, RaspiBoardType::Pi4).expect("board survey");
    assert_eq!(info.videocore_firmware_rev, 12345);
    assert!(matches!(info.board_type, RaspiBoardType::Pi4));
    assert_eq!(info.board_model, 4);
    assert_eq!(info.board_mac_address.data, [0xAA, 0xBB, 0xCC, 0xDD, 0xEE, 0xFF]);
    assert_eq!(info.board_serial, 0x0123_4567_89AB_CDEF);
    assert_eq!(info.arm_mem_base_address, 0x1000);
    assert_eq!(info.arm_mem_size_bytes, 1024 * 1024);
    assert_eq!(info.videocore_mem_base_address, 0x2000);
    assert_eq!(info.videocore_mem_size_bytes, 512 * 1024);
}

#[test]
fn board_types_from_part_numbers() {
    assert!(matches!(board_type_of_part_number(0xB76), BoardType::PI_1));
    assert!(matches!(board_type_of_part_number(0xC07), BoardType::PI_2));
    assert!(matches!(board_type_of_part_number(0xD03), BoardType::PI_3));
    assert!(matches!(board_type_of_part_number(0xD08), BoardType::PI_4));
    assert!(matches!(board_type_of_part_number(0x123), BoardType::UNKNOWN));
    assert!(matches!(
        RaspiBoardType::from_part_number(0x0D03),
        RaspiBoardType::Pi3
    ));
}

// A 32 KiB four-way cache with 128 sets of 64-byte lines, write-allocating,
// read-allocating and write-back.
#[test]
fn cache_info_decodes_geometry() {
    let ccsidr: u32 = 2 | (3 << 3) | (127 << 13) | (1 << 28) | (1 << 29) | (1 << 30);
    let info = read_cache_info(CacheLevel::L1, CacheType::Data, ccsidr);
    assert!(info.exists);
    assert_eq!(info.line_size_bytes, 64);
    assert_eq!(info.associativity, 4);
    assert_eq!(info.num_sets, 128);
    assert_eq!(info.total_size_bytes, 32768);
    assert!(info.write_alloc_supported);
    assert!(info.read_alloc_supported);
    assert!(info.write_back_supported);
    assert!(!info.write_through_supported);
}

// A zero identification register means the cache does not exist.
#[test]
fn cache_info_absent_cache() {
    let info = read_cache_info(CacheLevel::L2, CacheType::Unified, 0);
    assert!(!info.exists);
    assert_eq!(info.total_size_bytes, 1 << 4);
    assert_eq!(info.associativity, 1);
}

#[test]
fn memory_model_surveys_four_caches() {
    let l1d: u32 = 2 | (3 << 3) | (127 << 13);
    let model = get_memory_model(l1d, 0, 0, 0, 1);
    assert!(model.mmu_enabled);
    assert_eq!(model.cache.len(), 4);
    assert!(model.cache[0].exists);
    assert!(!model.cache[2].exists);
    let off = get_memory_model(0, 0, 0, 0, 0);
    assert!(!off.mmu_enabled);
}
