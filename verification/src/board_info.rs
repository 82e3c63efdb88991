use vstd::prelude::*;

verus! {

/// The board generations, told apart by the CPU part number out of the main
/// identification register.
#[derive(Clone, Copy, Debug, PartialEq, Eq, Structural)]
#[allow(non_camel_case_types)]
pub enum BoardType {
    UNKNOWN,
    PI_1,
    PI_2,
    PI_3,
    PI_4,
}

/// The board generation a CPU part number names.
pub open spec fn spec_board_of_part_number(part_num: u32) -> BoardType {
    if part_num == 0xB76 {
        BoardType::PI_1
    } else if part_num == 0xC07 {
        BoardType::PI_2
    } else if part_num == 0xD03 {
        BoardType::PI_3
    } else if part_num == 0xD08 {
        BoardType::PI_4
    } else {
        BoardType::UNKNOWN
    }
}

/// The board generation a CPU part number names. The part number is bits
/// 15..=4 of the main identification register, which only privileged code
/// can read; this decodes the value it hands over.
pub fn board_type_of_part_number(part_num: u32) -> (r: BoardType)
    ensures
        r == spec_board_of_part_number(part_num),
{
    match part_num {
        0xB76 => BoardType::PI_1,
        0xC07 => BoardType::PI_2,
        0xD03 => BoardType::PI_3,
        0xD08 => BoardType::PI_4,
        _ => BoardType::UNKNOWN,
    }
}

/// The peripheral base address each board generation maps its devices at:
/// every register offset in this crate is relative to it.
pub open spec fn spec_peripheral_base_address(board: BoardType) -> u64 {
    match board {
        BoardType::PI_2 => 0x3F00_0000,
        BoardType::PI_3 => 0x3F00_0000,
        BoardType::PI_4 => 0xFE00_0000,
        BoardType::PI_1 => 0x2000_0000,
        BoardType::UNKNOWN => 0x2000_0000,
    }
}

/// The peripheral base address of a board generation.
pub fn peripheral_base_address(board: BoardType) -> (r: u64)
    ensures
        r == spec_peripheral_base_address(board),
{
    match board {
        BoardType::PI_2 | BoardType::PI_3 => 0x3F00_0000,
        BoardType::PI_4 => 0xFE00_0000,
        _ => 0x2000_0000,
    }
}

} // verus!
