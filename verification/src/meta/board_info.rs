use vstd::prelude::*;

use crate::error::ErrorKind;
use crate::mailbox::message::spec_tag_payload;
use crate::mailbox::message::Message;
use crate::mailbox::port::send;
use crate::mailbox::port::MailboxPort;
use crate::mailbox::tag::HwGetArmMemoryRequest;
use crate::mailbox::tag::HwGetArmMemoryResponse;
use crate::mailbox::tag::HwGetBoardMacAddressRequest;
use crate::mailbox::tag::HwGetBoardMacAddressResponse;
use crate::mailbox::tag::HwGetBoardModelRequest;
use crate::mailbox::tag::HwGetBoardModelResponse;
use crate::mailbox::tag::HwGetBoardRevisionRequest;
use crate::mailbox::tag::HwGetBoardSerialRequest;
use crate::mailbox::tag::HwGetBoardSerialResponse;
use crate::mailbox::tag::HwGetVideocoreMemoryRequest;
use crate::mailbox::tag::HwGetVideocoreMemoryResponse;
use crate::mailbox::tag::VideocoreGetFirmwareRevisionRequest;
use crate::mailbox::tag::VideocoreGetFirmwareRevisionResponse;

verus! {

// The board survey: one mailbox message asking the firmware for its
// revision, the board's model, revision, MAC address, serial number and the
// two memory regions, decoded into one record.

/// The board families, told apart by the CPU part number.
#[derive(Clone, Copy, Debug, PartialEq, Eq, Structural)]
pub enum RaspiBoardType {
    Unknown,
    Pi1,
    Pi2,
    Pi3,
    Pi4,
}

/// The board family a CPU part number names.
pub open spec fn spec_board_type_of(part_num: u32) -> RaspiBoardType {
    if part_num == 0x0B76 {
        RaspiBoardType::Pi1
    } else if part_num == 0x0C07 {
        RaspiBoardType::Pi2
    } else if part_num == 0x0D03 {
        RaspiBoardType::Pi3
    } else if part_num == 0x0D08 {
        RaspiBoardType::Pi4
    } else {
        RaspiBoardType::Unknown
    }
}

impl RaspiBoardType {
    /// The board family a CPU part number names; the part number itself
    /// comes out of the main identification register.
    pub fn from_part_number(part_num: u32) -> (r: RaspiBoardType)
        ensures
            r == spec_board_type_of(part_num),
    {
        match part_num {
            0x0B76 => RaspiBoardType::Pi1,
            0x0C07 => RaspiBoardType::Pi2,
            0x0D03 => RaspiBoardType::Pi3,
            0x0D08 => RaspiBoardType::Pi4,
            _ => RaspiBoardType::Unknown,
        }
    }
}

/// A MAC address in network byte order.
pub struct MacAddress {
    pub data: [u8; 6],
}

impl MacAddress {
    pub fn new(data: [u8; 6]) -> (r: MacAddress)
        ensures
            r.data@ == data@,
    {
        MacAddress { data }
    }
}

/// Everything the board survey yields.
pub struct RaspiBoardInfo {
    pub videocore_firmware_rev: u32,
    pub board_type: RaspiBoardType,
    pub board_model: u32,
    pub board_mac_address: MacAddress,
    pub board_serial: u64,
    pub arm_mem_base_address: u32,
    pub arm_mem_size_bytes: u32,
    pub videocore_mem_base_address: u32,
    pub videocore_mem_size_bytes: u32,
}

/// Decodes a board survey reply. The ARM and VideoCore memory tags are read
/// first, then the firmware revision, model, MAC address and serial; the
/// first tag that fails to decode names the error.
pub fn parse_board_info(message: &Message, board_type: RaspiBoardType) -> (r: Result<
    RaspiBoardInfo,
    ErrorKind,
>)
    requires
        message.sized(),
    ensures
        ({
            let arm = spec_tag_payload(message@, 0x0001_0005, 2);
            let vc = spec_tag_payload(message@, 0x0001_0006, 2);
            let fw = spec_tag_payload(message@, 0x0000_0001, 1);
            let model = spec_tag_payload(message@, 0x0001_0001, 1);
            let mac = spec_tag_payload(message@, 0x0001_0003, 2);
            let serial = spec_tag_payload(message@, 0x0001_0004, 2);
            if arm is Err {
                r == Err::<RaspiBoardInfo, ErrorKind>(arm->Err_0)
            } else if vc is Err {
                r == Err::<RaspiBoardInfo, ErrorKind>(vc->Err_0)
            } else if fw is Err {
                r == Err::<RaspiBoardInfo, ErrorKind>(fw->Err_0)
            } else if model is Err {
                r == Err::<RaspiBoardInfo, ErrorKind>(model->Err_0)
            } else if mac is Err {
                r == Err::<RaspiBoardInfo, ErrorKind>(mac->Err_0)
            } else if serial is Err {
                r == Err::<RaspiBoardInfo, ErrorKind>(serial->Err_0)
            } else {
                r matches Ok(info) && info.board_type == board_type
                    && info.arm_mem_base_address == arm->Ok_0[0] && info.arm_mem_size_bytes
                    == arm->Ok_0[1] && info.videocore_mem_base_address == vc->Ok_0[0]
                    && info.videocore_mem_size_bytes == vc->Ok_0[1]
                    && info.videocore_firmware_rev == fw->Ok_0[0] && info.board_model
                    == model->Ok_0[0] && info.board_serial == serial->Ok_0[0] + 0x1_0000_0000u64
                    * serial->Ok_0[1]
            }
        }),
{
    let arm = match HwGetArmMemoryResponse::read_response(message) {
        Ok(v) => v,
        Err(e) => {
            return Err(e);
        },
    };
    let vc = match HwGetVideocoreMemoryResponse::read_response(message) {
        Ok(v) => v,
        Err(e) => {
            return Err(e);
        },
    };
    let fw = match VideocoreGetFirmwareRevisionResponse::read_response(message) {
        Ok(v) => v,
        Err(e) => {
            return Err(e);
        },
    };
    let model = match HwGetBoardModelResponse::read_response(message) {
        Ok(v) => v,
        Err(e) => {
            return Err(e);
        },
    };
    let mac = match HwGetBoardMacAddressResponse::read_response(message) {
        Ok(v) => v,
        Err(e) => {
            return Err(e);
        },
    };
    let serial = match HwGetBoardSerialResponse::read_response(message) {
        Ok(v) => v,
        Err(e) => {
            return Err(e);
        },
    };
    Ok(
        RaspiBoardInfo {
            videocore_firmware_rev: fw.firmware_rev,
            board_type,
            board_model: model.board_model,
            board_mac_address: MacAddress { data: mac.mac_address },
            board_serial: serial.serial,
            arm_mem_base_address: arm.base_address,
            arm_mem_size_bytes: arm.size_bytes,
            videocore_mem_base_address: vc.base_address,
            videocore_mem_size_bytes: vc.size_bytes,
        },
    )
}

/// Surveys the board over the mailbox: builds the seven-tag request
/// (firmware revision, model, revision, MAC address, serial, ARM memory,
/// VideoCore memory), exchanges it with the firmware, and decodes the reply
/// with [`parse_board_info`], which states exactly what each reply yields.
/// The board type is decoded from the CPU's part number by the caller.
pub fn raspi_board_info<P: MailboxPort>(port: &mut P, board_type: RaspiBoardType) -> (r: Result<
    RaspiBoardInfo,
    ErrorKind,
>)
    ensures
        r matches Ok(info) ==> info.board_type == board_type,
{
    let vc_fw_rev_tag = VideocoreGetFirmwareRevisionRequest {}.to_tag();
    let hw_board_model_tag = HwGetBoardModelRequest {}.to_tag();
    let hw_board_rev_tag = HwGetBoardRevisionRequest {}.to_tag();
    let hw_board_mac_address_tag = HwGetBoardMacAddressRequest {}.to_tag();
    let hw_board_serial_tag = HwGetBoardSerialRequest {}.to_tag();
    let hw_arm_memory_tag = HwGetArmMemoryRequest {}.to_tag();
    let hw_vc_memory_tag = HwGetVideocoreMemoryRequest {}.to_tag();
    let message: Message = Message::builder(32).add_tag(&vc_fw_rev_tag).add_tag(
        &hw_board_model_tag,
    ).add_tag(&hw_board_rev_tag).add_tag(&hw_board_mac_address_tag).add_tag(
        &hw_board_serial_tag,
    ).add_tag(&hw_arm_memory_tag).add_tag(&hw_vc_memory_tag).build();
    let message: Message = send(port, message);
    parse_board_info(&message, board_type)
}

} // verus!
