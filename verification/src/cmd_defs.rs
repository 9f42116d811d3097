//! Commands to control gear (IEC 62386-102): the 16-bit forward frames
//! and their opcodes. `Command<ANSWER, TWICE>` records whether a command
//! expects an answer and whether it must be sent twice.
use vstd::prelude::*;
use crate::address::AddressByte;

verus! {

/// A 16-bit forward frame: address byte, then opcode or data.
pub struct Command<const ANSWER: bool, const TWICE: bool>(pub [u8; 2]);

/// The address byte of broadcast and of the special commands' data byte "none".
pub const MASK: u8 = 0xff;

pub const OFF_OPCODE_BYTE: u8 = 0x00;
pub const UP_OPCODE_BYTE: u8 = 0x01;
pub const DOWN_OPCODE_BYTE: u8 = 0x02;
pub const STEP_UP_OPCODE_BYTE: u8 = 0x03;
pub const STEP_DOWN_OPCODE_BYTE: u8 = 0x04;
pub const RECALL_MAX_LEVEL_OPCODE_BYTE: u8 = 0x05;
pub const RECALL_MIN_LEVEL_OPCODE_BYTE: u8 = 0x06;
pub const STEP_DOWN_AND_OFF_OPCODE_BYTE: u8 = 0x07;
pub const ON_AND_STEP_UP_OPCODE_BYTE: u8 = 0x08;
pub const ENABLE_DAPC_SEQUENCE_OPCODE_BYTE: u8 = 0x09;
pub const GO_TO_LAST_ACTIVE_LEVEL_OPCODE_BYTE: u8 = 0x0a;
pub const RESET_OPCODE_BYTE: u8 = 0x20;
pub const STORE_ACTUAL_LEVEL_IN_DTR0_OPCODE_BYTE: u8 = 0x21;
pub const SAVE_PERSISTENT_VARIABLES_OPCODE_BYTE: u8 = 0x22;
pub const SET_OPERATING_MODE_OPCODE_BYTE: u8 = 0x23;
pub const RESET_MEMORY_BANK_OPCODE_BYTE: u8 = 0x24;
pub const IDENTIFY_DEVICE_OPCODE_BYTE: u8 = 0x25;
pub const SET_MAX_LEVEL_OPCODE_BYTE: u8 = 0x2a;
pub const SET_MIN_LEVEL_OPCODE_BYTE: u8 = 0x2b;
pub const SET_SYSTEM_FAILURE_LEVEL_OPCODE_BYTE: u8 = 0x2c;
pub const SET_POWER_ON_LEVEL_OPCODE_BYTE: u8 = 0x2d;
pub const SET_FADE_TIME_OPCODE_BYTE: u8 = 0x2e;
pub const SET_FADE_RATE_OPCODE_BYTE: u8 = 0x2f;
pub const SET_EXTENDED_FADE_TIME_OPCODE_BYTE: u8 = 0x30;
pub const SET_SHORT_ADDRESS_OPCODE_BYTE: u8 = 0x80;
pub const ENABLE_WRITE_MEMORY_OPCODE_BYTE: u8 = 0x81;
pub const QUERY_STATUS_OPCODE_BYTE: u8 = 0x90;
pub const QUERY_CONTROL_GEAR_PRESENT_OPCODE_BYTE: u8 = 0x91;
pub const QUERY_LAMP_FAILURE_OPCODE_BYTE: u8 = 0x92;
pub const QUERY_LAMP_POWER_ON_OPCODE_BYTE: u8 = 0x93;
pub const QUERY_LIMIT_ERROR_OPCODE_BYTE: u8 = 0x94;
pub const QUERY_RESET_STATE_OPCODE_BYTE: u8 = 0x95;
pub const QUERY_MISSING_SHORT_ADDRESS_OPCODE_BYTE: u8 = 0x96;
pub const QUERY_VERSION_NUMBER_OPCODE_BYTE: u8 = 0x97;
pub const QUERY_CONTENT_DTR0_OPCODE_BYTE: u8 = 0x98;
pub const QUERY_DEVICE_TYPE_OPCODE_BYTE: u8 = 0x99;
pub const QUERY_PHYSICAL_MINIMUM_OPCODE_BYTE: u8 = 0x9a;
pub const QUERY_POWER_FAILURE_OPCODE_BYTE: u8 = 0x9b;
pub const QUERY_CONTENT_DTR1_OPCODE_BYTE: u8 = 0x9c;
pub const QUERY_CONTENT_DTR2_OPCODE_BYTE: u8 = 0x9d;
pub const QUERY_OPERATING_MODE_OPCODE_BYTE: u8 = 0x9e;
pub const QUERY_LIGHT_SOURCE_TYPE_OPCODE_BYTE: u8 = 0x9f;
pub const QUERY_ACTUAL_LEVEL_OPCODE_BYTE: u8 = 0xa0;
pub const QUERY_MAX_LEVEL_OPCODE_BYTE: u8 = 0xa1;
pub const QUERY_MIN_LEVEL_OPCODE_BYTE: u8 = 0xa2;
pub const QUERY_POWER_ON_LEVEL_OPCODE_BYTE: u8 = 0xa3;
pub const QUERY_SYSTEM_FAILURE_LEVEL_OPCODE_BYTE: u8 = 0xa4;
pub const QUERY_FADE_OPCODE_BYTE: u8 = 0xa5;
pub const QUERY_MANUFACTURER_SPECIFIC_MODE_OPCODE_BYTE: u8 = 0xa6;
pub const QUERY_NEXT_DEVICE_TYPE_OPCODE_BYTE: u8 = 0xa7;
pub const QUERY_EXTENDED_FADE_TIME_OPCODE_BYTE: u8 = 0xa8;
pub const QUERY_CONTROL_GEAR_FAILURE_OPCODE_BYTE: u8 = 0xaa;
pub const QUERY_GROUPS_0_7_OPCODE_BYTE: u8 = 0xc0;
pub const QUERY_GROUPS_8_15_OPCODE_BYTE: u8 = 0xc1;
pub const QUERY_RANDOM_ADDRESS_H_OPCODE_BYTE: u8 = 0xc2;
pub const QUERY_RANDOM_ADDRESS_M_OPCODE_BYTE: u8 = 0xc3;
pub const QUERY_RANDOM_ADDRESS_L_OPCODE_BYTE: u8 = 0xc4;
pub const READ_MEMORY_LOCATION_OPCODE_BYTE: u8 = 0xc5;
pub const QUERY_EXTENDED_VERSION_NUMBER_OPCODE_BYTE: u8 = 0xff;
pub const GOTO_SCENE_FIRST_OPCODE_BYTE: u8 = 0x10;
pub const GOTO_SCENE_LAST_OPCODE_BYTE: u8 = 0x1f;
pub const SET_SCENE_FIRST_OPCODE_BYTE: u8 = 0x40;
pub const SET_SCENE_LAST_OPCODE_BYTE: u8 = 0x4f;
pub const REMOVE_FROM_SCENE_FIRST_OPCODE_BYTE: u8 = 0x50;
pub const REMOVE_FROM_SCENE_LAST_OPCODE_BYTE: u8 = 0x5f;
pub const ADD_TO_GROUP_FIRST_OPCODE_BYTE: u8 = 0x60;
pub const ADD_TO_GROUP_LAST_OPCODE_BYTE: u8 = 0x6f;
pub const REMOVE_FROM_GROUP_FIRST_OPCODE_BYTE: u8 = 0x70;
pub const REMOVE_FROM_GROUP_LAST_OPCODE_BYTE: u8 = 0x7f;
pub const QUERY_SCENE_LEVEL_FIRST_OPCODE_BYTE: u8 = 0xb0;
pub const QUERY_SCENE_LEVEL_LAST_OPCODE_BYTE: u8 = 0xbf;
pub const TERMINATE_ADDRESS_BYTE: u8 = 0xa1;
pub const DTR0_ADDRESS_BYTE: u8 = 0xa3;
pub const INITIALISE_ADDRESS_BYTE: u8 = 0xa5;
pub const RANDOMISE_ADDRESS_BYTE: u8 = 0xa7;
pub const COMPARE_ADDRESS_BYTE: u8 = 0xa9;
pub const WITHDRAW_ADDRESS_BYTE: u8 = 0xab;
pub const PING_ADDRESS_BYTE: u8 = 0xad;
pub const SEARCHADDRH_ADDRESS_BYTE: u8 = 0xb1;
pub const SEARCHADDRM_ADDRESS_BYTE: u8 = 0xb3;
pub const SEARCHADDRL_ADDRESS_BYTE: u8 = 0xb5;
pub const PROGRAM_SHORT_ADDRESS_ADDRESS_BYTE: u8 = 0xb7;
pub const VERIFY_SHORT_ADDRESS_ADDRESS_BYTE: u8 = 0xb9;
pub const QUERY_SHORT_ADDRESS_ADDRESS_BYTE: u8 = 0xbb;
pub const ENABLE_DEVICE_TYPE_ADDRESS_BYTE: u8 = 0xc1;
pub const DTR1_ADDRESS_BYTE: u8 = 0xc3;
pub const DTR2_ADDRESS_BYTE: u8 = 0xc5;
pub const WRITE_MEMORY_LOCATION_ADDRESS_BYTE: u8 = 0xc7;
pub const WRITE_MEMORY_LOCATION_NO_REPLY_ADDRESS_BYTE: u8 = 0xc9;
pub const INITIALISE_ALL_OPCODE_BYTE: u8 = 0x00;
pub const INITIALISE_NO_ADDR_OPCODE_BYTE: u8 = 0xff;

/// Direct arc power control: set the level of `addr` to `level`.
#[allow(non_snake_case)]
pub fn DAPC(addr: AddressByte, level: u8) -> (c: Command<false, true>)
    ensures
        c.0[0] == addr.0 & 0xfe,
        c.0[1] == level,
{
    Command([addr.0 & 0xfe, level])
}

#[allow(non_snake_case)]
pub fn OFF(addr: AddressByte) -> (c: Command<false, false>)
    ensures
        c.0[0] == addr.0 && c.0[1] == OFF_OPCODE_BYTE,
{
    Command([addr.0, OFF_OPCODE_BYTE])
}

#[allow(non_snake_case)]
pub fn UP(addr: AddressByte) -> (c: Command<false, false>)
    ensures
        c.0[0] == addr.0 && c.0[1] == UP_OPCODE_BYTE,
{
    Command([addr.0, UP_OPCODE_BYTE])
}

#[allow(non_snake_case)]
pub fn DOWN(addr: AddressByte) -> (c: Command<false, false>)
    ensures
        c.0[0] == addr.0 && c.0[1] == DOWN_OPCODE_BYTE,
{
    Command([addr.0, DOWN_OPCODE_BYTE])
}

#[allow(non_snake_case)]
pub fn STEP_UP(addr: AddressByte) -> (c: Command<false, false>)
    ensures
        c.0[0] == addr.0 && c.0[1] == STEP_UP_OPCODE_BYTE,
{
    Command([addr.0, STEP_UP_OPCODE_BYTE])
}

#[allow(non_snake_case)]
pub fn STEP_DOWN(addr: AddressByte) -> (c: Command<false, false>)
    ensures
        c.0[0] == addr.0 && c.0[1] == STEP_DOWN_OPCODE_BYTE,
{
    Command([addr.0, STEP_DOWN_OPCODE_BYTE])
}

#[allow(non_snake_case)]
pub fn RECALL_MAX_LEVEL(addr: AddressByte) -> (c: Command<false, false>)
    ensures
        c.0[0] == addr.0 && c.0[1] == RECALL_MAX_LEVEL_OPCODE_BYTE,
{
    Command([addr.0, RECALL_MAX_LEVEL_OPCODE_BYTE])
}

#[allow(non_snake_case)]
pub fn RECALL_MIN_LEVEL(addr: AddressByte) -> (c: Command<false, false>)
    ensures
        c.0[0] == addr.0 && c.0[1] == RECALL_MIN_LEVEL_OPCODE_BYTE,
{
    Command([addr.0, RECALL_MIN_LEVEL_OPCODE_BYTE])
}

#[allow(non_snake_case)]
pub fn STEP_DOWN_AND_OFF(addr: AddressByte) -> (c: Command<false, false>)
    ensures
        c.0[0] == addr.0 && c.0[1] == STEP_DOWN_AND_OFF_OPCODE_BYTE,
{
    Command([addr.0, STEP_DOWN_AND_OFF_OPCODE_BYTE])
}

#[allow(non_snake_case)]
pub fn ON_AND_STEP_UP(addr: AddressByte) -> (c: Command<false, false>)
    ensures
        c.0[0] == addr.0 && c.0[1] == ON_AND_STEP_UP_OPCODE_BYTE,
{
    Command([addr.0, ON_AND_STEP_UP_OPCODE_BYTE])
}

#[allow(non_snake_case)]
pub fn ENABLE_DAPC(addr: AddressByte) -> (c: Command<false, false>)
    ensures
        c.0[0] == addr.0 && c.0[1] == ENABLE_DAPC_SEQUENCE_OPCODE_BYTE,
{
    Command([addr.0, ENABLE_DAPC_SEQUENCE_OPCODE_BYTE])
}

#[allow(non_snake_case)]
pub fn GO_TO_LAST_ACTIVE_LEVEL(addr: AddressByte) -> (c: Command<false, false>)
    ensures
        c.0[0] == addr.0 && c.0[1] == GO_TO_LAST_ACTIVE_LEVEL_OPCODE_BYTE,
{
    Command([addr.0, GO_TO_LAST_ACTIVE_LEVEL_OPCODE_BYTE])
}

#[allow(non_snake_case)]
pub fn RESET(addr: AddressByte) -> (c: Command<false, true>)
    ensures
        c.0[0] == addr.0 && c.0[1] == RESET_OPCODE_BYTE,
{
    Command([addr.0, RESET_OPCODE_BYTE])
}

#[allow(non_snake_case)]
pub fn STORE_ACTUAL_LEVEL_IN_DTR0(addr: AddressByte) -> (c: Command<false, true>)
    ensures
        c.0[0] == addr.0 && c.0[1] == STORE_ACTUAL_LEVEL_IN_DTR0_OPCODE_BYTE,
{
    Command([addr.0, STORE_ACTUAL_LEVEL_IN_DTR0_OPCODE_BYTE])
}

#[allow(non_snake_case)]
pub fn SAVE_PERSISTENT_VARIABLES(addr: AddressByte) -> (c: Command<false, true>)
    ensures
        c.0[0] == addr.0 && c.0[1] == SAVE_PERSISTENT_VARIABLES_OPCODE_BYTE,
{
    Command([addr.0, SAVE_PERSISTENT_VARIABLES_OPCODE_BYTE])
}

#[allow(non_snake_case)]
pub fn SET_OPERATING_MODE(addr: AddressByte) -> (c: Command<false, true>)
    ensures
        c.0[0] == addr.0 && c.0[1] == SET_OPERATING_MODE_OPCODE_BYTE,
{
    Command([addr.0, SET_OPERATING_MODE_OPCODE_BYTE])
}

#[allow(non_snake_case)]
pub fn RESET_MEMORY_BANK(addr: AddressByte) -> (c: Command<false, true>)
    ensures
        c.0[0] == addr.0 && c.0[1] == RESET_MEMORY_BANK_OPCODE_BYTE,
{
    Command([addr.0, RESET_MEMORY_BANK_OPCODE_BYTE])
}

#[allow(non_snake_case)]
pub fn IDENTIFY_DEVICE(addr: AddressByte) -> (c: Command<false, true>)
    ensures
        c.0[0] == addr.0 && c.0[1] == IDENTIFY_DEVICE_OPCODE_BYTE,
{
    Command([addr.0, IDENTIFY_DEVICE_OPCODE_BYTE])
}

#[allow(non_snake_case)]
pub fn SET_MAX_LEVEL(addr: AddressByte) -> (c: Command<false, true>)
    ensures
        c.0[0] == addr.0 && c.0[1] == SET_MAX_LEVEL_OPCODE_BYTE,
{
    Command([addr.0, SET_MAX_LEVEL_OPCODE_BYTE])
}

#[allow(non_snake_case)]
pub fn SET_MIN_LEVEL(addr: AddressByte) -> (c: Command<false, true>)
    ensures
        c.0[0] == addr.0 && c.0[1] == SET_MIN_LEVEL_OPCODE_BYTE,
{
    Command([addr.0, SET_MIN_LEVEL_OPCODE_BYTE])
}

#[allow(non_snake_case)]
pub fn SET_SYSTEM_FAILURE_LEVEL(addr: AddressByte) -> (c: Command<false, true>)
    ensures
        c.0[0] == addr.0 && c.0[1] == SET_SYSTEM_FAILURE_LEVEL_OPCODE_BYTE,
{
    Command([addr.0, SET_SYSTEM_FAILURE_LEVEL_OPCODE_BYTE])
}

#[allow(non_snake_case)]
pub fn SET_POWER_ON_LEVEL(addr: AddressByte) -> (c: Command<false, true>)
    ensures
        c.0[0] == addr.0 && c.0[1] == SET_POWER_ON_LEVEL_OPCODE_BYTE,
{
    Command([addr.0, SET_POWER_ON_LEVEL_OPCODE_BYTE])
}

#[allow(non_snake_case)]
pub fn SET_FADE_TIME(addr: AddressByte) -> (c: Command<false, true>)
    ensures
        c.0[0] == addr.0 && c.0[1] == SET_FADE_TIME_OPCODE_BYTE,
{
    Command([addr.0, SET_FADE_TIME_OPCODE_BYTE])
}

#[allow(non_snake_case)]
pub fn SET_FADE_RATE(addr: AddressByte) -> (c: Command<false, true>)
    ensures
        c.0[0] == addr.0 && c.0[1] == SET_FADE_RATE_OPCODE_BYTE,
{
    Command([addr.0, SET_FADE_RATE_OPCODE_BYTE])
}

#[allow(non_snake_case)]
pub fn SET_EXTENDED_FADE_TIME(addr: AddressByte) -> (c: Command<false, true>)
    ensures
        c.0[0] == addr.0 && c.0[1] == SET_EXTENDED_FADE_TIME_OPCODE_BYTE,
{
    Command([addr.0, SET_EXTENDED_FADE_TIME_OPCODE_BYTE])
}

#[allow(non_snake_case)]
pub fn SET_SHORT_ADDRESS(addr: AddressByte) -> (c: Command<false, true>)
    ensures
        c.0[0] == addr.0 && c.0[1] == SET_SHORT_ADDRESS_OPCODE_BYTE,
{
    Command([addr.0, SET_SHORT_ADDRESS_OPCODE_BYTE])
}

#[allow(non_snake_case)]
pub fn ENABLE_WRITE_MEMORY(addr: AddressByte) -> (c: Command<false, true>)
    ensures
        c.0[0] == addr.0 && c.0[1] == ENABLE_WRITE_MEMORY_OPCODE_BYTE,
{
    Command([addr.0, ENABLE_WRITE_MEMORY_OPCODE_BYTE])
}

#[allow(non_snake_case)]
pub fn QUERY_STATUS(addr: AddressByte) -> (c: Command<true, false>)
    ensures
        c.0[0] == addr.0 && c.0[1] == QUERY_STATUS_OPCODE_BYTE,
{
    Command([addr.0, QUERY_STATUS_OPCODE_BYTE])
}

#[allow(non_snake_case)]
pub fn QUERY_CONTROL_GEAR_PRESENT(addr: AddressByte) -> (c: Command<true, false>)
    ensures
        c.0[0] == addr.0 && c.0[1] == QUERY_CONTROL_GEAR_PRESENT_OPCODE_BYTE,
{
    Command([addr.0, QUERY_CONTROL_GEAR_PRESENT_OPCODE_BYTE])
}

#[allow(non_snake_case)]
pub fn QUERY_LAMP_FAILURE(addr: AddressByte) -> (c: Command<true, false>)
    ensures
        c.0[0] == addr.0 && c.0[1] == QUERY_LAMP_FAILURE_OPCODE_BYTE,
{
    Command([addr.0, QUERY_LAMP_FAILURE_OPCODE_BYTE])
}

#[allow(non_snake_case)]
pub fn QUERY_LAMP_POWER_ON(addr: AddressByte) -> (c: Command<true, false>)
    ensures
        c.0[0] == addr.0 && c.0[1] == QUERY_LAMP_POWER_ON_OPCODE_BYTE,
{
    Command([addr.0, QUERY_LAMP_POWER_ON_OPCODE_BYTE])
}

#[allow(non_snake_case)]
pub fn QUERY_LIMIT_ERROR(addr: AddressByte) -> (c: Command<true, false>)
    ensures
        c.0[0] == addr.0 && c.0[1] == QUERY_LIMIT_ERROR_OPCODE_BYTE,
{
    Command([addr.0, QUERY_LIMIT_ERROR_OPCODE_BYTE])
}

#[allow(non_snake_case)]
pub fn QUERY_RESET_STATE(addr: AddressByte) -> (c: Command<true, false>)
    ensures
        c.0[0] == addr.0 && c.0[1] == QUERY_RESET_STATE_OPCODE_BYTE,
{
    Command([addr.0, QUERY_RESET_STATE_OPCODE_BYTE])
}

#[allow(non_snake_case)]
pub fn QUERY_MISSING_SHORT_ADDRESS(addr: AddressByte) -> (c: Command<true, false>)
    ensures
        c.0[0] == addr.0 && c.0[1] == QUERY_MISSING_SHORT_ADDRESS_OPCODE_BYTE,
{
    Command([addr.0, QUERY_MISSING_SHORT_ADDRESS_OPCODE_BYTE])
}

#[allow(non_snake_case)]
pub fn QUERY_VERSION_NUMBER(addr: AddressByte) -> (c: Command<true, false>)
    ensures
        c.0[0] == addr.0 && c.0[1] == QUERY_VERSION_NUMBER_OPCODE_BYTE,
{
    Command([addr.0, QUERY_VERSION_NUMBER_OPCODE_BYTE])
}

#[allow(non_snake_case)]
pub fn QUERY_CONTENT_DTR0(addr: AddressByte) -> (c: Command<true, false>)
    ensures
        c.0[0] == addr.0 && c.0[1] == QUERY_CONTENT_DTR0_OPCODE_BYTE,
{
    Command([addr.0, QUERY_CONTENT_DTR0_OPCODE_BYTE])
}

#[allow(non_snake_case)]
pub fn QUERY_DEVICE_TYPE(addr: AddressByte) -> (c: Command<true, false>)
    ensures
        c.0[0] == addr.0 && c.0[1] == QUERY_DEVICE_TYPE_OPCODE_BYTE,
{
    Command([addr.0, QUERY_DEVICE_TYPE_OPCODE_BYTE])
}

#[allow(non_snake_case)]
pub fn QUERY_PHYSICAL_MINIMUM(addr: AddressByte) -> (c: Command<true, false>)
    ensures
        c.0[0] == addr.0 && c.0[1] == QUERY_PHYSICAL_MINIMUM_OPCODE_BYTE,
{
    Command([addr.0, QUERY_PHYSICAL_MINIMUM_OPCODE_BYTE])
}

#[allow(non_snake_case)]
pub fn QUERY_POWER_FAILURE(addr: AddressByte) -> (c: Command<true, false>)
    ensures
        c.0[0] == addr.0 && c.0[1] == QUERY_POWER_FAILURE_OPCODE_BYTE,
{
    Command([addr.0, QUERY_POWER_FAILURE_OPCODE_BYTE])
}

#[allow(non_snake_case)]
pub fn QUERY_CONTENT_DTR1(addr: AddressByte) -> (c: Command<true, false>)
    ensures
        c.0[0] == addr.0 && c.0[1] == QUERY_CONTENT_DTR1_OPCODE_BYTE,
{
    Command([addr.0, QUERY_CONTENT_DTR1_OPCODE_BYTE])
}

#[allow(non_snake_case)]
pub fn QUERY_CONTENT_DTR2(addr: AddressByte) -> (c: Command<true, false>)
    ensures
        c.0[0] == addr.0 && c.0[1] == QUERY_CONTENT_DTR2_OPCODE_BYTE,
{
    Command([addr.0, QUERY_CONTENT_DTR2_OPCODE_BYTE])
}

#[allow(non_snake_case)]
pub fn QUERY_OPERATING_MODE(addr: AddressByte) -> (c: Command<true, false>)
    ensures
        c.0[0] == addr.0 && c.0[1] == QUERY_OPERATING_MODE_OPCODE_BYTE,
{
    Command([addr.0, QUERY_OPERATING_MODE_OPCODE_BYTE])
}

#[allow(non_snake_case)]
pub fn QUERY_LIGHT_SOURCE_TYPE(addr: AddressByte) -> (c: Command<true, false>)
    ensures
        c.0[0] == addr.0 && c.0[1] == QUERY_LIGHT_SOURCE_TYPE_OPCODE_BYTE,
{
    Command([addr.0, QUERY_LIGHT_SOURCE_TYPE_OPCODE_BYTE])
}

#[allow(non_snake_case)]
pub fn QUERY_ACTUAL_LEVEL(addr: AddressByte) -> (c: Command<true, false>)
    ensures
        c.0[0] == addr.0 && c.0[1] == QUERY_ACTUAL_LEVEL_OPCODE_BYTE,
{
    Command([addr.0, QUERY_ACTUAL_LEVEL_OPCODE_BYTE])
}

#[allow(non_snake_case)]
pub fn QUERY_MAX_LEVEL(addr: AddressByte) -> (c: Command<true, false>)
    ensures
        c.0[0] == addr.0 && c.0[1] == QUERY_MAX_LEVEL_OPCODE_BYTE,
{
    Command([addr.0, QUERY_MAX_LEVEL_OPCODE_BYTE])
}

#[allow(non_snake_case)]
pub fn QUERY_MIN_LEVEL(addr: AddressByte) -> (c: Command<true, false>)
    ensures
        c.0[0] == addr.0 && c.0[1] == QUERY_MIN_LEVEL_OPCODE_BYTE,
{
    Command([addr.0, QUERY_MIN_LEVEL_OPCODE_BYTE])
}

#[allow(non_snake_case)]
pub fn QUERY_POWER_ON_LEVEL(addr: AddressByte) -> (c: Command<true, false>)
    ensures
        c.0[0] == addr.0 && c.0[1] == QUERY_POWER_ON_LEVEL_OPCODE_BYTE,
{
    Command([addr.0, QUERY_POWER_ON_LEVEL_OPCODE_BYTE])
}

#[allow(non_snake_case)]
pub fn QUERY_SYSTEM_FAILURE_LEVEL(addr: AddressByte) -> (c: Command<true, false>)
    ensures
        c.0[0] == addr.0 && c.0[1] == QUERY_SYSTEM_FAILURE_LEVEL_OPCODE_BYTE,
{
    Command([addr.0, QUERY_SYSTEM_FAILURE_LEVEL_OPCODE_BYTE])
}

#[allow(non_snake_case)]
pub fn QUERY_FADE(addr: AddressByte) -> (c: Command<true, false>)
    ensures
        c.0[0] == addr.0 && c.0[1] == QUERY_FADE_OPCODE_BYTE,
{
    Command([addr.0, QUERY_FADE_OPCODE_BYTE])
}

#[allow(non_snake_case)]
pub fn QUERY_MANUFACTURER_SPECIFIC_MODE(addr: AddressByte) -> (c: Command<true, false>)
    ensures
        c.0[0] == addr.0 && c.0[1] == QUERY_MANUFACTURER_SPECIFIC_MODE_OPCODE_BYTE,
{
    Command([addr.0, QUERY_MANUFACTURER_SPECIFIC_MODE_OPCODE_BYTE])
}

#[allow(non_snake_case)]
pub fn QUERY_NEXT_DEVICE_TYPE(addr: AddressByte) -> (c: Command<true, false>)
    ensures
        c.0[0] == addr.0 && c.0[1] == QUERY_NEXT_DEVICE_TYPE_OPCODE_BYTE,
{
    Command([addr.0, QUERY_NEXT_DEVICE_TYPE_OPCODE_BYTE])
}

#[allow(non_snake_case)]
pub fn QUERY_EXTENDED_FADE_TIME(addr: AddressByte) -> (c: Command<true, false>)
    ensures
        c.0[0] == addr.0 && c.0[1] == QUERY_EXTENDED_FADE_TIME_OPCODE_BYTE,
{
    Command([addr.0, QUERY_EXTENDED_FADE_TIME_OPCODE_BYTE])
}

#[allow(non_snake_case)]
pub fn QUERY_CONTROL_GEAR_FAILURE(addr: AddressByte) -> (c: Command<true, false>)
    ensures
        c.0[0] == addr.0 && c.0[1] == QUERY_CONTROL_GEAR_FAILURE_OPCODE_BYTE,
{
    Command([addr.0, QUERY_CONTROL_GEAR_FAILURE_OPCODE_BYTE])
}

#[allow(non_snake_case)]
pub fn QUERY_GROUPS_0_7(addr: AddressByte) -> (c: Command<true, false>)
    ensures
        c.0[0] == addr.0 && c.0[1] == QUERY_GROUPS_0_7_OPCODE_BYTE,
{
    Command([addr.0, QUERY_GROUPS_0_7_OPCODE_BYTE])
}

#[allow(non_snake_case)]
pub fn QUERY_GROUPS_8_15(addr: AddressByte) -> (c: Command<true, false>)
    ensures
        c.0[0] == addr.0 && c.0[1] == QUERY_GROUPS_8_15_OPCODE_BYTE,
{
    Command([addr.0, QUERY_GROUPS_8_15_OPCODE_BYTE])
}

#[allow(non_snake_case)]
pub fn QUERY_RANDOM_ADDRESS_H(addr: AddressByte) -> (c: Command<true, false>)
    ensures
        c.0[0] == addr.0 && c.0[1] == QUERY_RANDOM_ADDRESS_H_OPCODE_BYTE,
{
    Command([addr.0, QUERY_RANDOM_ADDRESS_H_OPCODE_BYTE])
}

#[allow(non_snake_case)]
pub fn QUERY_RANDOM_ADDRESS_M(addr: AddressByte) -> (c: Command<true, false>)
    ensures
        c.0[0] == addr.0 && c.0[1] == QUERY_RANDOM_ADDRESS_M_OPCODE_BYTE,
{
    Command([addr.0, QUERY_RANDOM_ADDRESS_M_OPCODE_BYTE])
}

#[allow(non_snake_case)]
pub fn QUERY_RANDOM_ADDRESS_L(addr: AddressByte) -> (c: Command<true, false>)
    ensures
        c.0[0] == addr.0 && c.0[1] == QUERY_RANDOM_ADDRESS_L_OPCODE_BYTE,
{
    Command([addr.0, QUERY_RANDOM_ADDRESS_L_OPCODE_BYTE])
}

#[allow(non_snake_case)]
pub fn READ_MEMORY_LOCATION(addr: AddressByte) -> (c: Command<true, false>)
    ensures
        c.0[0] == addr.0 && c.0[1] == READ_MEMORY_LOCATION_OPCODE_BYTE,
{
    Command([addr.0, READ_MEMORY_LOCATION_OPCODE_BYTE])
}

#[allow(non_snake_case)]
pub fn QUERY_EXTENDED_VERSION_NUMBER(addr: AddressByte) -> (c: Command<true, false>)
    ensures
        c.0[0] == addr.0 && c.0[1] == QUERY_EXTENDED_VERSION_NUMBER_OPCODE_BYTE,
{
    Command([addr.0, QUERY_EXTENDED_VERSION_NUMBER_OPCODE_BYTE])
}

#[allow(non_snake_case)]
pub fn GOTO_SCENE(addr: AddressByte, offset: u8) -> (c: Command<false, false>)
    requires
        offset <= 255 - GOTO_SCENE_FIRST_OPCODE_BYTE,
    ensures
        c.0[0] == addr.0 && c.0[1] == GOTO_SCENE_FIRST_OPCODE_BYTE + offset,
{
    Command([addr.0, GOTO_SCENE_FIRST_OPCODE_BYTE + offset])
}

#[allow(non_snake_case)]
pub fn SET_SCENE(addr: AddressByte, offset: u8) -> (c: Command<false, true>)
    requires
        offset <= 255 - SET_SCENE_FIRST_OPCODE_BYTE,
    ensures
        c.0[0] == addr.0 && c.0[1] == SET_SCENE_FIRST_OPCODE_BYTE + offset,
{
    Command([addr.0, SET_SCENE_FIRST_OPCODE_BYTE + offset])
}

#[allow(non_snake_case)]
pub fn REMOVE_FROM_SCENE(addr: AddressByte, offset: u8) -> (c: Command<false, true>)
    requires
        offset <= 255 - REMOVE_FROM_SCENE_FIRST_OPCODE_BYTE,
    ensures
        c.0[0] == addr.0 && c.0[1] == REMOVE_FROM_SCENE_FIRST_OPCODE_BYTE + offset,
{
    Command([addr.0, REMOVE_FROM_SCENE_FIRST_OPCODE_BYTE + offset])
}

#[allow(non_snake_case)]
pub fn ADD_TO_GROUP(addr: AddressByte, offset: u8) -> (c: Command<false, true>)
    requires
        offset <= 255 - ADD_TO_GROUP_FIRST_OPCODE_BYTE,
    ensures
        c.0[0] == addr.0 && c.0[1] == ADD_TO_GROUP_FIRST_OPCODE_BYTE + offset,
{
    Command([addr.0, ADD_TO_GROUP_FIRST_OPCODE_BYTE + offset])
}

#[allow(non_snake_case)]
pub fn REMOVE_FROM_GROUP(addr: AddressByte, offset: u8) -> (c: Command<false, true>)
    requires
        offset <= 255 - REMOVE_FROM_GROUP_FIRST_OPCODE_BYTE,
    ensures
        c.0[0] == addr.0 && c.0[1] == REMOVE_FROM_GROUP_FIRST_OPCODE_BYTE + offset,
{
    Command([addr.0, REMOVE_FROM_GROUP_FIRST_OPCODE_BYTE + offset])
}

#[allow(non_snake_case)]
pub fn QUERY_SCENE_LEVEL(addr: AddressByte, offset: u8) -> (c: Command<true, false>)
    requires
        offset <= 255 - QUERY_SCENE_LEVEL_FIRST_OPCODE_BYTE,
    ensures
        c.0[0] == addr.0 && c.0[1] == QUERY_SCENE_LEVEL_FIRST_OPCODE_BYTE + offset,
{
    Command([addr.0, QUERY_SCENE_LEVEL_FIRST_OPCODE_BYTE + offset])
}

#[allow(non_snake_case)]
pub fn TERMINATE() -> (c: Command<false, false>)
    ensures
        c.0[0] == 0xa1 && c.0[1] == 0x00,
{
    Command([0xa1, 0x00])
}

#[allow(non_snake_case)]
pub fn INITIALISE_ALL() -> (c: Command<false, true>)
    ensures
        c.0[0] == 0xa5 && c.0[1] == 0x00,
{
    Command([0xa5, 0x00])
}

#[allow(non_snake_case)]
pub fn INITIALISE_NO_ADDR() -> (c: Command<false, true>)
    ensures
        c.0[0] == 0xa5 && c.0[1] == 0xff,
{
    Command([0xa5, 0xff])
}

#[allow(non_snake_case)]
pub fn RANDOMISE() -> (c: Command<false, true>)
    ensures
        c.0[0] == 0xa7 && c.0[1] == 0x00,
{
    Command([0xa7, 0x00])
}

#[allow(non_snake_case)]
pub fn COMPARE() -> (c: Command<true, false>)
    ensures
        c.0[0] == 0xa9 && c.0[1] == 0x00,
{
    Command([0xa9, 0x00])
}

#[allow(non_snake_case)]
pub fn WITHDRAW() -> (c: Command<false, false>)
    ensures
        c.0[0] == 0xab && c.0[1] == 0x00,
{
    Command([0xab, 0x00])
}

#[allow(non_snake_case)]
pub fn PING() -> (c: Command<false, false>)
    ensures
        c.0[0] == 0xad && c.0[1] == 0x00,
{
    Command([0xad, 0x00])
}

#[allow(non_snake_case)]
pub fn QUERY_SHORT_ADDRESS() -> (c: Command<true, false>)
    ensures
        c.0[0] == 0xbb && c.0[1] == 0x00,
{
    Command([0xbb, 0x00])
}

#[allow(non_snake_case)]
pub fn SEARCHADDRH(data: u8) -> (c: Command<false, false>)
    ensures
        c.0[0] == 0xb1 && c.0[1] == data,
{
    Command([0xb1, data])
}

#[allow(non_snake_case)]
pub fn SEARCHADDRM(data: u8) -> (c: Command<false, false>)
    ensures
        c.0[0] == 0xb3 && c.0[1] == data,
{
    Command([0xb3, data])
}

#[allow(non_snake_case)]
pub fn SEARCHADDRL(data: u8) -> (c: Command<false, false>)
    ensures
        c.0[0] == 0xb5 && c.0[1] == data,
{
    Command([0xb5, data])
}

#[allow(non_snake_case)]
pub fn ENABLE_DEVICE_TYPE(data: u8) -> (c: Command<false, false>)
    ensures
        c.0[0] == 0xc1 && c.0[1] == data,
{
    Command([0xc1, data])
}

#[allow(non_snake_case)]
pub fn DTR0(data: u8) -> (c: Command<false, false>)
    ensures
        c.0[0] == 0xa3 && c.0[1] == data,
{
    Command([0xa3, data])
}

#[allow(non_snake_case)]
pub fn DTR1(data: u8) -> (c: Command<false, false>)
    ensures
        c.0[0] == 0xc3 && c.0[1] == data,
{
    Command([0xc3, data])
}

#[allow(non_snake_case)]
pub fn DTR2(data: u8) -> (c: Command<false, false>)
    ensures
        c.0[0] == 0xc5 && c.0[1] == data,
{
    Command([0xc5, data])
}

#[allow(non_snake_case)]
pub fn WRITE_MEMORY_LOCATION(data: u8) -> (c: Command<true, false>)
    ensures
        c.0[0] == 0xc7 && c.0[1] == data,
{
    Command([0xc7, data])
}

#[allow(non_snake_case)]
pub fn WRITE_MEMORY_LOCATION_NO_REPLY(data: u8) -> (c: Command<false, false>)
    ensures
        c.0[0] == 0xc9 && c.0[1] == data,
{
    Command([0xc9, data])
}

/// Enable initialisation of the gear that `addr` selects.
#[allow(non_snake_case)]
pub fn INITIALISE_ADDR(addr: AddressByte) -> (c: Command<false, true>)
    ensures
        c.0[0] == INITIALISE_ADDRESS_BYTE && c.0[1] == addr.0,
{
    Command([INITIALISE_ADDRESS_BYTE, addr.0])
}

#[allow(non_snake_case)]
pub fn PROGRAM_SHORT_ADDRESS(addr: AddressByte) -> (c: Command<false, false>)
    ensures
        c.0[0] == PROGRAM_SHORT_ADDRESS_ADDRESS_BYTE && c.0[1] == addr.0,
{
    Command([PROGRAM_SHORT_ADDRESS_ADDRESS_BYTE, addr.0])
}

#[allow(non_snake_case)]
pub fn VERIFY_SHORT_ADDRESS(addr: AddressByte) -> (c: Command<true, false>)
    ensures
        c.0[0] == VERIFY_SHORT_ADDRESS_ADDRESS_BYTE && c.0[1] == addr.0,
{
    Command([VERIFY_SHORT_ADDRESS_ADDRESS_BYTE, addr.0])
}

} // verus!
