//! Host-side protocol engine for FTDI USB-to-serial bridge chips.
#![allow(non_camel_case_types)]

pub mod constants;
pub mod baudrate;
pub mod error;
pub mod eeprom;
pub mod context;
pub mod open_sequence;
pub mod device_list;
pub mod description;
pub mod transfer;
pub mod version_info;
pub mod descriptor_text;

