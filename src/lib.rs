//! Control protocol for the Idasen standing desk over Bluetooth Low Energy.
//!
//! The library holds the protocol's logic: the height codec, the command
//! vocabulary, the choice of the desk among scanned peripherals, the binding
//! of its two characteristics, and the requests a session issues. Talking to
//! the radio is left to the caller, which performs the requests and hands the
//! answers back.
pub mod command;
pub mod discovery;
pub mod error;
pub mod gatt;
pub mod height;
pub mod session;

pub use command::{Command, DOWN, STOP, UP};
pub use discovery::{
    advance, advertises_desk, bind_characteristics, contains_desk, select_desk, DiscoveryEvent,
    DiscoveryStep,
};
pub use error::DeskError;
pub use gatt::{find_characteristic, Uuid, CONTROL_UUID, POSITION_UUID, STATUS_UUID};
pub use height::{
    decode_height, raw_height, DecodeError, StatusPayload, MAX_HEIGHT_TENTH_MM, MAX_RAW_HEIGHT,
    MIN_HEIGHT_TENTH_MM,
};
pub use session::{DeskSession, Request};
