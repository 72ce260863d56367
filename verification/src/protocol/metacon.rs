//! The Metacon register-read frames: the same request, response and checksum layout as Metakon.

pub use crate::protocol::metakon::{
    calculate_crc, ReadRegisterRequest, ReadRegisterResponse, ReadResponseError, RegisterValue,
};
