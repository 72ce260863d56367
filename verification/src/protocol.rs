//! Wire protocols for supported physical and virtual instruments.

pub mod crc;
pub mod metacon;
pub mod metakon;
pub mod virtual_instrument;
