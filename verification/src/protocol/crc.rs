//! Checksums used by the instrument protocols.
use vstd::prelude::*;

verus! {

/// One bit step of the reflected CRC-16/MODBUS register.
pub open spec fn crc16_bit_step(crc: u16) -> u16 {
    if crc & 1 != 0 {
        ((crc >> 1u16) ^ 0xA001u16) as u16
    } else {
        (crc >> 1u16) as u16
    }
}

/// `steps` bit steps of the CRC-16/MODBUS register.
pub open spec fn crc16_bit_steps(crc: u16, steps: nat) -> u16
    decreases steps,
{
    if steps == 0 {
        crc
    } else {
        crc16_bit_step(crc16_bit_steps(crc, (steps - 1) as nat))
    }
}

/// The register after absorbing one byte.
pub open spec fn crc16_absorb(crc: u16, byte: u8) -> u16 {
    crc16_bit_steps((crc ^ (byte as u16)) as u16, 8)
}

/// CRC-16/MODBUS of a byte sequence: start at 0xFFFF and absorb the bytes in order.
pub open spec fn crc16(bytes: Seq<u8>) -> u16
    decreases bytes.len(),
{
    if bytes.len() == 0 {
        0xFFFFu16
    } else {
        crc16_absorb(crc16(bytes.drop_last()), bytes.last())
    }
}

/// CRC-16/MODBUS. The result is written to a virtual-instrument frame in little-endian order.
pub fn calculate_crc16(bytes: &[u8]) -> (crc: u16)
    ensures
        crc == crc16(bytes@),
{
    let mut crc: u16 = 0xFFFF;
    let mut index: usize = 0;
    while index < bytes.len()
        invariant
            index <= bytes.len(),
            crc == crc16(bytes@.take(index as int)),
        decreases bytes.len() - index,
    {
        let byte = bytes[index];
        let start: u16 = crc ^ (byte as u16);
        crc = start;
        let mut bit: usize = 0;
        while bit < 8
            invariant
                bit <= 8,
                crc == crc16_bit_steps(start, bit as nat),
            decreases 8 - bit,
        {
            if crc & 1 != 0 {
                crc = (crc >> 1u16) ^ 0xA001u16;
            } else {
                crc = crc >> 1u16;
            }
            bit += 1;
        }
        proof {
            assert(bytes@.take(index + 1).drop_last() =~= bytes@.take(index as int));
        }
        index += 1;
    }
    proof {
        assert(bytes@.take(bytes.len() as int) =~= bytes@);
    }
    crc
}

/// One bit step of the Metakon checksum register; `data_bit` is the current data bit.
pub open spec fn metakon_bit_step(crc: u8, data_bit: u8) -> u8 {
    let feedback = (data_bit ^ crc) & 1u8;
    let mixed = if feedback != 0 { (crc ^ 0x18u8) as u8 } else { crc };
    ((mixed >> 1u8) | ((feedback << 7u8) as u8)) as u8
}

/// `steps` bit steps of the Metakon register while shifting `data` right.
pub open spec fn metakon_bit_steps(crc: u8, data: u8, steps: nat) -> u8
    decreases steps,
{
    if steps == 0 {
        crc
    } else {
        metakon_bit_steps(metakon_bit_step(crc, data), (data >> 1u8) as u8, (steps - 1) as nat)
    }
}

/// The Metakon one-byte checksum of a byte sequence: start at 0xFF, absorb each byte
/// least significant bit first.
pub open spec fn metakon_crc(bytes: Seq<u8>) -> u8
    decreases bytes.len(),
{
    if bytes.len() == 0 {
        0xFFu8
    } else {
        metakon_bit_steps(metakon_crc(bytes.drop_last()), bytes.last(), 8)
    }
}


} // verus!
