use vstd::prelude::*;

use crate::error::Error;
use crate::text::{binary_nibbles, hex_pair, push_digit};
use vstd::string::StringExecFns;

verus! {

/// One of the sixteen 8-bit slots of the machine.
#[derive(Clone, Copy, Debug, PartialEq, Eq, Structural)]
pub enum Register {
    R0,
    R1,
    R2,
    R3,
    R4,
    R5,
    R6,
    R7,
    BA,
    BB,
    D0,
    D1,
    D2,
    D3,
    PC,
    CR,
}

/// Whether `byte` is the address of a register.
pub open spec fn is_register_addr(byte: u8) -> bool {
    byte <= 0x07 || (0x10 <= byte && byte <= 0x17)
}

/// The register that lives at `byte`; meaningful where `is_register_addr(byte)`.
pub open spec fn register_at(byte: u8) -> Register {
    if byte == 0x00 {
        Register::R0
    } else if byte == 0x01 {
        Register::R1
    } else if byte == 0x02 {
        Register::R2
    } else if byte == 0x03 {
        Register::R3
    } else if byte == 0x04 {
        Register::R4
    } else if byte == 0x05 {
        Register::R5
    } else if byte == 0x06 {
        Register::R6
    } else if byte == 0x07 {
        Register::R7
    } else if byte == 0x10 {
        Register::BA
    } else if byte == 0x11 {
        Register::BB
    } else if byte == 0x12 {
        Register::D0
    } else if byte == 0x13 {
        Register::D1
    } else if byte == 0x14 {
        Register::D2
    } else if byte == 0x15 {
        Register::D3
    } else if byte == 0x16 {
        Register::PC
    } else {
        Register::CR
    }
}

/// What a byte in a register position decodes to.
pub open spec fn decode_register(byte: u8) -> Result<Register, Error> {
    if is_register_addr(byte) {
        Ok(register_at(byte))
    } else {
        Err(Error::InvalidRegisterAddress(byte))
    }
}

impl Register {
    /// The one-byte address of this register.
    pub open spec fn addr(self) -> u8 {
        match self {
            Register::R0 => 0x00,
            Register::R1 => 0x01,
            Register::R2 => 0x02,
            Register::R3 => 0x03,
            Register::R4 => 0x04,
            Register::R5 => 0x05,
            Register::R6 => 0x06,
            Register::R7 => 0x07,
            Register::BA => 0x10,
            Register::BB => 0x11,
            Register::D0 => 0x12,
            Register::D1 => 0x13,
            Register::D2 => 0x14,
            Register::D3 => 0x15,
            Register::PC => 0x16,
            Register::CR => 0x17,
        }
    }

    pub fn get_addr(&self) -> (addr: u8)
        ensures
            addr == self.addr(),
            is_register_addr(addr),
            register_at(addr) == *self,
    {
        match self {
            Register::R0 => 0x00,
            Register::R1 => 0x01,
            Register::R2 => 0x02,
            Register::R3 => 0x03,
            Register::R4 => 0x04,
            Register::R5 => 0x05,
            Register::R6 => 0x06,
            Register::R7 => 0x07,
            Register::BA => 0x10,
            Register::BB => 0x11,
            Register::D0 => 0x12,
            Register::D1 => 0x13,
            Register::D2 => 0x14,
            Register::D3 => 0x15,
            Register::PC => 0x16,
            Register::CR => 0x17,
        }
    }

    /// Exact-match lookup of a register by its address: there is no fallback.
    pub fn from_repr(value: u8) -> (found: Option<Register>)
        ensures
            found.is_some() <==> is_register_addr(value),
            found.is_some() ==> found.unwrap() == register_at(value),
            found.is_some() ==> found.unwrap().addr() == value,
    {
        match value {
            0x00 => Some(Register::R0),
            0x01 => Some(Register::R1),
            0x02 => Some(Register::R2),
            0x03 => Some(Register::R3),
            0x04 => Some(Register::R4),
            0x05 => Some(Register::R5),
            0x06 => Some(Register::R6),
            0x07 => Some(Register::R7),
            0x10 => Some(Register::BA),
            0x11 => Some(Register::BB),
            0x12 => Some(Register::D0),
            0x13 => Some(Register::D1),
            0x14 => Some(Register::D2),
            0x15 => Some(Register::D3),
            0x16 => Some(Register::PC),
            0x17 => Some(Register::CR),
            _ => None,
        }
    }

    /// The register's name as it is written in a listing.
    pub open spec fn name(self) -> Seq<char> {
        match self {
            Register::R0 => "R0"@,
            Register::R1 => "R1"@,
            Register::R2 => "R2"@,
            Register::R3 => "R3"@,
            Register::R4 => "R4"@,
            Register::R5 => "R5"@,
            Register::R6 => "R6"@,
            Register::R7 => "R7"@,
            Register::BA => "BA"@,
            Register::BB => "BB"@,
            Register::D0 => "D0"@,
            Register::D1 => "D1"@,
            Register::D2 => "D2"@,
            Register::D3 => "D3"@,
            Register::PC => "PC"@,
            Register::CR => "CR"@,
        }
    }

    pub fn as_str(&self) -> (name: &'static str)
        ensures
            name@ == self.name(),
    {
        match self {
            Register::R0 => "R0",
            Register::R1 => "R1",
            Register::R2 => "R2",
            Register::R3 => "R3",
            Register::R4 => "R4",
            Register::R5 => "R5",
            Register::R6 => "R6",
            Register::R7 => "R7",
            Register::BA => "BA",
            Register::BB => "BB",
            Register::D0 => "D0",
            Register::D1 => "D1",
            Register::D2 => "D2",
            Register::D3 => "D3",
            Register::PC => "PC",
            Register::CR => "CR",
        }
    }

    /// The address in binary: eight digits in two groups of four.
    pub fn get_addr_as_bin_str(&self) -> (text: String)
        ensures
            text@ == binary_nibbles(self.addr()),
    {
        let byte: u8 = self.get_addr();
        let mut text = String::new();
        push_digit(&mut text, (byte / 128) % 2);
        push_digit(&mut text, (byte / 64) % 2);
        push_digit(&mut text, (byte / 32) % 2);
        push_digit(&mut text, (byte / 16) % 2);
        text.append(" ");
        proof {
            reveal_strlit(" ");
        }
        push_digit(&mut text, (byte / 8) % 2);
        push_digit(&mut text, (byte / 4) % 2);
        push_digit(&mut text, (byte / 2) % 2);
        push_digit(&mut text, byte % 2);
        assert(text@ =~= binary_nibbles(self.addr()));
        text
    }

    /// The address as two upper-case hexadecimal digits.
    pub fn get_addr_as_hex_str(&self) -> (text: String)
        ensures
            text@ == hex_pair(self.addr()),
    {
        let byte: u8 = self.get_addr();
        let mut text = String::new();
        push_digit(&mut text, byte / 16);
        push_digit(&mut text, byte % 16);
        assert(text@ =~= hex_pair(self.addr()));
        text
    }
}

/// Decodes a byte in a register position; any byte that is not one of the
/// sixteen addresses is rejected, and the error carries that byte.
impl TryFrom<u8> for Register {
    type Error = Error;

    fn try_from(value: u8) -> (decoded: Result<Register, Error>) {
        match Register::from_repr(value) {
            Some(register) => Ok(register),
            None => Err(Error::InvalidRegisterAddress(value)),
        }
    }
}

impl vstd::std_specs::convert::TryFromSpecImpl<u8> for Register {
    open spec fn obeys_try_from_spec() -> bool {
        true
    }

    open spec fn try_from_spec(value: u8) -> Result<Register, Error> {
        decode_register(value)
    }
}

/// Decoding undoes encoding: every register is what its own address
/// decodes to.
pub proof fn lemma_address_decodes_to_its_register(register: Register)
    ensures
        is_register_addr(register.addr()),
        decode_register(register.addr()) == Ok::<Register, Error>(register),
{
}

/// Encoding undoes decoding: a byte that decodes is the address of the
/// register it decodes to.
pub proof fn lemma_decoded_register_has_that_address(byte: u8)
    requires
        is_register_addr(byte),
    ensures
        register_at(byte).addr() == byte,
{
}

} // verus!
