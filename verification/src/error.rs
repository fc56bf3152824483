use vstd::prelude::*;

verus! {

/// Why a byte stream was rejected by the decoder.
///
/// Every variant is fatal to the decode call that produced it: no partial
/// instruction sequence is ever returned alongside an error.
#[derive(Clone, Copy, Debug, PartialEq, Eq, Structural)]
pub enum Error {
    /// A byte in a register position is not one of the sixteen addresses.
    InvalidRegisterAddress(u8),
    /// An opcode with the branch pattern that is none of the five branches.
    InvalidBranchOpCode(u8),
    /// An immediate-form opcode that is none of the nine known ones.
    InvalidSrcValueOpCode(u8),
    /// A register-form opcode that is none of the nine known ones.
    InvalidOpCode(u8),
    /// The byte stream is empty or its length is not a multiple of three.
    InvalidProgram,
}

pub type Result<T> = std::result::Result<T, Error>;

} // verus!
