use vstd::prelude::*;
use vstd::string::StringExecFns;

use crate::error::Error;
use crate::registers::{
    decode_register, is_register_addr, lemma_address_decodes_to_its_register, Register,
};
use crate::text::{decimal, push_decimal};

verus! {

/// One decoded instruction.
///
/// The operands were validated when the value was decoded: the machine that
/// executes it never checks them again.
#[derive(Clone, Copy, Debug, PartialEq, Eq, Structural)]
pub enum OpCode {
    ADD(Register, Register),
    ADDV(Register, u8),
    SUB(Register, Register),
    SUBV(Register, u8),
    LSH(Register, Register),
    LSHV(Register, u8),
    RSH(Register, Register),
    RSHV(Register, u8),
    AND(Register, Register),
    ANDV(Register, u8),
    OR(Register, Register),
    ORV(Register, u8),
    XOR(Register, Register),
    XORV(Register, u8),
    CMP(Register, Register),
    CMPV(Register, u8),
    BR(u8),
    BE(u8),
    BNE(u8),
    BG(u8),
    BL(u8),
    MOV(Register, Register),
    MOVV(Register, u8),
}

/// Whether an opcode byte has the immediate bit (bit 0) set.
pub open spec fn is_src_value_byte(byte: u8) -> bool {
    byte % 2 == 1
}

/// Whether an opcode byte has both branch bits (bits 4 and 6) set.
pub open spec fn is_branching_byte(byte: u8) -> bool {
    (byte / 16) % 2 == 1 && (byte / 64) % 2 == 1
}

/// The branch that the opcode byte `ins` selects, if it selects one.
pub open spec fn branch_for(ins: u8, target: u8) -> Option<OpCode> {
    if ins == 0b0101_0000 {
        Some(OpCode::BR(target))
    } else if ins == 0b0101_0010 {
        Some(OpCode::BE(target))
    } else if ins == 0b0101_0100 {
        Some(OpCode::BNE(target))
    } else if ins == 0b0101_0110 {
        Some(OpCode::BG(target))
    } else if ins == 0b0101_1000 {
        Some(OpCode::BL(target))
    } else {
        None
    }
}

/// The register-and-immediate instruction that `ins` selects, if any.
pub open spec fn immediate_for(ins: u8, target: Register, value: u8) -> Option<OpCode> {
    if ins == 0b0001_0001 {
        Some(OpCode::ADDV(target, value))
    } else if ins == 0b0001_0011 {
        Some(OpCode::SUBV(target, value))
    } else if ins == 0b0010_0001 {
        Some(OpCode::LSHV(target, value))
    } else if ins == 0b0010_0011 {
        Some(OpCode::RSHV(target, value))
    } else if ins == 0b0011_0001 {
        Some(OpCode::ANDV(target, value))
    } else if ins == 0b0011_0011 {
        Some(OpCode::ORV(target, value))
    } else if ins == 0b0011_0101 {
        Some(OpCode::XORV(target, value))
    } else if ins == 0b0100_0001 {
        Some(OpCode::CMPV(target, value))
    } else if ins == 0b0110_0001 {
        Some(OpCode::MOVV(target, value))
    } else {
        None
    }
}

/// The register-and-register instruction that `ins` selects, if any.
pub open spec fn register_for(ins: u8, target: Register, source: Register) -> Option<OpCode> {
    if ins == 0b0001_0000 {
        Some(OpCode::ADD(target, source))
    } else if ins == 0b0001_0010 {
        Some(OpCode::SUB(target, source))
    } else if ins == 0b0010_0000 {
        Some(OpCode::LSH(target, source))
    } else if ins == 0b0010_0010 {
        Some(OpCode::RSH(target, source))
    } else if ins == 0b0011_0000 {
        Some(OpCode::AND(target, source))
    } else if ins == 0b0011_0010 {
        Some(OpCode::OR(target, source))
    } else if ins == 0b0011_0100 {
        Some(OpCode::XOR(target, source))
    } else if ins == 0b0100_0000 {
        Some(OpCode::CMP(target, source))
    } else if ins == 0b0110_0000 {
        Some(OpCode::MOV(target, source))
    } else {
        None
    }
}

/// What the three-byte record `[ins, a, b]` decodes to.
///
/// The branch pattern is tested first, then the immediate bit; whatever is
/// left is the register form. Register operands are decoded before the
/// opcode is looked up, so a bad register address is reported even where the
/// opcode is unknown as well.
pub open spec fn decode_record(ins: u8, a: u8, b: u8) -> Result<OpCode, Error> {
    if is_branching_byte(ins) {
        match branch_for(ins, a) {
            Some(op) => Ok(op),
            None => Err(Error::InvalidBranchOpCode(ins)),
        }
    } else if is_src_value_byte(ins) {
        match decode_register(a) {
            Err(e) => Err(e),
            Ok(target) => match immediate_for(ins, target, b) {
                Some(op) => Ok(op),
                None => Err(Error::InvalidSrcValueOpCode(ins)),
            },
        }
    } else {
        match decode_register(a) {
            Err(e) => Err(e),
            Ok(target) => match decode_register(b) {
                Err(e) => Err(e),
                Ok(source) => match register_for(ins, target, source) {
                    Some(op) => Ok(op),
                    None => Err(Error::InvalidOpCode(ins)),
                },
            },
        }
    }
}

/// What the records of `bytes` decode to, in order; the first record that
/// fails decides the error. Bytes after the last whole record are not read.
pub open spec fn decode_records(bytes: Seq<u8>) -> Result<Seq<OpCode>, Error>
    decreases bytes.len(),
{
    if bytes.len() < 3 {
        Ok(Seq::empty())
    } else {
        let start = (bytes.len() - bytes.len() % 3) - 3;
        match decode_records(bytes.take(start)) {
            Err(e) => Err(e),
            Ok(ops) => match decode_record(bytes[start], bytes[start + 1], bytes[start + 2]) {
                Err(e) => Err(e),
                Ok(op) => Ok(ops.push(op)),
            },
        }
    }
}

/// Whether `len` is the length of a program: positive and a multiple of three.
pub open spec fn is_program_length(len: nat) -> bool {
    len > 0 && len % 3 == 0
}

/// What a whole byte stream decodes to.
pub open spec fn decode_program(bytes: Seq<u8>) -> Result<Seq<OpCode>, Error> {
    if is_program_length(bytes.len()) {
        decode_records(bytes)
    } else {
        Err(Error::InvalidProgram)
    }
}

/// Whether the executable result `got` is what the decoder's model `want` says.
pub open spec fn decoded_as(
    got: Result<Vec<OpCode>, Error>,
    want: Result<Seq<OpCode>, Error>,
) -> bool {
    match want {
        Ok(ops) => got.is_ok() && got.unwrap()@ == ops,
        Err(e) => got.is_err() && got.unwrap_err() == e,
    }
}

/// How two register operands are written: `%T, %S`.
pub open spec fn register_operands(target: Register, source: Register) -> Seq<char> {
    "%"@ + target.name() + ", %"@ + source.name()
}

/// How a register and an immediate are written: `%T, $V`, the value in decimal.
pub open spec fn immediate_operands(target: Register, value: u8) -> Seq<char> {
    "%"@ + target.name() + ", $"@ + decimal(value as nat)
}

/// How a branch target is written: `$V`, in decimal.
pub open spec fn target_operand(target: u8) -> Seq<char> {
    "$"@ + decimal(target as nat)
}

fn push_register_operands(line: &mut String, target: Register, source: Register)
    ensures
        final(line)@ == old(line)@ + register_operands(target, source),
{
    line.append("%");
    line.append(target.as_str());
    line.append(", %");
    line.append(source.as_str());
    assert(line@ =~= old(line)@ + register_operands(target, source));
}

fn push_immediate_operands(line: &mut String, target: Register, value: u8)
    ensures
        final(line)@ == old(line)@ + immediate_operands(target, value),
{
    line.append("%");
    line.append(target.as_str());
    line.append(", $");
    push_decimal(line, value.into());
    assert(line@ =~= old(line)@ + immediate_operands(target, value));
}

fn push_target_operand(line: &mut String, target: u8)
    ensures
        final(line)@ == old(line)@ + target_operand(target),
{
    line.append("$");
    push_decimal(line, target.into());
    assert(line@ =~= old(line)@ + target_operand(target));
}

impl OpCode {
    /// The mnemonic, padded with spaces to four columns. The immediate form
    /// of an instruction is written with the mnemonic of its register form.
    pub open spec fn mnemonic(self) -> Seq<char> {
        match self {
            OpCode::ADD(..) => "ADD "@,
            OpCode::SUB(..) => "SUB "@,
            OpCode::LSH(..) => "LSH "@,
            OpCode::RSH(..) => "RSH "@,
            OpCode::AND(..) => "AND "@,
            OpCode::OR(..) => "OR  "@,
            OpCode::XOR(..) => "XOR "@,
            OpCode::CMP(..) => "CMP "@,
            OpCode::MOV(..) => "MOV "@,
            OpCode::ADDV(..) => "ADD "@,
            OpCode::SUBV(..) => "SUB "@,
            OpCode::LSHV(..) => "LSH "@,
            OpCode::RSHV(..) => "RSH "@,
            OpCode::ANDV(..) => "AND "@,
            OpCode::ORV(..) => "OR  "@,
            OpCode::XORV(..) => "XOR "@,
            OpCode::CMPV(..) => "CMP "@,
            OpCode::MOVV(..) => "MOV "@,
            OpCode::BR(..) => "BR  "@,
            OpCode::BE(..) => "BE  "@,
            OpCode::BNE(..) => "BNE "@,
            OpCode::BG(..) => "BG  "@,
            OpCode::BL(..) => "BL  "@,
        }
    }

    /// The instruction as one line of a listing, without a line break.
    pub open spec fn text(self) -> Seq<char> {
        self.mnemonic() + match self {
            OpCode::ADD(t, s) => register_operands(t, s),
            OpCode::SUB(t, s) => register_operands(t, s),
            OpCode::LSH(t, s) => register_operands(t, s),
            OpCode::RSH(t, s) => register_operands(t, s),
            OpCode::AND(t, s) => register_operands(t, s),
            OpCode::OR(t, s) => register_operands(t, s),
            OpCode::XOR(t, s) => register_operands(t, s),
            OpCode::CMP(t, s) => register_operands(t, s),
            OpCode::MOV(t, s) => register_operands(t, s),
            OpCode::ADDV(t, v) => immediate_operands(t, v),
            OpCode::SUBV(t, v) => immediate_operands(t, v),
            OpCode::LSHV(t, v) => immediate_operands(t, v),
            OpCode::RSHV(t, v) => immediate_operands(t, v),
            OpCode::ANDV(t, v) => immediate_operands(t, v),
            OpCode::ORV(t, v) => immediate_operands(t, v),
            OpCode::XORV(t, v) => immediate_operands(t, v),
            OpCode::CMPV(t, v) => immediate_operands(t, v),
            OpCode::MOVV(t, v) => immediate_operands(t, v),
            OpCode::BR(v) => target_operand(v),
            OpCode::BE(v) => target_operand(v),
            OpCode::BNE(v) => target_operand(v),
            OpCode::BG(v) => target_operand(v),
            OpCode::BL(v) => target_operand(v),
        }
    }

    fn padded_mnemonic(&self) -> (name: &'static str)
        ensures
            name@ == self.mnemonic(),
    {
        match self {
            OpCode::ADD(..) => "ADD ",
            OpCode::SUB(..) => "SUB ",
            OpCode::LSH(..) => "LSH ",
            OpCode::RSH(..) => "RSH ",
            OpCode::AND(..) => "AND ",
            OpCode::OR(..) => "OR  ",
            OpCode::XOR(..) => "XOR ",
            OpCode::CMP(..) => "CMP ",
            OpCode::MOV(..) => "MOV ",
            OpCode::ADDV(..) => "ADD ",
            OpCode::SUBV(..) => "SUB ",
            OpCode::LSHV(..) => "LSH ",
            OpCode::RSHV(..) => "RSH ",
            OpCode::ANDV(..) => "AND ",
            OpCode::ORV(..) => "OR  ",
            OpCode::XORV(..) => "XOR ",
            OpCode::CMPV(..) => "CMP ",
            OpCode::MOVV(..) => "MOV ",
            OpCode::BR(..) => "BR  ",
            OpCode::BE(..) => "BE  ",
            OpCode::BNE(..) => "BNE ",
            OpCode::BG(..) => "BG  ",
            OpCode::BL(..) => "BL  ",
        }
    }

    /// Writes the instruction as one line of a listing.
    pub fn to_string(&self) -> (line: String)
        ensures
            line@ == self.text(),
    {
        let mut line = String::new();
        line.append(self.padded_mnemonic());
        match *self {
            OpCode::ADD(t, s) => push_register_operands(&mut line, t, s),
            OpCode::SUB(t, s) => push_register_operands(&mut line, t, s),
            OpCode::LSH(t, s) => push_register_operands(&mut line, t, s),
            OpCode::RSH(t, s) => push_register_operands(&mut line, t, s),
            OpCode::AND(t, s) => push_register_operands(&mut line, t, s),
            OpCode::OR(t, s) => push_register_operands(&mut line, t, s),
            OpCode::XOR(t, s) => push_register_operands(&mut line, t, s),
            OpCode::CMP(t, s) => push_register_operands(&mut line, t, s),
            OpCode::MOV(t, s) => push_register_operands(&mut line, t, s),
            OpCode::ADDV(t, v) => push_immediate_operands(&mut line, t, v),
            OpCode::SUBV(t, v) => push_immediate_operands(&mut line, t, v),
            OpCode::LSHV(t, v) => push_immediate_operands(&mut line, t, v),
            OpCode::RSHV(t, v) => push_immediate_operands(&mut line, t, v),
            OpCode::ANDV(t, v) => push_immediate_operands(&mut line, t, v),
            OpCode::ORV(t, v) => push_immediate_operands(&mut line, t, v),
            OpCode::XORV(t, v) => push_immediate_operands(&mut line, t, v),
            OpCode::CMPV(t, v) => push_immediate_operands(&mut line, t, v),
            OpCode::MOVV(t, v) => push_immediate_operands(&mut line, t, v),
            OpCode::BR(v) => push_target_operand(&mut line, v),
            OpCode::BE(v) => push_target_operand(&mut line, v),
            OpCode::BNE(v) => push_target_operand(&mut line, v),
            OpCode::BG(v) => push_target_operand(&mut line, v),
            OpCode::BL(v) => push_target_operand(&mut line, v),
        }
        assert(line@ =~= self.text());
        line
    }

    pub fn is_src_value(byte: u8) -> (set: bool)
        ensures
            set == is_src_value_byte(byte),
    {
        assert(((byte & 0b0000_0001) == 0b0000_0001) == (byte % 2 == 1)) by (bit_vector);
        (byte & 0b0000_0001) == 0b0000_0001
    }

    pub fn is_branching(byte: u8) -> (set: bool)
        ensures
            set == is_branching_byte(byte),
    {
        assert(((byte & 0b0101_0000) == 0b0101_0000) == ((byte / 16) % 2 == 1 && (byte / 64) % 2
            == 1)) by (bit_vector);
        (byte & 0b0101_0000) == 0b0101_0000
    }

    /// Decodes a whole byte stream, all or nothing.
    pub fn process_bytes_to_instructions(bytes: &[u8]) -> (decoded: Result<Vec<OpCode>, Error>)
        ensures
            decoded_as(decoded, decode_program(bytes@)),
            !is_program_length(bytes@.len()) ==> (decoded matches Err(e) && e
                == Error::InvalidProgram),
    {
        let len: usize = bytes.len();
        if len % 3 != 0 || len == 0 {
            return Err(Error::InvalidProgram);
        }
        let mut op_codes: Vec<OpCode> = Vec::with_capacity(len / 3);
        let mut at: usize = 0;
        while at < len
            invariant
                len == bytes@.len(),
                len % 3 == 0,
                at % 3 == 0,
                at <= len,
                decode_records(bytes@.take(at as int)) == Ok::<Seq<OpCode>, Error>(op_codes@),
            decreases len - at,
        {
            let decoded = OpCode::try_from([bytes[at], bytes[at + 1], bytes[at + 2]]);
            proof {
                let longer = bytes@.take(at + 3);
                assert(longer.take(at as int) =~= bytes@.take(at as int));
                assert(longer.len() == at + 3);
                assert((at + 3) % 3 == 0);
            }
            match decoded {
                Ok(op) => {
                    op_codes.push(op);
                },
                Err(e) => {
                    proof {
                        lemma_first_failure_decides(bytes@, at as int);
                    }
                    return Err(e);
                },
            }
            at = at + 3;
        }
        assert(bytes@.take(len as int) =~= bytes@);
        Ok(op_codes)
    }
}

/// Decodes one three-byte record.
impl TryFrom<[u8; 3]> for OpCode {
    type Error = Error;

    fn try_from(record: [u8; 3]) -> (decoded: Result<OpCode, Error>)
    {
        let ins: u8 = record[0];
        let a: u8 = record[1];
        let b: u8 = record[2];
        if OpCode::is_branching(ins) {
            let target: u8 = a;
            match ins {
                0b0101_0000 => Ok(OpCode::BR(target)),
                0b0101_0010 => Ok(OpCode::BE(target)),
                0b0101_0100 => Ok(OpCode::BNE(target)),
                0b0101_0110 => Ok(OpCode::BG(target)),
                0b0101_1000 => Ok(OpCode::BL(target)),
                _ => Err(Error::InvalidBranchOpCode(ins)),
            }
        } else if OpCode::is_src_value(ins) {
            let target = match Register::try_from(a) {
                Ok(register) => register,
                Err(e) => {
                    return Err(e);
                },
            };
            let value: u8 = b;
            match ins {
                0b0001_0001 => Ok(OpCode::ADDV(target, value)),
                0b0001_0011 => Ok(OpCode::SUBV(target, value)),
                0b0010_0001 => Ok(OpCode::LSHV(target, value)),
                0b0010_0011 => Ok(OpCode::RSHV(target, value)),
                0b0011_0001 => Ok(OpCode::ANDV(target, value)),
                0b0011_0011 => Ok(OpCode::ORV(target, value)),
                0b0011_0101 => Ok(OpCode::XORV(target, value)),
                0b0100_0001 => Ok(OpCode::CMPV(target, value)),
                0b0110_0001 => Ok(OpCode::MOVV(target, value)),
                _ => Err(Error::InvalidSrcValueOpCode(ins)),
            }
        } else {
            let target = match Register::try_from(a) {
                Ok(register) => register,
                Err(e) => {
                    return Err(e);
                },
            };
            let source = match Register::try_from(b) {
                Ok(register) => register,
                Err(e) => {
                    return Err(e);
                },
            };
            match ins {
                0b0001_0000 => Ok(OpCode::ADD(target, source)),
                0b0001_0010 => Ok(OpCode::SUB(target, source)),
                0b0010_0000 => Ok(OpCode::LSH(target, source)),
                0b0010_0010 => Ok(OpCode::RSH(target, source)),
                0b0011_0000 => Ok(OpCode::AND(target, source)),
                0b0011_0010 => Ok(OpCode::OR(target, source)),
                0b0011_0100 => Ok(OpCode::XOR(target, source)),
                0b0100_0000 => Ok(OpCode::CMP(target, source)),
                0b0110_0000 => Ok(OpCode::MOV(target, source)),
                _ => Err(Error::InvalidOpCode(ins)),
            }
        }
    }
}

impl vstd::std_specs::convert::TryFromSpecImpl<[u8; 3]> for OpCode {
    open spec fn obeys_try_from_spec() -> bool {
        true
    }

    open spec fn try_from_spec(record: [u8; 3]) -> Result<OpCode, Error> {
        decode_record(record[0], record[1], record[2])
    }
}

/// Once the records before offset `at` have decoded and the record at `at`
/// has not, the whole stream fails with that record's error, whatever
/// follows it.
pub proof fn lemma_first_failure_decides(bytes: Seq<u8>, at: int)
    requires
        0 <= at,
        at % 3 == 0,
        at + 3 <= bytes.len(),
        bytes.len() % 3 == 0,
        decode_records(bytes.take(at)).is_ok(),
        decode_record(bytes[at], bytes[at + 1], bytes[at + 2]).is_err(),
    ensures
        decode_program(bytes) == Err::<Seq<OpCode>, Error>(
            decode_record(bytes[at], bytes[at + 1], bytes[at + 2]).unwrap_err(),
        ),
    decreases bytes.len(),
{
    let start = bytes.len() - 3;
    if at == start {
        assert(bytes.take(start) =~= bytes.take(at));
    } else {
        let shorter = bytes.take(start);
        assert(shorter.take(at) =~= bytes.take(at));
        lemma_first_failure_decides(shorter, at);
    }
}

/// A byte outside the sixteen register addresses, in a position that holds
/// a register, is rejected as such whatever the opcode is otherwise: in the
/// first operand of every instruction that is no branch, and in the second
/// operand of every register-form instruction.
pub proof fn lemma_bad_register_is_rejected(ins: u8, a: u8, b: u8)
    requires
        !is_branching_byte(ins),
    ensures
        !is_register_addr(a) ==> decode_record(ins, a, b) == Err::<OpCode, Error>(
            Error::InvalidRegisterAddress(a),
        ),
        !is_src_value_byte(ins) && is_register_addr(a) && !is_register_addr(b) ==> decode_record(
            ins,
            a,
            b,
        ) == Err::<OpCode, Error>(Error::InvalidRegisterAddress(b)),
{
}

/// A stream whose first bad record has a bad register address fails with
/// `InvalidRegisterAddress` of that byte.
pub proof fn lemma_bad_register_fails_program(bytes: Seq<u8>, at: int)
    requires
        0 <= at,
        at % 3 == 0,
        at + 3 <= bytes.len(),
        bytes.len() % 3 == 0,
        decode_records(bytes.take(at)).is_ok(),
        !is_branching_byte(bytes[at]),
        !is_register_addr(bytes[at + 1]) || (!is_src_value_byte(bytes[at]) && !is_register_addr(
            bytes[at + 2],
        )),
    ensures
        decode_program(bytes) == Err::<Seq<OpCode>, Error>(
            Error::InvalidRegisterAddress(
                if !is_register_addr(bytes[at + 1]) {
                    bytes[at + 1]
                } else {
                    bytes[at + 2]
                },
            ),
        ),
{
    lemma_bad_register_is_rejected(bytes[at], bytes[at + 1], bytes[at + 2]);
    lemma_first_failure_decides(bytes, at);
}

/// A stream that decodes yields one instruction for each of its records, in
/// order: instruction `k` is what the record at offset `3 * k` decodes to.
pub proof fn lemma_decoded_record_by_record(bytes: Seq<u8>, ops: Seq<OpCode>)
    requires
        bytes.len() % 3 == 0,
        decode_records(bytes) == Ok::<Seq<OpCode>, Error>(ops),
    ensures
        3 * ops.len() == bytes.len(),
        forall|k: int|
            0 <= k < ops.len() ==> decode_record(
                bytes[3 * k],
                bytes[3 * k + 1],
                bytes[3 * k + 2],
            ) == Ok::<OpCode, Error>(#[trigger] ops[k]),
    decreases bytes.len(),
{
    if bytes.len() >= 3 {
        let start = bytes.len() - 3;
        let shorter = bytes.take(start);
        let before = decode_records(shorter).unwrap();
        lemma_decoded_record_by_record(shorter, before);
        assert forall|k: int| 0 <= k < ops.len() implies decode_record(
            bytes[3 * k],
            bytes[3 * k + 1],
            bytes[3 * k + 2],
        ) == Ok::<OpCode, Error>(#[trigger] ops[k]) by {
            if k < before.len() {
                assert(ops[k] == before[k]);
                assert(shorter[3 * k] == bytes[3 * k]);
                assert(shorter[3 * k + 1] == bytes[3 * k + 1]);
                assert(shorter[3 * k + 2] == bytes[3 * k + 2]);
            }
        }
    }
}

/// The three bytes that write `op`: its opcode and its two operand bytes.
/// A branch does not use the third byte, which is written as `unused`.
pub open spec fn encoded(op: OpCode, unused: u8) -> (u8, u8, u8) {
    match op {
        OpCode::ADD(t, s) => (0b0001_0000, t.addr(), s.addr()),
        OpCode::SUB(t, s) => (0b0001_0010, t.addr(), s.addr()),
        OpCode::LSH(t, s) => (0b0010_0000, t.addr(), s.addr()),
        OpCode::RSH(t, s) => (0b0010_0010, t.addr(), s.addr()),
        OpCode::AND(t, s) => (0b0011_0000, t.addr(), s.addr()),
        OpCode::OR(t, s) => (0b0011_0010, t.addr(), s.addr()),
        OpCode::XOR(t, s) => (0b0011_0100, t.addr(), s.addr()),
        OpCode::CMP(t, s) => (0b0100_0000, t.addr(), s.addr()),
        OpCode::MOV(t, s) => (0b0110_0000, t.addr(), s.addr()),
        OpCode::ADDV(t, v) => (0b0001_0001, t.addr(), v),
        OpCode::SUBV(t, v) => (0b0001_0011, t.addr(), v),
        OpCode::LSHV(t, v) => (0b0010_0001, t.addr(), v),
        OpCode::RSHV(t, v) => (0b0010_0011, t.addr(), v),
        OpCode::ANDV(t, v) => (0b0011_0001, t.addr(), v),
        OpCode::ORV(t, v) => (0b0011_0011, t.addr(), v),
        OpCode::XORV(t, v) => (0b0011_0101, t.addr(), v),
        OpCode::CMPV(t, v) => (0b0100_0001, t.addr(), v),
        OpCode::MOVV(t, v) => (0b0110_0001, t.addr(), v),
        OpCode::BR(to) => (0b0101_0000, to, unused),
        OpCode::BE(to) => (0b0101_0010, to, unused),
        OpCode::BNE(to) => (0b0101_0100, to, unused),
        OpCode::BG(to) => (0b0101_0110, to, unused),
        OpCode::BL(to) => (0b0101_1000, to, unused),
    }
}

/// Decoding undoes encoding: every instruction is what its own three bytes
/// decode to, and a branch is so whatever its third byte holds.
pub proof fn lemma_decode_undoes_encode(op: OpCode, unused: u8)
    ensures
        ({
            let (ins, a, b) = encoded(op, unused);
            decode_record(ins, a, b) == Ok::<OpCode, Error>(op)
        }),
{
    match op {
        OpCode::BR(_) | OpCode::BE(_) | OpCode::BNE(_) | OpCode::BG(_) | OpCode::BL(_) => {},
        OpCode::ADDV(t, _)
        | OpCode::SUBV(t, _)
        | OpCode::LSHV(t, _)
        | OpCode::RSHV(t, _)
        | OpCode::ANDV(t, _)
        | OpCode::ORV(t, _)
        | OpCode::XORV(t, _)
        | OpCode::CMPV(t, _)
        | OpCode::MOVV(t, _) => {
            lemma_address_decodes_to_its_register(t);
        },
        OpCode::ADD(t, s)
        | OpCode::SUB(t, s)
        | OpCode::LSH(t, s)
        | OpCode::RSH(t, s)
        | OpCode::AND(t, s)
        | OpCode::OR(t, s)
        | OpCode::XOR(t, s)
        | OpCode::CMP(t, s)
        | OpCode::MOV(t, s) => {
            lemma_address_decodes_to_its_register(t);
            lemma_address_decodes_to_its_register(s);
        },
    }
}

} // verus!
