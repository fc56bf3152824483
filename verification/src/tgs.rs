use vstd::prelude::*;

use crate::op_code::OpCode;
use crate::program::{fetch, Program};
use crate::registers::Register;

verus! {

/// `n` reduced modulo 256: what an 8-bit register keeps of a result.
pub open spec fn wrapped(n: int) -> u8 {
    (n % 256) as u8
}

/// The value of the byte `v` read as a signed 8-bit number.
pub open spec fn as_signed(v: u8) -> int {
    if v < 128 {
        v as int
    } else {
        v as int - 256
    }
}

/// Two to the power `k`, for the shift amounts that are used: 0 to 7.
pub open spec fn two_to(k: int) -> int {
    if k == 0 {
        1
    } else if k == 1 {
        2
    } else if k == 2 {
        4
    } else if k == 3 {
        8
    } else if k == 4 {
        16
    } else if k == 5 {
        32
    } else if k == 6 {
        64
    } else {
        128
    }
}

/// `v` shifted left. Only the low three bits of `amount` count: the shift
/// is by `amount` modulo 8, and bits shifted out at the top are lost.
pub open spec fn shifted_left(v: u8, amount: u8) -> u8 {
    wrapped(v * two_to(amount as int % 8))
}

/// `v` shifted right by `amount` modulo 8, zeros coming in at the top.
pub open spec fn shifted_right(v: u8, amount: u8) -> u8 {
    (v as int / two_to(amount as int % 8)) as u8
}

/// The register that `op` writes and the value it writes there, given the
/// register file `regs` before the instruction. A branch writes none.
pub open spec fn written(regs: Map<Register, u8>, op: OpCode) -> Option<(Register, u8)> {
    match op {
        OpCode::ADD(t, s) => Some((t, wrapped(regs[t] + regs[s]))),
        OpCode::ADDV(t, v) => Some((t, wrapped(regs[t] + v))),
        OpCode::SUB(t, s) => Some((t, wrapped(regs[t] - regs[s]))),
        OpCode::SUBV(t, v) => Some((t, wrapped(regs[t] - v))),
        OpCode::LSH(t, s) => Some((t, shifted_left(regs[t], regs[s]))),
        OpCode::LSHV(t, v) => Some((t, shifted_left(regs[t], v))),
        OpCode::RSH(t, s) => Some((t, shifted_right(regs[t], regs[s]))),
        OpCode::RSHV(t, v) => Some((t, shifted_right(regs[t], v))),
        OpCode::AND(t, s) => Some((t, regs[t] & regs[s])),
        OpCode::ANDV(t, v) => Some((t, regs[t] & v)),
        OpCode::OR(t, s) => Some((t, regs[t] | regs[s])),
        OpCode::ORV(t, v) => Some((t, regs[t] | v)),
        OpCode::XOR(t, s) => Some((t, regs[t] ^ regs[s])),
        OpCode::XORV(t, v) => Some((t, regs[t] ^ v)),
        OpCode::CMP(t, s) => Some((Register::CR, wrapped(regs[t] - regs[s]))),
        OpCode::CMPV(t, v) => Some((Register::CR, wrapped(regs[t] - v))),
        OpCode::MOV(t, s) => Some((t, regs[s])),
        OpCode::MOVV(t, v) => Some((t, v)),
        OpCode::BR(_) | OpCode::BE(_) | OpCode::BNE(_) | OpCode::BG(_) | OpCode::BL(_) => None,
    }
}

/// Where `op` jumps to, if it is a branch that is taken in `regs`. The
/// conditional branches test the comparison result read as a signed number.
pub open spec fn jump(regs: Map<Register, u8>, op: OpCode) -> Option<u8> {
    let flag = as_signed(regs[Register::CR]);
    match op {
        OpCode::BR(target) => Some(target),
        OpCode::BE(target) => if flag == 0 {
            Some(target)
        } else {
            None
        },
        OpCode::BNE(target) => if flag != 0 {
            Some(target)
        } else {
            None
        },
        OpCode::BG(target) => if flag > 0 {
            Some(target)
        } else {
            None
        },
        OpCode::BL(target) => if flag < 0 {
            Some(target)
        } else {
            None
        },
        _ => None,
    }
}

/// `regs` with the program counter moved to the next instruction; after 255
/// comes 0.
pub open spec fn advanced(regs: Map<Register, u8>) -> Map<Register, u8> {
    regs.insert(Register::PC, wrapped(regs[Register::PC] + 1))
}

/// The register file after `op` has run in `regs`.
///
/// A taken branch sets the program counter to its target and nothing else.
/// Every other instruction makes its write, if it has one, and then moves
/// the program counter on by one: so an instruction that writes the program
/// counter leaves it one past what it wrote.
pub open spec fn executed(regs: Map<Register, u8>, op: OpCode) -> Map<Register, u8> {
    match jump(regs, op) {
        Some(target) => regs.insert(Register::PC, target),
        None => match written(regs, op) {
            Some((register, value)) => advanced(regs.insert(register, value)),
            None => advanced(regs),
        },
    }
}

/// The signed 8-bit difference of two bytes, each read as a signed number:
/// what a comparison of them leaves as its result, read as a signed number.
pub open spec fn signed_difference(a: u8, b: u8) -> int {
    as_signed(wrapped(as_signed(a) - as_signed(b)))
}

/// Arithmetic with an immediate wraps around: with `a` in a register other
/// than the program counter, adding or subtracting `b` leaves the sum or the
/// difference modulo 256 there, and the bitwise instructions leave the
/// bitwise result. (The program counter is left out because every one of
/// these instructions moves it on by one after its write.)
pub proof fn lemma_immediate_arithmetic_wraps(
    regs: Map<Register, u8>,
    register: Register,
    a: u8,
    b: u8,
)
    requires
        register != Register::PC,
    ensures
        executed(regs.insert(register, a), OpCode::ADDV(register, b))[register] == (a + b) % 256,
        executed(regs.insert(register, a), OpCode::SUBV(register, b))[register] == (a - b) % 256,
        executed(regs.insert(register, a), OpCode::ANDV(register, b))[register] == a & b,
        executed(regs.insert(register, a), OpCode::ORV(register, b))[register] == a | b,
        executed(regs.insert(register, a), OpCode::XORV(register, b))[register] == a ^ b,
{
}

/// The same for the register forms: with `a` in `target` and `b` in another
/// register `source`, the instruction leaves in `target` what its immediate
/// form would, and `source` keeps `b` unless it is the program counter.
pub proof fn lemma_register_arithmetic_wraps(
    regs: Map<Register, u8>,
    target: Register,
    source: Register,
    a: u8,
    b: u8,
)
    requires
        target != Register::PC,
        target != source,
    ensures
        ({
            let before = regs.insert(target, a).insert(source, b);
            &&& executed(before, OpCode::ADD(target, source))[target] == (a + b) % 256
            &&& executed(before, OpCode::SUB(target, source))[target] == (a - b) % 256
            &&& executed(before, OpCode::AND(target, source))[target] == a & b
            &&& executed(before, OpCode::OR(target, source))[target] == a | b
            &&& executed(before, OpCode::XOR(target, source))[target] == a ^ b
            &&& source != Register::PC ==> executed(before, OpCode::ADD(target, source))[source]
                == b
        }),
{
}

/// A comparison stores the difference of the two bytes modulo 256. Read as
/// a signed number, that is their signed 8-bit difference, and it is zero
/// exactly where the bytes are equal.
pub proof fn lemma_stored_difference_is_signed_difference(a: u8, b: u8)
    ensures
        as_signed(wrapped(a - b)) == signed_difference(a, b),
        signed_difference(a, b) == 0 <==> a == b,
        a == b <==> as_signed(a) == as_signed(b),
{
    let plain = a - b;
    let signed = as_signed(a) - as_signed(b);
    assert(plain % 256 == if plain >= 0 {
        plain
    } else {
        plain + 256
    });
    assert(signed == plain || signed == plain + 256 || signed == plain - 256);
    assert(signed % 256 == if signed >= 256 {
        signed - 256
    } else if signed >= 0 {
        signed
    } else {
        signed + 256
    });
    assert(wrapped(plain) == wrapped(signed));
}

/// After a comparison of two registers, a conditional branch is taken
/// according to the two values read as signed 8-bit numbers: on equality
/// for `BE`, on inequality for `BNE`, and for `BG` and `BL` on the sign of
/// their signed 8-bit difference.
pub proof fn lemma_compare_decides_branch(
    regs: Map<Register, u8>,
    target: Register,
    source: Register,
    to: u8,
)
    ensures
        ({
            let a = regs[target];
            let b = regs[source];
            let after = executed(regs, OpCode::CMP(target, source));
            &&& as_signed(after[Register::CR]) == signed_difference(a, b)
            &&& jump(after, OpCode::BE(to)) is Some <==> as_signed(a) == as_signed(b)
            &&& jump(after, OpCode::BNE(to)) is Some <==> as_signed(a) != as_signed(b)
            &&& jump(after, OpCode::BG(to)) is Some <==> signed_difference(a, b) > 0
            &&& jump(after, OpCode::BL(to)) is Some <==> signed_difference(a, b) < 0
        }),
{
    lemma_stored_difference_is_signed_difference(regs[target], regs[source]);
    let after = executed(regs, OpCode::CMP(target, source));
    assert(after[Register::CR] == wrapped(regs[target] - regs[source]));
}

/// The same after a comparison of a register with an immediate.
pub proof fn lemma_compare_with_value_decides_branch(
    regs: Map<Register, u8>,
    target: Register,
    value: u8,
    to: u8,
)
    ensures
        ({
            let a = regs[target];
            let after = executed(regs, OpCode::CMPV(target, value));
            &&& as_signed(after[Register::CR]) == signed_difference(a, value)
            &&& jump(after, OpCode::BE(to)) is Some <==> as_signed(a) == as_signed(value)
            &&& jump(after, OpCode::BNE(to)) is Some <==> as_signed(a) != as_signed(value)
            &&& jump(after, OpCode::BG(to)) is Some <==> signed_difference(a, value) > 0
            &&& jump(after, OpCode::BL(to)) is Some <==> signed_difference(a, value) < 0
        }),
{
    lemma_stored_difference_is_signed_difference(regs[target], value);
    let after = executed(regs, OpCode::CMPV(target, value));
    assert(after[Register::CR] == wrapped(regs[target] - value));
}

/// What a branch does to the program counter. Taken, it sets the counter to
/// its target and does not move it on; not taken, it moves the counter on by
/// exactly one, from 255 to 0. Either way no other register changes.
pub proof fn lemma_branch_moves_only_the_counter(regs: Map<Register, u8>, op: OpCode)
    requires
        op is BR || op is BE || op is BNE || op is BG || op is BL,
    ensures
        op is BR ==> jump(regs, op) is Some,
        jump(regs, op) matches Some(to) ==> executed(regs, op) == regs.insert(Register::PC, to),
        jump(regs, op) is None ==> executed(regs, op) == regs.insert(
            Register::PC,
            if regs[Register::PC] == 255 {
                0u8
            } else {
                (regs[Register::PC] + 1) as u8
            },
        ),
        forall|register: Register|
            register != Register::PC ==> #[trigger] executed(regs, op)[register] == regs[register],
{
}

/// An instruction that is no branch is never a jump: after its write the
/// program counter moves on by one.
pub proof fn lemma_only_branches_jump(regs: Map<Register, u8>, op: OpCode)
    requires
        !(op is BR || op is BE || op is BNE || op is BG || op is BL),
    ensures
        jump(regs, op) is None,
        written(regs, op) matches Some((register, value)) && executed(regs, op) == advanced(
            regs.insert(register, value),
        ),
{
}

/// The machine: sixteen 8-bit registers, all zero at the start.
#[derive(Debug)]
pub struct Tgs {
    /// R0 to R7.
    r: [u8; 8],
    /// BA and BB.
    b: [u8; 2],
    /// D0 to D3.
    d: [u8; 4],
    /// The program counter.
    pc: u8,
    /// The result of the last comparison.
    cr: u8,
}

impl View for Tgs {
    type V = Map<Register, u8>;

    /// The register file: what each of the sixteen registers holds.
    closed spec fn view(&self) -> Map<Register, u8> {
        Map::total(|register: Register| self.slot(register))
    }
}

impl Tgs {
    spec fn slot(&self, register: Register) -> u8 {
        match register {
            Register::R0 => self.r[0],
            Register::R1 => self.r[1],
            Register::R2 => self.r[2],
            Register::R3 => self.r[3],
            Register::R4 => self.r[4],
            Register::R5 => self.r[5],
            Register::R6 => self.r[6],
            Register::R7 => self.r[7],
            Register::BA => self.b[0],
            Register::BB => self.b[1],
            Register::D0 => self.d[0],
            Register::D1 => self.d[1],
            Register::D2 => self.d[2],
            Register::D3 => self.d[3],
            Register::PC => self.pc,
            Register::CR => self.cr,
        }
    }

    /// Every register is part of the register file.
    pub proof fn lemma_view_is_total(&self)
        ensures
            self@.dom() == Set::<Register>::full(),
    {
        assert(self@.dom() =~= Set::<Register>::full());
    }

    pub fn new() -> (machine: Tgs)
        ensures
            machine@ == Map::total(|register: Register| 0u8),
    {
        let machine = Tgs { r: [0; 8], b: [0; 2], d: [0; 4], pc: 0, cr: 0 };
        assert(machine@ =~= Map::total(|register: Register| 0u8));
        machine
    }

    /// The four output registers, D0 first.
    pub fn tgs_display(&self) -> (leds: [u8; 4])
        ensures
            leds@ == seq![
                self@[Register::D0],
                self@[Register::D1],
                self@[Register::D2],
                self@[Register::D3],
            ],
    {
        assert(self.d@ =~= seq![self.d[0], self.d[1], self.d[2], self.d[3]]);
        self.d
    }

    pub fn register(&self, register: Register) -> (value: u8)
        ensures
            value == self@[register],
    {
        *self.register_ref(register)
    }

    pub fn register_ref(&self, register: Register) -> (value: &u8)
        ensures
            *value == self@[register],
    {
        match register {
            Register::R0 => &self.r[0],
            Register::R1 => &self.r[1],
            Register::R2 => &self.r[2],
            Register::R3 => &self.r[3],
            Register::R4 => &self.r[4],
            Register::R5 => &self.r[5],
            Register::R6 => &self.r[6],
            Register::R7 => &self.r[7],
            Register::BA => &self.b[0],
            Register::BB => &self.b[1],
            Register::D0 => &self.d[0],
            Register::D1 => &self.d[1],
            Register::D2 => &self.d[2],
            Register::D3 => &self.d[3],
            Register::PC => &self.pc,
            Register::CR => &self.cr,
        }
    }

    /// Lends one register for writing: what the borrower leaves in it is
    /// what the register holds afterwards, and no other register changes.
    pub fn register_mut_ref(&mut self, register: Register) -> (value: &mut u8)
        ensures
            *value == old(self)@[register],
            final(self)@ == old(self)@.insert(register, *final(value)),
    {
        match register {
            Register::R0 => &mut self.r[0],
            Register::R1 => &mut self.r[1],
            Register::R2 => &mut self.r[2],
            Register::R3 => &mut self.r[3],
            Register::R4 => &mut self.r[4],
            Register::R5 => &mut self.r[5],
            Register::R6 => &mut self.r[6],
            Register::R7 => &mut self.r[7],
            Register::BA => &mut self.b[0],
            Register::BB => &mut self.b[1],
            Register::D0 => &mut self.d[0],
            Register::D1 => &mut self.d[1],
            Register::D2 => &mut self.d[2],
            Register::D3 => &mut self.d[3],
            Register::PC => &mut self.pc,
            Register::CR => &mut self.cr,
        }
    }
    fn set_register(&mut self, register: Register, value: u8)
        ensures
            final(self)@ == old(self)@.insert(register, value),
    {
        *self.register_mut_ref(register) = value;
    }

    /// Stores the difference of two registers as the comparison result.
    fn store_cr_rr(&mut self, target: Register, source: Register)
        ensures
            final(self)@ == old(self)@.insert(
                Register::CR,
                wrapped(old(self)@[target] - old(self)@[source]),
            ),
    {
        let value: u8 = wrapping_difference(self.register(target), self.register(source));
        self.cr = value;
        assert(self@ =~= old(self)@.insert(Register::CR, value));
    }

    /// Stores the difference of a register and a value as the comparison result.
    fn store_cr_rv(&mut self, target: Register, source: u8)
        ensures
            final(self)@ == old(self)@.insert(Register::CR, wrapped(old(self)@[target] - source)),
    {
        let value: u8 = wrapping_difference(self.register(target), source);
        self.cr = value;
        assert(self@ =~= old(self)@.insert(Register::CR, value));
    }

    /// The comparison result, read as a signed number.
    fn get_cr_as_i8(&self) -> (flag: i8)
        ensures
            flag == as_signed(self@[Register::CR]),
    {
        signed_of(self.cr)
    }

    fn increment_pc(&mut self)
        ensures
            final(self)@ == advanced(old(self)@),
    {
        self.pc = self.pc.wrapping_add(1);
        assert(self@ =~= advanced(old(self)@));
    }

    fn jump_to(&mut self, target: u8)
        ensures
            final(self)@ == old(self)@.insert(Register::PC, target),
    {
        self.pc = target;
        assert(self@ =~= old(self)@.insert(Register::PC, target));
    }

    /// Runs one instruction. It cannot fail: the operands of a decoded
    /// instruction are valid, and all arithmetic wraps.
    pub fn process_instruction(&mut self, op_code: OpCode)
        ensures
            final(self)@ == executed(old(self)@, op_code),
    {
        match op_code {
            OpCode::ADD(t, sr) => {
                let value: u8 = wrapping_sum(self.register(t), self.register(sr));
                self.set_register(t, value);
            },
            OpCode::SUB(t, sr) => {
                let value: u8 = wrapping_difference(self.register(t), self.register(sr));
                self.set_register(t, value);
            },
            OpCode::LSH(t, sr) => {
                let value: u8 = shift_left(self.register(t), self.register(sr));
                self.set_register(t, value);
            },
            OpCode::RSH(t, sr) => {
                let value: u8 = shift_right(self.register(t), self.register(sr));
                self.set_register(t, value);
            },
            OpCode::AND(t, sr) => {
                let value: u8 = self.register(t) & self.register(sr);
                self.set_register(t, value);
            },
            OpCode::OR(t, sr) => {
                let value: u8 = self.register(t) | self.register(sr);
                self.set_register(t, value);
            },
            OpCode::XOR(t, sr) => {
                let value: u8 = self.register(t) ^ self.register(sr);
                self.set_register(t, value);
            },
            OpCode::CMP(t, sr) => self.store_cr_rr(t, sr),
            OpCode::MOV(t, sr) => {
                let value: u8 = self.register(sr);
                self.set_register(t, value);
            },
            OpCode::ADDV(t, sv) => {
                let value: u8 = wrapping_sum(self.register(t), sv);
                self.set_register(t, value);
            },
            OpCode::SUBV(t, sv) => {
                let value: u8 = wrapping_difference(self.register(t), sv);
                self.set_register(t, value);
            },
            OpCode::LSHV(t, sv) => {
                let value: u8 = shift_left(self.register(t), sv);
                self.set_register(t, value);
            },
            OpCode::RSHV(t, sv) => {
                let value: u8 = shift_right(self.register(t), sv);
                self.set_register(t, value);
            },
            OpCode::ANDV(t, sv) => {
                let value: u8 = self.register(t) & sv;
                self.set_register(t, value);
            },
            OpCode::ORV(t, sv) => {
                let value: u8 = self.register(t) | sv;
                self.set_register(t, value);
            },
            OpCode::XORV(t, sv) => {
                let value: u8 = self.register(t) ^ sv;
                self.set_register(t, value);
            },
            OpCode::CMPV(t, sv) => self.store_cr_rv(t, sv),
            OpCode::MOVV(t, sv) => self.set_register(t, sv),
            OpCode::BR(v) => {
                self.jump_to(v);
                return;
            },
            OpCode::BE(v) => {
                if self.get_cr_as_i8() == 0 {
                    self.jump_to(v);
                    return;
                }
            },
            OpCode::BNE(v) => {
                if self.get_cr_as_i8() != 0 {
                    self.jump_to(v);
                    return;
                }
            },
            OpCode::BG(v) => {
                if self.get_cr_as_i8() > 0 {
                    self.jump_to(v);
                    return;
                }
            },
            OpCode::BL(v) => {
                if self.get_cr_as_i8() < 0 {
                    self.jump_to(v);
                    return;
                }
            },
        };
        self.increment_pc();
    }

    /// Fetches the instruction that the program counter points at and runs
    /// it. Where the counter points past the end of `program` there is
    /// nothing to run: the machine is left as it is and `false` is returned.
    pub fn step(&mut self, program: &Program) -> (ran: bool)
        ensures
            match fetch(program.instructions(), old(self)@[Register::PC] as int) {
                Some(op) => ran && final(self)@ == executed(old(self)@, op),
                None => !ran && final(self)@ == old(self)@,
            },
    {
        let at: usize = self.pc.into();
        match program.get_ins(at) {
            Some(op) => {
                self.process_instruction(*op);
                true
            },
            None => false,
        }
    }
}

impl Default for Tgs {
    fn default() -> (machine: Tgs)
        ensures
            machine@ == Map::total(|register: Register| 0u8),
    {
        Tgs::new()
    }
}

/// The sum of two bytes, modulo 256.
fn wrapping_sum(a: u8, b: u8) -> (sum: u8)
    ensures
        sum == wrapped(a + b),
{
    a.wrapping_add(b)
}

/// The difference of two bytes, modulo 256.
fn wrapping_difference(a: u8, b: u8) -> (difference: u8)
    ensures
        difference == wrapped(a - b),
{
    a.wrapping_sub(b)
}

/// The byte `v` as the signed number with the same eight bits.
fn signed_of(v: u8) -> (n: i8)
    ensures
        n == as_signed(v),
{
    if v < 128 {
        v as i8
    } else {
        (v as i16 - 256) as i8
    }
}

/// `v` shifted left by `amount` modulo 8 within eight bits.
fn shift_left(v: u8, amount: u8) -> (shifted: u8)
    ensures
        shifted == shifted_left(v, amount),
{
    let by: u8 = amount % 8;
    let by32: u32 = by.into();
    assert(by32 % 8 == by32);
    assert({
        &&& (by32 == 0 ==> v << by32 == v)
        &&& (by32 == 1 ==> v << by32 == (v as u16 * 2 % 256) as u8)
        &&& (by32 == 2 ==> v << by32 == (v as u16 * 4 % 256) as u8)
        &&& (by32 == 3 ==> v << by32 == (v as u16 * 8 % 256) as u8)
        &&& (by32 == 4 ==> v << by32 == (v as u16 * 16 % 256) as u8)
        &&& (by32 == 5 ==> v << by32 == (v as u16 * 32 % 256) as u8)
        &&& (by32 == 6 ==> v << by32 == (v as u16 * 64 % 256) as u8)
        &&& (by32 == 7 ==> v << by32 == (v as u16 * 128 % 256) as u8)
    }) by (bit_vector);
    v.wrapping_shl(by32)
}

/// `v` shifted right by `amount` modulo 8.
fn shift_right(v: u8, amount: u8) -> (shifted: u8)
    ensures
        shifted == shifted_right(v, amount),
{
    let by: u8 = amount % 8;
    let by32: u32 = by.into();
    assert(by32 % 8 == by32);
    assert({
        &&& (by32 == 0 ==> v >> by32 == v)
        &&& (by32 == 1 ==> v >> by32 == v / 2)
        &&& (by32 == 2 ==> v >> by32 == v / 4)
        &&& (by32 == 3 ==> v >> by32 == v / 8)
        &&& (by32 == 4 ==> v >> by32 == v / 16)
        &&& (by32 == 5 ==> v >> by32 == v / 32)
        &&& (by32 == 6 ==> v >> by32 == v / 64)
        &&& (by32 == 7 ==> v >> by32 == v / 128)
    }) by (bit_vector);
    v.wrapping_shr(by32)
}

} // verus!
