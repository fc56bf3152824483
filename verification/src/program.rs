use vstd::prelude::*;
use vstd::string::StringExecFns;

use crate::error::Error;
use crate::op_code::{decode_program, is_program_length, OpCode};
use crate::text::{decimal_padded3, push_decimal_padded3};

verus! {

/// A named, decoded program: the sequence the machine fetches from.
pub struct Program {
    name: String,
    op_codes: Vec<OpCode>,
}

/// The listing of `ops`: each instruction on a line of its own, in order.
pub open spec fn listing(ops: Seq<OpCode>) -> Seq<char>
    decreases ops.len(),
{
    if ops.len() == 0 {
        Seq::empty()
    } else {
        listing(ops.drop_last()) + ops.last().text() + "\n"@
    }
}

/// The listing of `ops` with each line preceded by its number, counted from
/// one and at least three digits wide, then a colon and a space.
pub open spec fn numbered_listing(ops: Seq<OpCode>) -> Seq<char>
    decreases ops.len(),
{
    if ops.len() == 0 {
        Seq::empty()
    } else {
        numbered_listing(ops.drop_last()) + decimal_padded3(ops.len()) + ": "@ + ops.last().text()
            + "\n"@
    }
}

/// What fetching at index `at` from `ops` yields: nothing at or past the end.
pub open spec fn fetch(ops: Seq<OpCode>, at: int) -> Option<OpCode> {
    if 0 <= at < ops.len() {
        Some(ops[at])
    } else {
        None
    }
}

impl Program {
    /// The decoded instructions, in program order.
    pub closed spec fn instructions(&self) -> Seq<OpCode> {
        self.op_codes@
    }

    /// The program's name.
    pub closed spec fn name(&self) -> Seq<char> {
        self.name@
    }

    /// Decodes `bytes` into a program called `name`. A malformed stream is
    /// rejected as a whole, with the error of its first bad record.
    pub fn new(name: &str, bytes: &[u8]) -> (made: Result<Program, Error>)
        ensures
            match decode_program(bytes@) {
                Ok(ops) => made matches Ok(program) && program.instructions() == ops
                    && program.name() == name@,
                Err(e) => made matches Err(got) && got == e,
            },
            !is_program_length(bytes@.len()) ==> (made matches Err(got) && got
                == Error::InvalidProgram),
    {
        match OpCode::process_bytes_to_instructions(bytes) {
            Ok(op_codes) => Ok(Program { name: String::from_str(name), op_codes }),
            Err(e) => Err(e),
        }
    }

    /// The program as text, one instruction per line.
    pub fn get_readable_program(&self) -> (text: String)
        ensures
            text@ == listing(self.instructions()),
    {
        let mut text = String::new();
        let len: usize = self.op_codes.len();
        let mut at: usize = 0;
        while at < len
            invariant
                len == self.op_codes@.len(),
                at <= len,
                text@ == listing(self.op_codes@.take(at as int)),
            decreases len - at,
        {
            let line = self.op_codes[at].to_string();
            text.append(line.as_str());
            text.append("\n");
            proof {
                let seen = self.op_codes@.take(at + 1);
                assert(seen.drop_last() =~= self.op_codes@.take(at as int));
            }
            at = at + 1;
        }
        assert(self.op_codes@.take(len as int) =~= self.op_codes@);
        text
    }

    /// The program as text, one numbered instruction per line.
    pub fn get_readable_program_witn_line_num(&self) -> (text: String)
        ensures
            text@ == numbered_listing(self.instructions()),
    {
        let mut text = String::new();
        let len: usize = self.op_codes.len();
        let mut at: usize = 0;
        while at < len
            invariant
                len == self.op_codes@.len(),
                at <= len,
                text@ == numbered_listing(self.op_codes@.take(at as int)),
            decreases len - at,
        {
            let line = self.op_codes[at].to_string();
            push_decimal_padded3(&mut text, at + 1);
            text.append(": ");
            text.append(line.as_str());
            text.append("\n");
            proof {
                let seen = self.op_codes@.take(at + 1);
                assert(seen.drop_last() =~= self.op_codes@.take(at as int));
            }
            at = at + 1;
        }
        assert(self.op_codes@.take(len as int) =~= self.op_codes@);
        text
    }

    /// Fetches the instruction at index `i`. An index at or past the end of
    /// the program yields nothing; that is an ordinary result.
    pub fn get_ins(&self, i: usize) -> (found: Option<&OpCode>)
        ensures
            match fetch(self.instructions(), i as int) {
                Some(op) => found matches Some(got) && *got == op,
                None => found is None,
            },
    {
        if i < self.op_codes.len() {
            Some(&self.op_codes[i])
        } else {
            None
        }
    }

    pub fn get_name(&self) -> (name: String)
        ensures
            name@ == self.name(),
    {
        self.name.clone()
    }
}

/// Disassembly is repeatable: the text of a program depends on its
/// instructions alone. Whenever the same instructions are listed, by the
/// same program or by another one that holds them under another name, the
/// text is the same, numbered or not.
pub proof fn lemma_listing_is_repeatable(
    first: Program,
    second: Program,
    once: String,
    again: String,
    once_numbered: String,
    again_numbered: String,
)
    requires
        first.instructions() == second.instructions(),
        once@ == listing(first.instructions()),
        again@ == listing(second.instructions()),
        once_numbered@ == numbered_listing(first.instructions()),
        again_numbered@ == numbered_listing(second.instructions()),
    ensures
        once@ == again@,
        once_numbered@ == again_numbered@,
{
}

} // verus!
