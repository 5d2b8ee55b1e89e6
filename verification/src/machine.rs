use vstd::prelude::*;
use crate::opcode::{decode_spec, dispatch_spec, word_spec, Operation};

verus! {

/// Number of general-purpose registers.
pub const REGISTER_COUNT: usize = 16;

/// Number of bytes of memory.
pub const MEMORY_SIZE: usize = 4096;

/// Number of return addresses the call stack can hold.
pub const STACK_DEPTH: usize = 16;

/// Why a run stopped without reaching a halt.
#[derive(Clone, Copy, Debug, PartialEq, Eq, Structural)]
pub enum Fault {
    /// The opcode decoded, but no dispatch rule matches it.
    UnimplementedOpcode,
    /// The two bytes of the opcode do not both lie inside memory.
    OutOfBounds,
    /// A call found the call stack full.
    StackOverflow,
    /// A return found the call stack empty.
    StackUnderflow,
}

/// How a run ended.
#[derive(Clone, Copy, Debug, PartialEq, Eq)]
pub enum Outcome {
    /// A halt opcode was reached.
    Halted,
    /// The instruction at `program_counter` could not be carried out.
    ///
    /// `opcode` is the offending opcode, or `None` where the fetch itself
    /// failed and there is no opcode to report.
    Faulted { reason: Fault, opcode: Option<u16>, program_counter: u16 },
}

/// The state of the machine as mathematical values.
///
/// `stack` holds the saved return addresses only, oldest first: its length
/// is the stack pointer.
pub struct Machine {
    pub registers: Seq<u8>,
    pub memory: Seq<u8>,
    pub stack: Seq<u16>,
    pub program_counter: u16,
}

impl Machine {
    /// The sizes are those of the machine, and the stack is within its depth.
    pub open spec fn wf(self) -> bool {
        &&& self.registers.len() == REGISTER_COUNT
        &&& self.memory.len() == MEMORY_SIZE
        &&& self.stack.len() <= STACK_DEPTH
    }

    /// The machine before its first cycle: the given register values and
    /// memory image, each followed by zeros, and an empty stack.
    pub open spec fn initial(registers: Seq<u8>, image: Seq<u8>, program_counter: u16) -> Machine {
        Machine {
            registers: Seq::new(
                REGISTER_COUNT as nat,
                |i: int| if i < registers.len() { registers[i] } else { 0u8 },
            ),
            memory: Seq::new(
                MEMORY_SIZE as nat,
                |i: int| if i < image.len() { image[i] } else { 0u8 },
            ),
            stack: Seq::empty(),
            program_counter,
        }
    }

    /// The opcode at the program counter, high byte first; `None` unless
    /// both of its bytes lie inside memory.
    pub open spec fn fetch(self) -> Option<u16> {
        if self.program_counter + 1 < self.memory.len() {
            Some(
                word_spec(
                    self.memory[self.program_counter as int],
                    self.memory[self.program_counter + 1],
                ),
            )
        } else {
            None
        }
    }

    /// The machine with the program counter moved past one opcode.
    pub open spec fn advance(self) -> Machine {
        Machine { program_counter: (self.program_counter + 2) as u16, ..self }
    }

    /// Register `x` becomes the sum of registers `x` and `y` modulo 256.
    pub open spec fn add_xy(self, x: u8, y: u8) -> Machine {
        Machine {
            registers: self.registers.update(
                x as int,
                ((self.registers[x as int] + self.registers[y as int]) % 256) as u8,
            ),
            ..self
        }
    }

    /// The program counter is saved on the stack and replaced by `addr`,
    /// unless the stack is full.
    pub open spec fn call(self, addr: u16) -> Result<Machine, Fault> {
        if self.stack.len() < STACK_DEPTH {
            Ok(
                Machine {
                    stack: self.stack.push(self.program_counter),
                    program_counter: addr,
                    ..self
                },
            )
        } else {
            Err(Fault::StackOverflow)
        }
    }

    /// The newest saved address leaves the stack and becomes the program
    /// counter, unless the stack is empty.
    pub open spec fn ret(self) -> Result<Machine, Fault> {
        if self.stack.len() > 0 {
            Ok(Machine { stack: self.stack.drop_last(), program_counter: self.stack.last(), ..self })
        } else {
            Err(Fault::StackUnderflow)
        }
    }

    /// The outcome of `operation` on a machine whose program counter
    /// already points past the operation's opcode. `Ok(None)` is a halt.
    pub open spec fn execute(self, operation: Operation) -> Result<Option<Machine>, Fault> {
        match operation {
            Operation::Halt => Ok(None),
            Operation::Return => match self.ret() {
                Ok(next) => Ok(Some(next)),
                Err(fault) => Err(fault),
            },
            Operation::Call { addr } => match self.call(addr) {
                Ok(next) => Ok(Some(next)),
                Err(fault) => Err(fault),
            },
            Operation::AddXY { x, y } => Ok(Some(self.add_xy(x, y))),
        }
    }

    /// One instruction cycle: fetch, decode, advance, dispatch, execute.
    ///
    /// The result is the machine after the cycle and `None` where the run
    /// goes on. Where the run ends, the result is the machine unchanged,
    /// still pointing at the instruction that ended it, and the outcome.
    pub open spec fn cycle(self) -> (Machine, Option<Outcome>) {
        let program_counter = self.program_counter;
        match self.fetch() {
            None => (
                self,
                Some(Outcome::Faulted { reason: Fault::OutOfBounds, opcode: None, program_counter }),
            ),
            Some(opcode) => match dispatch_spec(decode_spec(opcode)) {
                None => (
                    self,
                    Some(
                        Outcome::Faulted {
                            reason: Fault::UnimplementedOpcode,
                            opcode: Some(opcode),
                            program_counter,
                        },
                    ),
                ),
                Some(operation) => match self.advance().execute(operation) {
                    Ok(Some(next)) => (next, None),
                    Ok(None) => (self, Some(Outcome::Halted)),
                    Err(reason) => (
                        self,
                        Some(Outcome::Faulted { reason, opcode: Some(opcode), program_counter }),
                    ),
                },
            },
        }
    }

    /// The `level`-th digit of the measure by which every run ends.
    ///
    /// Read the saved addresses, then the program counter, then 65536 for
    /// each stack slot still free, as the digits of one number. A cycle
    /// that does not end the run makes that number greater: an addition
    /// and a call raise the digit of the program counter, and a return
    /// turns it into a free slot. The digit here is the distance left.
    pub open spec fn rank(self, level: int) -> int {
        if level < self.stack.len() {
            65536 - self.stack[level]
        } else if level == self.stack.len() {
            65536 - self.program_counter
        } else {
            0
        }
    }

    /// The machine at the end of the run that starts here, and how it ended.
    ///
    /// Cycles follow one another until one ends the run; the final machine
    /// is the one that this last cycle found and left unchanged.
    pub open spec fn run(self) -> (Machine, Outcome)
        decreases
            self.rank(0), self.rank(1), self.rank(2), self.rank(3), self.rank(4), self.rank(5),
            self.rank(6), self.rank(7), self.rank(8), self.rank(9), self.rank(10), self.rank(11),
            self.rank(12), self.rank(13), self.rank(14), self.rank(15), self.rank(16),
        when self.wf()
    {
        match self.cycle().1 {
            Some(outcome) => (self, outcome),
            None => self.cycle().0.run(),
        }
    }
}

} // verus!
