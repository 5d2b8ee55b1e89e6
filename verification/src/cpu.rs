use vstd::prelude::*;
use crate::laws::lemma_run_ends;
use crate::machine::{Fault, Machine, Outcome, MEMORY_SIZE, REGISTER_COUNT, STACK_DEPTH};
use crate::opcode::{decode, dispatch, word, Operation};

verus! {

/// The executable machine: registers, memory, call stack and program counter
/// as one owned value.
#[derive(Debug)]
pub struct CPU {
    registers: [u8; 16],
    program_counter: u16,
    memory: [u8; 4096],
    stack: [u16; 16],
    stack_pointer: usize,
}

impl View for CPU {
    type V = Machine;

    /// The state as mathematical values; of the stack, the slots below the
    /// stack pointer.
    closed spec fn view(&self) -> Machine {
        Machine {
            registers: self.registers@,
            memory: self.memory@,
            stack: self.stack@.subrange(0, self.stack_pointer as int),
            program_counter: self.program_counter,
        }
    }
}

impl Clone for CPU {
    /// An independent machine in the same state.
    fn clone(&self) -> (copy: CPU)
        ensures
            copy@ == self@,
    {
        proof {
            use_type_invariant(self);
        }
        CPU {
            registers: self.registers,
            program_counter: self.program_counter,
            memory: self.memory,
            stack: self.stack,
            stack_pointer: self.stack_pointer,
        }
    }
}

impl Default for CPU {
    /// The machine with every register and every byte of memory zero, an
    /// empty call stack, and the program counter at address 0.
    fn default() -> (cpu: CPU)
        ensures
            cpu@ == Machine::initial(Seq::empty(), Seq::empty(), 0),
    {
        let cpu = CPU {
            registers: [0u8; 16],
            program_counter: 0,
            memory: [0u8; 4096],
            stack: [0u16; 16],
            stack_pointer: 0,
        };
        assert(cpu@.registers =~= Machine::initial(Seq::empty(), Seq::empty(), 0).registers);
        assert(cpu@.memory =~= Machine::initial(Seq::empty(), Seq::empty(), 0).memory);
        assert(cpu@.stack =~= Seq::<u16>::empty());
        cpu
    }
}

impl CPU {
    #[verifier::type_invariant]
    spec fn stack_pointer_in_range(&self) -> bool {
        self.stack_pointer <= STACK_DEPTH
    }

    /// A machine with the given register values and memory image, each
    /// followed by zeros, an empty call stack, and the given entry address.
    ///
    /// `None` where there are more register values than registers or the
    /// image is larger than memory.
    pub fn new(registers: &[u8], image: &[u8], program_counter: u16) -> (cpu: Option<CPU>)
        ensures
            cpu is Some <==> registers@.len() <= REGISTER_COUNT && image@.len() <= MEMORY_SIZE,
            cpu is Some ==> cpu->Some_0@ == Machine::initial(registers@, image@, program_counter),
    {
        if registers.len() > REGISTER_COUNT || image.len() > MEMORY_SIZE {
            return None;
        }
        let mut cpu = CPU {
            registers: [0u8; 16],
            program_counter,
            memory: [0u8; 4096],
            stack: [0u16; 16],
            stack_pointer: 0,
        };
        let mut i: usize = 0;
        while i < registers.len()
            invariant
                i <= registers@.len() <= REGISTER_COUNT,
                cpu.stack_pointer == 0,
                cpu.program_counter == program_counter,
                forall|k: int| 0 <= k < i ==> cpu.registers@[k] == registers@[k],
                forall|k: int| i <= k < REGISTER_COUNT ==> cpu.registers@[k] == 0u8,
                forall|k: int| 0 <= k < MEMORY_SIZE ==> cpu.memory@[k] == 0u8,
            decreases registers@.len() - i,
        {
            cpu.registers[i] = registers[i];
            i += 1;
        }
        let mut j: usize = 0;
        while j < image.len()
            invariant
                j <= image@.len() <= MEMORY_SIZE,
                cpu.stack_pointer == 0,
                cpu.program_counter == program_counter,
                cpu.registers@ == Machine::initial(registers@, image@, program_counter).registers,
                forall|k: int| 0 <= k < j ==> cpu.memory@[k] == image@[k],
                forall|k: int| j <= k < MEMORY_SIZE ==> cpu.memory@[k] == 0u8,
            decreases image@.len() - j,
        {
            cpu.memory[j] = image[j];
            j += 1;
        }
        assert(cpu@.memory =~= Machine::initial(registers@, image@, program_counter).memory);
        assert(cpu@.stack =~= Seq::<u16>::empty());
        Some(cpu)
    }

    /// The value of register `index`; `None` where there is no such register.
    pub fn register(&self, index: usize) -> (value: Option<u8>)
        ensures
            value == if index < REGISTER_COUNT {
                Some(self@.registers[index as int])
            } else {
                None
            },
            self@.wf(),
    {
        proof {
            use_type_invariant(self);
        }
        if index < REGISTER_COUNT {
            Some(self.registers[index])
        } else {
            None
        }
    }

    /// The byte of memory at `address`; `None` where the address is outside
    /// memory.
    pub fn memory_at(&self, address: usize) -> (value: Option<u8>)
        ensures
            value == if address < MEMORY_SIZE {
                Some(self@.memory[address as int])
            } else {
                None
            },
            self@.wf(),
    {
        proof {
            use_type_invariant(self);
        }
        if address < MEMORY_SIZE {
            Some(self.memory[address])
        } else {
            None
        }
    }

    /// Stores `value` in register `index`. Returns `false`, changing
    /// nothing, where there is no such register.
    pub fn set_register(&mut self, index: usize, value: u8) -> (stored: bool)
        ensures
            stored == (index < REGISTER_COUNT),
            final(self)@ == if index < REGISTER_COUNT {
                (Machine {
                    registers: old(self)@.registers.update(index as int, value),
                    ..old(self)@
                })
            } else {
                old(self)@
            },
            final(self)@.wf(),
    {
        proof {
            use_type_invariant(&*self);
        }
        if index < REGISTER_COUNT {
            self.registers[index] = value;
            true
        } else {
            false
        }
    }

    /// Stores `value` in memory at `address`. Returns `false`, changing
    /// nothing, where the address is outside memory.
    pub fn set_memory(&mut self, address: usize, value: u8) -> (stored: bool)
        ensures
            stored == (address < MEMORY_SIZE),
            final(self)@ == if address < MEMORY_SIZE {
                (Machine { memory: old(self)@.memory.update(address as int, value), ..old(self)@ })
            } else {
                old(self)@
            },
            final(self)@.wf(),
    {
        proof {
            use_type_invariant(&*self);
        }
        if address < MEMORY_SIZE {
            self.memory[address] = value;
            true
        } else {
            false
        }
    }

    /// Moves the program counter to `address`.
    pub fn set_program_counter(&mut self, address: u16)
        ensures
            final(self)@ == (Machine { program_counter: address, ..old(self)@ }),
            final(self)@.wf(),
    {
        proof {
            use_type_invariant(&*self);
        }
        self.program_counter = address;
    }

    /// The address of the next opcode to fetch.
    pub fn program_counter(&self) -> (address: u16)
        ensures
            address == self@.program_counter,
            self@.wf(),
    {
        proof {
            use_type_invariant(self);
        }
        self.program_counter
    }

    /// The number of return addresses on the call stack.
    pub fn stack_pointer(&self) -> (depth: usize)
        ensures
            depth == self@.stack.len(),
            self@.wf(),
    {
        proof {
            use_type_invariant(self);
        }
        self.stack_pointer
    }

    /// Reads the opcode at the program counter, high byte first; `None`
    /// unless both of its bytes lie inside memory.
    pub fn fetch(&self) -> (opcode: Option<u16>)
        ensures
            opcode == self@.fetch(),
            self@.wf(),
    {
        proof {
            use_type_invariant(self);
        }
        let at: usize = self.program_counter as usize;
        if at + 1 < MEMORY_SIZE {
            Some(word(self.memory[at], self.memory[at + 1]))
        } else {
            None
        }
    }

    /// Adds register `y` to register `x`, wrapping around at 256. Nothing
    /// else changes; with `x` different from `y`, register `y` keeps its
    /// value.
    pub fn add_xy(&mut self, x: u8, y: u8)
        requires
            x < REGISTER_COUNT,
            y < REGISTER_COUNT,
        ensures
            final(self)@ == old(self)@.add_xy(x, y),
            final(self)@.wf(),
            final(self)@.registers[x as int] == (old(self)@.registers[x as int] + old(
                self,
            )@.registers[y as int]) % 256,
            x != y ==> final(self)@.registers[y as int] == old(self)@.registers[y as int],
    {
        proof {
            use_type_invariant(&*self);
        }
        let left: u8 = self.registers[x as usize];
        let right: u8 = self.registers[y as usize];
        self.registers[x as usize] = left.wrapping_add(right);
    }

    /// Saves the program counter on the call stack and continues at `addr`.
    ///
    /// Fails with `StackOverflow`, changing nothing, exactly when the stack
    /// is full.
    pub fn call(&mut self, addr: u16) -> (result: Result<(), Fault>)
        ensures
            match old(self)@.call(addr) {
                Ok(next) => result is Ok && final(self)@ == next,
                Err(fault) => result == Err::<(), Fault>(fault) && final(self)@ == old(self)@,
            },
            final(self)@.wf(),
    {
        proof {
            use_type_invariant(&*self);
        }
        let sp: usize = self.stack_pointer;
        if sp >= STACK_DEPTH {
            return Err(Fault::StackOverflow);
        }
        self.stack[sp] = self.program_counter;
        self.stack_pointer = sp + 1;
        self.program_counter = addr;
        assert(self@.stack =~= old(self)@.stack.push(old(self)@.program_counter));
        Ok(())
    }

    /// Pops the newest saved address from the call stack into the program
    /// counter.
    ///
    /// Fails with `StackUnderflow`, changing nothing, exactly when the stack
    /// is empty.
    pub fn ret(&mut self) -> (result: Result<(), Fault>)
        ensures
            match old(self)@.ret() {
                Ok(next) => result is Ok && final(self)@ == next,
                Err(fault) => result == Err::<(), Fault>(fault) && final(self)@ == old(self)@,
            },
            final(self)@.wf(),
    {
        proof {
            use_type_invariant(&*self);
        }
        if self.stack_pointer == 0 {
            return Err(Fault::StackUnderflow);
        }
        self.stack_pointer -= 1;
        self.program_counter = self.stack[self.stack_pointer];
        assert(self@.stack =~= old(self)@.stack.drop_last());
        Ok(())
    }

    /// Runs one instruction cycle.
    ///
    /// `None` means the instruction was carried out and the run goes on.
    /// `Some` is the end of the run: the machine is left as the cycle found
    /// it, the program counter still at the instruction that ended it.
    pub fn step(&mut self) -> (outcome: Option<Outcome>)
        ensures
            (final(self)@, outcome) == old(self)@.cycle(),
            outcome is Some ==> final(self)@ == old(self)@,
            final(self)@.memory == old(self)@.memory,
            final(self)@.wf(),
    {
        proof {
            use_type_invariant(&*self);
        }
        let program_counter: u16 = self.program_counter;
        let opcode: u16 = match self.fetch() {
            Some(opcode) => opcode,
            None => {
                return Some(
                    Outcome::Faulted { reason: Fault::OutOfBounds, opcode: None, program_counter },
                );
            },
        };
        let operation: Operation = match dispatch(decode(opcode)) {
            Some(operation) => operation,
            None => {
                return Some(
                    Outcome::Faulted {
                        reason: Fault::UnimplementedOpcode,
                        opcode: Some(opcode),
                        program_counter,
                    },
                );
            },
        };
        self.program_counter = program_counter + 2;
        let executed: Result<(), Fault> = match operation {
            Operation::Halt => {
                self.program_counter = program_counter;
                return Some(Outcome::Halted);
            },
            Operation::Return => self.ret(),
            Operation::Call { addr } => self.call(addr),
            Operation::AddXY { x, y } => {
                self.add_xy(x, y);
                Ok(())
            },
        };
        match executed {
            Ok(()) => None,
            Err(reason) => {
                proof {
                    use_type_invariant(&*self);
                }
                self.program_counter = program_counter;
                Some(Outcome::Faulted { reason, opcode: Some(opcode), program_counter })
            },
        }
    }

    /// Runs instruction cycles until one ends the run, and says how it ended.
    ///
    /// Every run ends. The machine is left as the last cycle found it:
    /// nothing of the instruction that halted or faulted has taken effect,
    /// and the program counter points at it.
    pub fn run(&mut self) -> (outcome: Outcome)
        ensures
            (final(self)@, outcome) == old(self)@.run(),
            final(self)@.cycle() == (final(self)@, Some(outcome)),
            final(self)@.memory == old(self)@.memory,
            final(self)@.wf(),
    {
        proof {
            use_type_invariant(&*self);
        }
        loop
            invariant
                old(self)@.wf(),
                self@.wf(),
                self@.run() == old(self)@.run(),
            decreases
                self@.rank(0), self@.rank(1), self@.rank(2), self@.rank(3), self@.rank(4),
                self@.rank(5), self@.rank(6), self@.rank(7), self@.rank(8), self@.rank(9),
                self@.rank(10), self@.rank(11), self@.rank(12), self@.rank(13), self@.rank(14),
                self@.rank(15), self@.rank(16),
        {
            match self.step() {
                Some(outcome) => {
                    proof {
                        lemma_run_ends(old(self)@);
                    }
                    return outcome;
                },
                None => {
                    proof {
                        use_type_invariant(&*self);
                    }
                },
            }
        }
    }
}

} // verus!
