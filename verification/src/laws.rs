use vstd::prelude::*;
use crate::machine::{Fault, Machine, Outcome, STACK_DEPTH};
use crate::opcode::{decode_spec, dispatch_spec, first_match, rule_table_spec, Fields, Operation, Rule};

verus! {

/// Decoding loses nothing: each nibble is below 16, the address below
/// 4096, the four nibbles put together give the opcode back, and the
/// address is the last three of them.
pub proof fn lemma_decode_is_exact(opcode: u16)
    ensures
        decode_spec(opcode).major < 16,
        decode_spec(opcode).x < 16,
        decode_spec(opcode).y < 16,
        decode_spec(opcode).minor < 16,
        decode_spec(opcode).addr < 4096,
        decode_spec(opcode).major * 4096 + decode_spec(opcode).addr == opcode,
        decode_spec(opcode).x * 256 + decode_spec(opcode).y * 16 + decode_spec(opcode).minor
            == decode_spec(opcode).addr,
{
    assert(opcode / 4096 < 16 && (opcode / 4096) * 4096 + opcode % 4096 == opcode)
        by (bit_vector);
    assert((opcode / 256 % 16) * 256 + (opcode / 16 % 16) * 16 + opcode % 16 == opcode % 4096)
        by (bit_vector);
}

/// Which opcodes name which operation: 0x0000 halts, 0x00EE returns,
/// 0x8xy4 adds register y to register x, 0x2nnn calls nnn, and no other
/// opcode is implemented.
pub proof fn lemma_dispatch_by_opcode(opcode: u16)
    ensures
        dispatch_spec(decode_spec(opcode)) == if opcode == 0x0000 {
            Some(Operation::Halt)
        } else if opcode == 0x00EE {
            Some(Operation::Return)
        } else if 0x8000 <= opcode <= 0x8FFF && opcode % 16 == 4 {
            Some(
                Operation::AddXY { x: (opcode / 256 % 16) as u8, y: (opcode / 16 % 16) as u8 },
            )
        } else if 0x2000 <= opcode <= 0x2FFF {
            Some(Operation::Call { addr: (opcode - 0x2000) as u16 })
        } else {
            None
        },
{
}

/// First match wins: a dispatch table selects the operation of the first
/// rule that the fields fit, whatever later rules say, and selects
/// nothing exactly when the fields fit no rule.
pub proof fn lemma_first_match_wins(rules: Seq<Rule>, fields: Fields, from: int)
    requires
        0 <= from <= rules.len(),
    ensures
        match first_match(rules, fields, from) {
            None => forall|i: int|
                from <= i < rules.len() ==> !(#[trigger] rules[i]).pattern.matches(fields),
            Some(operation) => exists|i: int|
                {
                    &&& from <= i < rules.len()
                    &&& (#[trigger] rules[i]).pattern.matches(fields)
                    &&& operation == rules[i].handler.bind_spec(fields)
                    &&& forall|j: int|
                        from <= j < i ==> !(#[trigger] rules[j]).pattern.matches(fields)
                },
        },
    decreases rules.len() - from,
{
    if from < rules.len() {
        if rules[from].pattern.matches(fields) {
            assert(forall|j: int|
                from <= j < from ==> !(#[trigger] rules[j]).pattern.matches(fields));
        } else {
            lemma_first_match_wins(rules, fields, from + 1);
        }
    }
}

/// The machine's dispatch table selects what the dispatch rules say.
pub proof fn lemma_table_is_dispatch(fields: Fields)
    ensures
        first_match(rule_table_spec(), fields, 0) == dispatch_spec(fields),
{
    reveal_with_fuel(first_match, 5);
}

/// Addition wraps: after `add_xy`, register `x` holds the sum of the two
/// registers modulo 256 and every other register holds what it held. So
/// register `y` is unchanged whenever it is not `x` itself.
pub proof fn lemma_add_wraps(machine: Machine, x: u8, y: u8)
    requires
        machine.wf(),
        x < 16,
        y < 16,
    ensures
        machine.add_xy(x, y).wf(),
        machine.add_xy(x, y).registers[x as int] == (machine.registers[x as int]
            + machine.registers[y as int]) % 256,
        x != y ==> machine.add_xy(x, y).registers[y as int] == machine.registers[y as int],
        forall|k: int|
            0 <= k < 16 && k != x ==> machine.add_xy(x, y).registers[k] == machine.registers[k],
        machine.add_xy(x, y).memory == machine.memory,
        machine.add_xy(x, y).stack == machine.stack,
        machine.add_xy(x, y).program_counter == machine.program_counter,
{
}

/// A cycle on the opcode 0x8xy4 is an addition: the run goes on at the
/// next opcode with register `x` holding the wrapped sum, nothing else
/// changed.
pub proof fn lemma_add_cycle(machine: Machine, x: u8, y: u8)
    requires
        machine.wf(),
        x < 16,
        y < 16,
        machine.fetch() == Some((0x8004 + x * 256 + y * 16) as u16),
    ensures
        machine.cycle() == (machine.advance().add_xy(x, y), None::<Outcome>),
        machine.cycle().0.program_counter == machine.program_counter + 2,
        machine.cycle().0.registers[x as int] == (machine.registers[x as int]
            + machine.registers[y as int]) % 256,
        x != y ==> machine.cycle().0.registers[y as int] == machine.registers[y as int],
{
    let opcode = (0x8004 + x * 256 + y * 16) as u16;
    lemma_dispatch_by_opcode(opcode);
}

/// A call followed at once by a return leaves the machine as it was
/// before the call: the program counter is back at the address that the
/// call saved, and the stack is what it was.
pub proof fn lemma_call_then_return(machine: Machine, addr: u16)
    requires
        machine.wf(),
        machine.stack.len() < STACK_DEPTH,
    ensures
        machine.call(addr) is Ok,
        machine.call(addr)->Ok_0.wf(),
        machine.call(addr)->Ok_0.stack.len() == machine.stack.len() + 1,
        machine.call(addr)->Ok_0.program_counter == addr,
        machine.call(addr)->Ok_0.ret() == Ok::<Machine, Fault>(machine),
{
    let called = machine.call(addr)->Ok_0;
    assert(called.stack.drop_last() =~= machine.stack);
}

/// The same over two cycles: where the opcode at the program counter is
/// a call and the opcode at its target is a return, the second cycle
/// ends with the program counter at the address just after the call and
/// with the stack, the registers and the memory as they were.
pub proof fn lemma_call_return_cycles(machine: Machine, opcode: u16)
    requires
        machine.wf(),
        machine.stack.len() < STACK_DEPTH,
        machine.fetch() == Some(opcode),
        0x2000 <= opcode <= 0x2FFF,
        opcode - 0x2000 + 1 < machine.memory.len(),
        machine.memory[opcode - 0x2000] == 0x00,
        machine.memory[opcode - 0x2000 + 1] == 0xEE,
    ensures
        machine.cycle().1 is None,
        machine.cycle().0.program_counter == opcode - 0x2000,
        machine.cycle().0.stack == machine.stack.push((machine.program_counter + 2) as u16),
        machine.cycle().0.cycle() == (machine.advance(), None::<Outcome>),
{
    lemma_dispatch_by_opcode(opcode);
    lemma_dispatch_by_opcode(0x00EE);
    let target = (opcode - 0x2000) as u16;
    lemma_call_then_return(machine.advance(), target);
    let called = machine.cycle().0;
    assert(called == machine.advance().call(target)->Ok_0);
    assert(called.fetch() == Some(0x00EEu16));
    assert(called.advance().ret()->Ok_0 =~= machine.advance()) by {
        assert(called.advance().stack.drop_last() =~= machine.stack);
    }
}

/// The stack never grows beyond its depth: a call succeeds exactly when
/// fewer than sixteen addresses are saved, and then saves one more.
pub proof fn lemma_call_respects_depth(machine: Machine, addr: u16)
    requires
        machine.wf(),
    ensures
        machine.call(addr) is Ok <==> machine.stack.len() < STACK_DEPTH,
        machine.call(addr) is Err ==> machine.call(addr) == Err::<Machine, Fault>(
            Fault::StackOverflow,
        ),
        machine.call(addr) is Ok ==> machine.call(addr)->Ok_0.wf() && machine.call(
            addr,
        )->Ok_0.stack.len() == machine.stack.len() + 1,
{
}

/// The machine after calling each of `targets` in turn with no return in
/// between, or the fault of the first call that failed.
pub open spec fn nested_calls(machine: Machine, targets: Seq<u16>) -> Result<Machine, Fault>
    decreases targets.len(),
{
    if targets.len() == 0 {
        Ok(machine)
    } else {
        match nested_calls(machine, targets.drop_last()) {
            Ok(inner) => inner.call(targets.last()),
            Err(fault) => Err(fault),
        }
    }
}

/// Nested calls fill the stack one slot each: from a stack that holds
/// `depth` addresses, calls succeed as long as their number and `depth`
/// together stay within sixteen, and one call more is a stack overflow.
/// From an empty stack the seventeenth nested call is the first to fail.
pub proof fn lemma_nested_calls_overflow(machine: Machine, targets: Seq<u16>)
    requires
        machine.wf(),
        machine.stack.len() + targets.len() <= STACK_DEPTH + 1,
    ensures
        machine.stack.len() + targets.len() <= STACK_DEPTH ==> nested_calls(machine, targets)
            is Ok && nested_calls(machine, targets)->Ok_0.wf() && nested_calls(
            machine,
            targets,
        )->Ok_0.stack.len() == machine.stack.len() + targets.len(),
        machine.stack.len() + targets.len() == STACK_DEPTH + 1 && targets.len() > 0
            ==> nested_calls(machine, targets) == Err::<Machine, Fault>(Fault::StackOverflow),
    decreases targets.len(),
{
    if targets.len() > 0 {
        lemma_nested_calls_overflow(machine, targets.drop_last());
    }
}

/// A cycle on a call opcode with a full stack ends the run with
/// `StackOverflow`, the opcode and its address, and changes nothing.
pub proof fn lemma_call_cycle_overflows(machine: Machine, opcode: u16)
    requires
        machine.wf(),
        machine.stack.len() == STACK_DEPTH,
        machine.fetch() == Some(opcode),
        0x2000 <= opcode <= 0x2FFF,
    ensures
        machine.cycle() == (
            machine,
            Some(
                Outcome::Faulted {
                    reason: Fault::StackOverflow,
                    opcode: Some(opcode),
                    program_counter: machine.program_counter,
                },
            ),
        ),
{
    lemma_dispatch_by_opcode(opcode);
}

/// A return with an empty stack is a `StackUnderflow`; a cycle on the
/// return opcode then ends the run with that fault and changes nothing.
pub proof fn lemma_return_underflows(machine: Machine)
    requires
        machine.wf(),
        machine.stack.len() == 0,
    ensures
        machine.ret() == Err::<Machine, Fault>(Fault::StackUnderflow),
        machine.fetch() == Some(0x00EEu16) ==> machine.cycle() == (
            machine,
            Some(
                Outcome::Faulted {
                    reason: Fault::StackUnderflow,
                    opcode: Some(0x00EEu16),
                    program_counter: machine.program_counter,
                },
            ),
        ),
{
    lemma_dispatch_by_opcode(0x00EE);
}

/// An opcode needs both of its bytes inside memory: a cycle ends the run
/// with `OutOfBounds` exactly when the program counter is at the last
/// byte of memory or beyond, and then reports no opcode and changes
/// nothing.
pub proof fn lemma_fetch_out_of_bounds(machine: Machine)
    requires
        machine.wf(),
    ensures
        machine.fetch() is None <==> machine.program_counter >= 4095,
        machine.program_counter >= 4095 ==> machine.cycle() == (
            machine,
            Some(
                Outcome::Faulted {
                    reason: Fault::OutOfBounds,
                    opcode: None,
                    program_counter: machine.program_counter,
                },
            ),
        ),
        machine.program_counter < 4095 ==> !(machine.cycle().1 matches Some(
            Outcome::Faulted { reason: Fault::OutOfBounds, .. },
        )),
{
}

/// An opcode that no rule matches ends the run with
/// `UnimplementedOpcode`, carrying that opcode and its address, and
/// changes nothing.
pub proof fn lemma_unimplemented_opcode(machine: Machine, opcode: u16)
    requires
        machine.wf(),
        machine.fetch() == Some(opcode),
        dispatch_spec(decode_spec(opcode)) is None,
    ensures
        machine.cycle() == (
            machine,
            Some(
                Outcome::Faulted {
                    reason: Fault::UnimplementedOpcode,
                    opcode: Some(opcode),
                    program_counter: machine.program_counter,
                },
            ),
        ),
{
}

/// A cycle keeps the machine well formed and never writes to memory; one
/// that ends the run leaves the whole machine as it was, and one that
/// does not brings the run nearer to its end.
pub proof fn lemma_cycle_progress(machine: Machine)
    requires
        machine.wf(),
    ensures
        machine.cycle().0.wf(),
        machine.cycle().0.memory == machine.memory,
        machine.cycle().1 is Some ==> machine.cycle().0 == machine,
        machine.cycle().1 is None ==> machine.run() == machine.cycle().0.run(),
        machine.cycle().1 is Some ==> machine.run() == (machine, machine.cycle().1->Some_0),
{
}

/// Every run ends in a machine on which the next cycle is the one that
/// ended it: the outcome of the run is what that cycle reports, and the
/// machine is well formed, with the memory it started with.
pub proof fn lemma_run_ends(machine: Machine)
    requires
        machine.wf(),
    ensures
        machine.run().0.wf(),
        machine.run().0.memory == machine.memory,
        machine.run().0.cycle() == (machine.run().0, Some(machine.run().1)),
    decreases
        machine.rank(0), machine.rank(1), machine.rank(2), machine.rank(3), machine.rank(4),
        machine.rank(5), machine.rank(6), machine.rank(7), machine.rank(8), machine.rank(9),
        machine.rank(10), machine.rank(11), machine.rank(12), machine.rank(13), machine.rank(14),
        machine.rank(15), machine.rank(16),
{
    lemma_cycle_progress(machine);
    if machine.cycle().1 is None {
        lemma_run_ends(machine.cycle().0);
    }
}

} // verus!
