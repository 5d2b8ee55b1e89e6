use vstd::prelude::*;

verus! {

/// The four nibbles of an opcode, and its low twelve bits read as an address.
///
/// Every 16-bit value decodes; whether the fields name an operation is
/// decided by [`dispatch`].
#[derive(Clone, Copy, Debug, PartialEq, Eq, Structural)]
pub struct Fields {
    /// Bits 15-12: the instruction family.
    pub major: u8,
    /// Bits 11-8: index of the left operand register.
    pub x: u8,
    /// Bits 7-4: index of the right operand register.
    pub y: u8,
    /// Bits 3-0: the operation within the family.
    pub minor: u8,
    /// Bits 11-0: the target of a control transfer.
    pub addr: u16,
}

/// An operation the machine can carry out.
#[derive(Clone, Copy, Debug, PartialEq, Eq, Structural)]
pub enum Operation {
    /// Ends the run.
    Halt,
    /// Pops the call stack into the program counter.
    Return,
    /// Pushes the program counter and continues at `addr`.
    Call { addr: u16 },
    /// Adds register `y` to register `x`, modulo 256.
    AddXY { x: u8, y: u8 },
}

/// Family of the exact-match opcodes (halt, return).
pub const MAJOR_SYSTEM: u8 = 0x0;

/// Family of subroutine calls.
pub const MAJOR_CALL: u8 = 0x2;

/// Family of arithmetic and logic operations.
pub const MAJOR_ARITHMETIC: u8 = 0x8;

/// Addition within the arithmetic family.
pub const MINOR_ADD: u8 = 0x4;

/// The low twelve bits of the opcode that returns from a subroutine.
pub const ADDR_RETURN: u16 = 0x0EE;

/// The fields of `opcode`, by position.
pub open spec fn decode_spec(opcode: u16) -> Fields {
    Fields {
        major: (opcode / 4096) as u8,
        x: (opcode / 256 % 16) as u8,
        y: (opcode / 16 % 16) as u8,
        minor: (opcode % 16) as u8,
        addr: opcode % 4096,
    }
}

/// The 16-bit word made of two bytes, the first being the high one.
pub open spec fn word_spec(high: u8, low: u8) -> u16 {
    (high * 256 + low) as u16
}

/// The operation that the fields select, if any.
///
/// The rules are tried in order and the first match wins: the exact opcodes
/// (halt, return), then family and sub-operation (add), then the family alone
/// (call).
pub open spec fn dispatch_spec(fields: Fields) -> Option<Operation> {
    if fields.major == MAJOR_SYSTEM && fields.addr == 0 {
        Some(Operation::Halt)
    } else if fields.major == MAJOR_SYSTEM && fields.addr == ADDR_RETURN {
        Some(Operation::Return)
    } else if fields.major == MAJOR_ARITHMETIC && fields.minor == MINOR_ADD {
        Some(Operation::AddXY { x: fields.x, y: fields.y })
    } else if fields.major == MAJOR_CALL {
        Some(Operation::Call { addr: fields.addr })
    } else {
        None
    }
}

/// Assembles an opcode from two consecutive bytes of memory.
pub fn word(high: u8, low: u8) -> (opcode: u16)
    ensures
        opcode == word_spec(high, low),
{
    assert(((high as u16) << 8 | (low as u16)) == (high as u16) * 256 + (low as u16))
        by (bit_vector);
    (high as u16) << 8 | (low as u16)
}

/// Splits an opcode into its fields by masking and shifting.
pub fn decode(opcode: u16) -> (fields: Fields)
    ensures
        fields == decode_spec(opcode),
{
    assert((opcode & 0xF000) >> 12 == opcode / 4096 && opcode / 4096 < 16) by (bit_vector);
    assert((opcode & 0x0F00) >> 8 == opcode / 256 % 16) by (bit_vector);
    assert((opcode & 0x00F0) >> 4 == opcode / 16 % 16) by (bit_vector);
    assert(opcode & 0x000F == opcode % 16) by (bit_vector);
    assert(opcode & 0x0FFF == opcode % 4096) by (bit_vector);
    Fields {
        major: ((opcode & 0xF000) >> 12) as u8,
        x: ((opcode & 0x0F00) >> 8) as u8,
        y: ((opcode & 0x00F0) >> 4) as u8,
        minor: (opcode & 0x000F) as u8,
        addr: opcode & 0x0FFF,
    }
}

/// What a dispatch rule looks at in the decoded fields.
#[derive(Clone, Copy, Debug, PartialEq, Eq, Structural)]
pub enum Pattern {
    /// The whole opcode is `opcode`.
    Exact { opcode: u16 },
    /// The family is `major` and the sub-operation is `minor`.
    FamilyMinor { major: u8, minor: u8 },
    /// The family is `major`, whatever the other twelve bits.
    Family { major: u8 },
}

/// What a dispatch rule selects; the operands come from the fields.
#[derive(Clone, Copy, Debug, PartialEq, Eq, Structural)]
pub enum Handler {
    /// [`Operation::Halt`].
    Halt,
    /// [`Operation::Return`].
    Return,
    /// [`Operation::Call`] of the address field.
    Call,
    /// [`Operation::AddXY`] of the two register fields.
    AddXY,
}

/// One line of a dispatch table: opcodes that fit `pattern` are handled by
/// `handler`.
#[derive(Clone, Copy, Debug, PartialEq, Eq, Structural)]
pub struct Rule {
    pub pattern: Pattern,
    pub handler: Handler,
}

impl Pattern {
    /// Whether the fields fit the pattern. The whole opcode is the family
    /// followed by the twelve bits of the address.
    pub open spec fn matches(self, fields: Fields) -> bool {
        match self {
            Pattern::Exact { opcode } => fields.major * 4096 + fields.addr == opcode,
            Pattern::FamilyMinor { major, minor } => fields.major == major && fields.minor
                == minor,
            Pattern::Family { major } => fields.major == major,
        }
    }

    /// Tests the fields against the pattern.
    pub fn is_match(&self, fields: Fields) -> (fits: bool)
        ensures
            fits == self.matches(fields),
    {
        match *self {
            Pattern::Exact { opcode } => {
                let whole: u32 = fields.major as u32 * 4096 + fields.addr as u32;
                whole == opcode as u32
            },
            Pattern::FamilyMinor { major, minor } => fields.major == major && fields.minor
                == minor,
            Pattern::Family { major } => fields.major == major,
        }
    }
}

impl Handler {
    /// The operation, with its operands taken from the fields.
    pub open spec fn bind_spec(self, fields: Fields) -> Operation {
        match self {
            Handler::Halt => Operation::Halt,
            Handler::Return => Operation::Return,
            Handler::Call => Operation::Call { addr: fields.addr },
            Handler::AddXY => Operation::AddXY { x: fields.x, y: fields.y },
        }
    }

    /// Builds the operation from the fields.
    pub fn bind(&self, fields: Fields) -> (operation: Operation)
        ensures
            operation == self.bind_spec(fields),
    {
        match *self {
            Handler::Halt => Operation::Halt,
            Handler::Return => Operation::Return,
            Handler::Call => Operation::Call { addr: fields.addr },
            Handler::AddXY => Operation::AddXY { x: fields.x, y: fields.y },
        }
    }
}

/// The operation of the first rule, from index `from` on, whose pattern
/// the fields fit; `None` where no rule from there on fits.
pub open spec fn first_match(rules: Seq<Rule>, fields: Fields, from: int) -> Option<Operation>
    decreases rules.len() - from,
{
    if from < 0 || from >= rules.len() {
        None
    } else if rules[from].pattern.matches(fields) {
        Some(rules[from].handler.bind_spec(fields))
    } else {
        first_match(rules, fields, from + 1)
    }
}

/// The machine's dispatch table, in order of priority: exact opcodes
/// first, then family with sub-operation, then families that carry an
/// address.
pub open spec fn rule_table_spec() -> Seq<Rule> {
    seq![
        Rule { pattern: Pattern::Exact { opcode: 0x0000 }, handler: Handler::Halt },
        Rule { pattern: Pattern::Exact { opcode: 0x00EE }, handler: Handler::Return },
        Rule {
            pattern: Pattern::FamilyMinor { major: MAJOR_ARITHMETIC, minor: MINOR_ADD },
            handler: Handler::AddXY,
        },
        Rule { pattern: Pattern::Family { major: MAJOR_CALL }, handler: Handler::Call },
    ]
}

/// The machine's dispatch table as a value.
pub fn rule_table() -> (rules: [Rule; 4])
    ensures
        rules@ == rule_table_spec(),
{
    let rules: [Rule; 4] = [
        Rule { pattern: Pattern::Exact { opcode: 0x0000 }, handler: Handler::Halt },
        Rule { pattern: Pattern::Exact { opcode: 0x00EE }, handler: Handler::Return },
        Rule {
            pattern: Pattern::FamilyMinor { major: MAJOR_ARITHMETIC, minor: MINOR_ADD },
            handler: Handler::AddXY,
        },
        Rule { pattern: Pattern::Family { major: MAJOR_CALL }, handler: Handler::Call },
    ];
    assert(rules@ =~= rule_table_spec());
    rules
}

/// Evaluates a dispatch table on decoded fields: the rules are tried in
/// order and the first whose pattern fits decides. `None` where none fits.
pub fn select(rules: &[Rule], fields: Fields) -> (operation: Option<Operation>)
    ensures
        operation == first_match(rules@, fields, 0),
{
    let mut index: usize = 0;
    while index < rules.len()
        invariant
            index <= rules@.len(),
            first_match(rules@, fields, 0) == first_match(rules@, fields, index as int),
        decreases rules@.len() - index,
    {
        if rules[index].pattern.is_match(fields) {
            return Some(rules[index].handler.bind(fields));
        }
        index += 1;
    }
    None
}

/// Selects the operation for decoded fields by the machine's dispatch
/// table; `None` where no rule matches.
pub fn dispatch(fields: Fields) -> (operation: Option<Operation>)
    ensures
        operation == dispatch_spec(fields),
        operation == first_match(rule_table_spec(), fields, 0),
{
    let rules: [Rule; 4] = rule_table();
    proof {
        reveal_with_fuel(first_match, 5);
    }
    select(rules.as_slice(), fields)
}

} // verus!
