//! The concrete stack machine: its opcode set, its instruction encoding and
//! the execution semantics of every opcode, over an operand stack, a
//! constant pool and a mutable memory bank.

use crate::value::{
    add_bits, canon_bits, canon_val, div_bits, eq_bits, lt_bits, mul_bits, neg_bits, rem_bits,
    sub_bits, val_add, val_div, val_eq, val_lt, val_mul, val_neg, val_pow, val_rem, val_sub,
    ONE_BITS, ZERO_BITS,
};
use crate::{ByteCode, Instr, VmModel, VM};
use vstd::prelude::*;

verus! {

/// The stack machine's opcode set.
#[derive(Debug, Clone, Copy, PartialEq, Eq, Structural)]
pub enum StackByteCode {
    /// Do nothing.
    Nop,
    /// Stop the machine.
    Halt,
    /// Continue at the instruction whose index is the operand.
    Jump,
    /// Pop a condition; jump where it is not zero.
    JumpIf,
    /// Pop a condition; jump where it is zero.
    JumpIfNot,
    /// Pop a value and write it to the memory slot named by the operand.
    Store,
    /// Push the value of the memory slot named by the operand.
    Get,
    /// Push the constant-pool entry named by the operand.
    Const,
    /// Pop right, pop left; push left + right.
    Add,
    /// Pop right, pop left; push left - right.
    Sub,
    /// Pop right, pop left; push left / right.
    Div,
    /// Pop right, pop left; push left * right.
    Mul,
    /// Pop right, pop left; push the remainder of left by right.
    Mod,
    /// Pop right, pop left; push left raised to right.
    Pow,
    /// Pop a value; push its negation.
    Neg,
    /// Pop right, pop left; push 1.0 where they compare equal, else 0.0.
    EQ,
    /// Pop right, pop left; push 1.0 where left is less than right, else 0.0.
    LT,
    /// Pop a value; push 1.0 where it is zero, else 0.0.
    Not,
    /// Duplicate the top of the stack.
    Copy,
    /// Pop the top of the stack and discard it.
    Drop,
    /// Reverse the top two stack values.
    Swap,
}

/// The byte each opcode encodes to.
pub open spec fn byte_of(op: StackByteCode) -> u8 {
    match op {
        StackByteCode::Nop => 0,
        StackByteCode::Halt => 1,
        StackByteCode::Jump => 2,
        StackByteCode::JumpIf => 3,
        StackByteCode::JumpIfNot => 4,
        StackByteCode::Store => 5,
        StackByteCode::Get => 6,
        StackByteCode::Const => 7,
        StackByteCode::Add => 8,
        StackByteCode::Sub => 9,
        StackByteCode::Div => 10,
        StackByteCode::Mul => 11,
        StackByteCode::Mod => 12,
        StackByteCode::Pow => 13,
        StackByteCode::Neg => 14,
        StackByteCode::EQ => 15,
        StackByteCode::LT => 16,
        StackByteCode::Not => 17,
        StackByteCode::Copy => 18,
        StackByteCode::Drop => 19,
        StackByteCode::Swap => 20,
    }
}

/// The opcode a byte decodes to; a byte past the opcode set decodes to
/// nothing rather than silently to a no-op.
pub open spec fn op_of(b: u8) -> Option<StackByteCode> {
    if b == 0 {
        Some(StackByteCode::Nop)
    } else if b == 1 {
        Some(StackByteCode::Halt)
    } else if b == 2 {
        Some(StackByteCode::Jump)
    } else if b == 3 {
        Some(StackByteCode::JumpIf)
    } else if b == 4 {
        Some(StackByteCode::JumpIfNot)
    } else if b == 5 {
        Some(StackByteCode::Store)
    } else if b == 6 {
        Some(StackByteCode::Get)
    } else if b == 7 {
        Some(StackByteCode::Const)
    } else if b == 8 {
        Some(StackByteCode::Add)
    } else if b == 9 {
        Some(StackByteCode::Sub)
    } else if b == 10 {
        Some(StackByteCode::Div)
    } else if b == 11 {
        Some(StackByteCode::Mul)
    } else if b == 12 {
        Some(StackByteCode::Mod)
    } else if b == 13 {
        Some(StackByteCode::Pow)
    } else if b == 14 {
        Some(StackByteCode::Neg)
    } else if b == 15 {
        Some(StackByteCode::EQ)
    } else if b == 16 {
        Some(StackByteCode::LT)
    } else if b == 17 {
        Some(StackByteCode::Not)
    } else if b == 18 {
        Some(StackByteCode::Copy)
    } else if b == 19 {
        Some(StackByteCode::Drop)
    } else if b == 20 {
        Some(StackByteCode::Swap)
    } else {
        None
    }
}

impl ByteCode for StackByteCode {
    /// Encode this opcode as its byte.
    fn to_byte(self) -> (r: u8)
        ensures
            r == byte_of(self),
    {
        match self {
            StackByteCode::Nop => 0,
            StackByteCode::Halt => 1,
            StackByteCode::Jump => 2,
            StackByteCode::JumpIf => 3,
            StackByteCode::JumpIfNot => 4,
            StackByteCode::Store => 5,
            StackByteCode::Get => 6,
            StackByteCode::Const => 7,
            StackByteCode::Add => 8,
            StackByteCode::Sub => 9,
            StackByteCode::Div => 10,
            StackByteCode::Mul => 11,
            StackByteCode::Mod => 12,
            StackByteCode::Pow => 13,
            StackByteCode::Neg => 14,
            StackByteCode::EQ => 15,
            StackByteCode::LT => 16,
            StackByteCode::Not => 17,
            StackByteCode::Copy => 18,
            StackByteCode::Drop => 19,
            StackByteCode::Swap => 20,
        }
    }

    /// Decode a byte back to its opcode; `None` for a byte no opcode encodes
    /// to.
    fn from_byte(byte: u8) -> (r: Option<Self>)
        ensures
            r == op_of(byte),
    {
        match byte {
            0 => Some(StackByteCode::Nop),
            1 => Some(StackByteCode::Halt),
            2 => Some(StackByteCode::Jump),
            3 => Some(StackByteCode::JumpIf),
            4 => Some(StackByteCode::JumpIfNot),
            5 => Some(StackByteCode::Store),
            6 => Some(StackByteCode::Get),
            7 => Some(StackByteCode::Const),
            8 => Some(StackByteCode::Add),
            9 => Some(StackByteCode::Sub),
            10 => Some(StackByteCode::Div),
            11 => Some(StackByteCode::Mul),
            12 => Some(StackByteCode::Mod),
            13 => Some(StackByteCode::Pow),
            14 => Some(StackByteCode::Neg),
            15 => Some(StackByteCode::EQ),
            16 => Some(StackByteCode::LT),
            17 => Some(StackByteCode::Not),
            18 => Some(StackByteCode::Copy),
            19 => Some(StackByteCode::Drop),
            20 => Some(StackByteCode::Swap),
            _ => None,
        }
    }
}

/// Decoding inverts encoding: every opcode comes back from its own byte.
pub proof fn lemma_byte_round_trip(op: StackByteCode)
    ensures
        op_of(byte_of(op)) == Some(op),
{
}

/// An instruction of the stack machine: an opcode and one operand, which
/// names a memory slot (`Store`/`Get`), a constant-pool entry (`Const`) or a
/// jump target (`Jump`/`JumpIf`/`JumpIfNot`), and is ignored by the other
/// opcodes.
#[derive(Debug, Clone, Copy, PartialEq, Eq, Structural)]
pub struct StackInstr {
    /// The operation this instruction performs.
    pub op: StackByteCode,
    /// The operand: a memory address, constant index or jump target.
    pub addr: usize,
}

impl StackInstr {
    /// Build an instruction from an opcode and its operand.
    pub fn new(op: StackByteCode, addr: usize) -> (r: Self)
        ensures
            r == (StackInstr { op, addr }),
    {
        StackInstr { op, addr }
    }
}

impl Instr<StackByteCode, usize> for StackInstr {
    open spec fn opcode_spec(&self) -> StackByteCode {
        self.op
    }

    open spec fn args_spec(&self) -> usize {
        self.addr
    }

    fn opcode(&self) -> (r: &StackByteCode) {
        &self.op
    }

    fn args(&self) -> (r: &usize) {
        &self.addr
    }
}

/// The kinds of fault an execution can surface. Every fault aborts the
/// current step with no partial effect.
#[derive(Debug, Clone, Copy, PartialEq, Eq, Structural)]
pub enum VmError {
    /// An instruction asked for more stack values than the stack holds.
    StackUnderflow,
    /// A memory or constant-pool index lies outside the bounds established
    /// at construction.
    OutOfBoundsAccess,
    /// The instruction pointer ran past the end of the program without a
    /// `Halt` having executed.
    OutOfBoundsIp,
}

/// The model of a machine state: the program, the constant pool, the memory
/// bank, the operand stack, the instruction pointer and the halted flag, as
/// mathematical values.
#[verifier::ext_equal]
pub ghost struct VmState {
    /// The instructions, indexed by the instruction pointer.
    pub program: Seq<StackInstr>,
    /// The constant pool, indexed by `Const`'s operand.
    pub consts: Seq<u64>,
    /// The memory bank, indexed by `Store`'s and `Get`'s operand.
    pub memory: Seq<u64>,
    /// The operand stack; the last element is the top.
    pub stack: Seq<u64>,
    /// The index of the next instruction to fetch.
    pub ip: nat,
    /// Whether a `Halt` instruction has executed.
    pub halted: bool,
}

/// How many stack values an opcode consumes.
pub open spec fn pops_of(op: StackByteCode) -> nat {
    match op {
        StackByteCode::Nop => 0,
        StackByteCode::Halt => 0,
        StackByteCode::Jump => 0,
        StackByteCode::JumpIf => 1,
        StackByteCode::JumpIfNot => 1,
        StackByteCode::Store => 1,
        StackByteCode::Get => 0,
        StackByteCode::Const => 0,
        StackByteCode::Add => 2,
        StackByteCode::Sub => 2,
        StackByteCode::Div => 2,
        StackByteCode::Mul => 2,
        StackByteCode::Mod => 2,
        StackByteCode::Pow => 2,
        StackByteCode::Neg => 1,
        StackByteCode::EQ => 2,
        StackByteCode::LT => 2,
        StackByteCode::Not => 1,
        StackByteCode::Copy => 1,
        StackByteCode::Drop => 1,
        StackByteCode::Swap => 2,
    }
}

/// Whether the instruction's operand lies within the bounds it indexes into.
/// Only `Store`, `Get` and `Const` index at execution time; a jump target is
/// checked by the fetch that follows it.
pub open spec fn addr_ok(st: VmState, i: StackInstr) -> bool {
    match i.op {
        StackByteCode::Store => (i.addr as nat) < st.memory.len(),
        StackByteCode::Get => (i.addr as nat) < st.memory.len(),
        StackByteCode::Const => (i.addr as nat) < st.consts.len(),
        _ => true,
    }
}

/// Whether the state can execute the instruction: enough stack values to
/// consume, and an operand within bounds.
pub open spec fn can_handle(st: VmState, i: StackInstr) -> bool {
    &&& st.stack.len() >= pops_of(i.op)
    &&& addr_ok(st, i)
}

/// The fault surfaced when the instruction cannot execute: underflow is
/// detected before an out-of-bounds operand, as the values are consumed
/// before the operand is used.
pub open spec fn err_of(st: VmState, i: StackInstr) -> VmError {
    if st.stack.len() < pops_of(i.op) {
        VmError::StackUnderflow
    } else {
        VmError::OutOfBoundsAccess
    }
}

/// Whether an opcode is one of the binary arithmetic operations with a
/// platform-determined result. `Pow` is binary arithmetic too, but std
/// leaves `powf`'s precision open, so no spec function can give its result;
/// see `pow_after`.
pub open spec fn is_arith(op: StackByteCode) -> bool {
    ||| op == StackByteCode::Add
    ||| op == StackByteCode::Sub
    ||| op == StackByteCode::Div
    ||| op == StackByteCode::Mul
    ||| op == StackByteCode::Mod
}

/// The value a binary arithmetic opcode pushes, from its left and right
/// operands' bit patterns, before NaN canonicalization.
pub open spec fn arith_bits(op: StackByteCode, l: u64, r: u64) -> u64
    recommends
        is_arith(op),
{
    match op {
        StackByteCode::Add => add_bits(l, r),
        StackByteCode::Sub => sub_bits(l, r),
        StackByteCode::Div => div_bits(l, r),
        StackByteCode::Mul => mul_bits(l, r),
        StackByteCode::Mod => rem_bits(l, r),
        _ => arbitrary(),
    }
}

/// The state `Pow` leaves behind when it pushes the value `v`: two operands
/// consumed, `v` on top, everything else unchanged. Which `v` the machine
/// pushes is not pinned down by the state; `handle_rel` quantifies over it.
pub open spec fn pow_after(st: VmState, v: u64) -> VmState
    recommends
        st.stack.len() >= 2,
{
    VmState { stack: st.stack.drop_last().drop_last().push(v), ..st }
}

/// The bit pattern of the truth value a comparison pushes: 1.0 for true,
/// 0.0 for false, never anything else.
pub open spec fn bool_bits(b: bool) -> u64 {
    if b {
        ONE_BITS
    } else {
        ZERO_BITS
    }
}

/// The state an instruction's execution leaves behind, assuming the state
/// can execute it, for every instruction whose result the platform pins
/// down — all but `Pow`, whose pushed bits stay open (its arm here is an
/// arbitrary instance of `pow_after`; the semantics of `Pow` is the relation
/// in `handle_rel`). A NaN produced by arithmetic is stored canonicalized,
/// so execution stays deterministic although the platform leaves a NaN's
/// payload open. For every binary operation the value popped first is the
/// right operand and the value popped second, which was pushed earlier and
/// lies deeper in the stack, is the left operand.
pub open spec fn state_after(st: VmState, i: StackInstr) -> VmState
    recommends
        can_handle(st, i),
        i.op != StackByteCode::Pow,
{
    let top = st.stack.last();
    let l = st.stack[st.stack.len() - 2];
    let r = st.stack.last();
    match i.op {
        StackByteCode::Nop => st,
        StackByteCode::Halt => VmState { halted: true, ..st },
        StackByteCode::Jump => VmState { ip: i.addr as nat, ..st },
        StackByteCode::JumpIf => VmState {
            stack: st.stack.drop_last(),
            ip: if !eq_bits(top, ZERO_BITS) {
                i.addr as nat
            } else {
                st.ip
            },
            ..st
        },
        StackByteCode::JumpIfNot => VmState {
            stack: st.stack.drop_last(),
            ip: if eq_bits(top, ZERO_BITS) {
                i.addr as nat
            } else {
                st.ip
            },
            ..st
        },
        StackByteCode::Store => VmState {
            stack: st.stack.drop_last(),
            memory: st.memory.update(i.addr as int, top),
            ..st
        },
        StackByteCode::Get => VmState { stack: st.stack.push(st.memory[i.addr as int]), ..st },
        StackByteCode::Const => VmState { stack: st.stack.push(st.consts[i.addr as int]), ..st },
        StackByteCode::Add | StackByteCode::Sub | StackByteCode::Div | StackByteCode::Mul
            | StackByteCode::Mod => VmState {
            stack: st.stack.drop_last().drop_last().push(canon_bits(arith_bits(i.op, l, r))),
            ..st
        },
        StackByteCode::Pow => pow_after(st, arbitrary()),
        StackByteCode::Neg => VmState { stack: st.stack.drop_last().push(neg_bits(top)), ..st },
        StackByteCode::EQ => VmState {
            stack: st.stack.drop_last().drop_last().push(bool_bits(eq_bits(l, r))),
            ..st
        },
        StackByteCode::LT => VmState {
            stack: st.stack.drop_last().drop_last().push(bool_bits(lt_bits(l, r))),
            ..st
        },
        StackByteCode::Not => VmState {
            stack: st.stack.drop_last().push(bool_bits(eq_bits(top, ZERO_BITS))),
            ..st
        },
        StackByteCode::Copy => VmState { stack: st.stack.push(top), ..st },
        StackByteCode::Drop => VmState { stack: st.stack.drop_last(), ..st },
        StackByteCode::Swap => VmState {
            stack: st.stack.drop_last().drop_last().push(r).push(l),
            ..st
        },
    }
}

impl VmModel<StackInstr, VmError> for VmState {
    open spec fn halted(self) -> bool {
        self.halted
    }

    open spec fn fetch_ok(self) -> bool {
        self.ip < self.program.len()
    }

    open spec fn fetch_instr(self) -> StackInstr {
        self.program[self.ip as int]
    }

    open spec fn fetch_next(self) -> VmState {
        VmState { ip: self.ip + 1, ..self }
    }

    open spec fn fetch_err(self) -> VmError {
        VmError::OutOfBoundsIp
    }

    open spec fn handle_ok(self, i: StackInstr) -> bool {
        can_handle(self, i)
    }

    open spec fn handle_rel(self, i: StackInstr, next: VmState) -> bool {
        if i.op == StackByteCode::Pow {
            exists|v: u64| next == pow_after(self, v)
        } else {
            next == state_after(self, i)
        }
    }

    open spec fn handle_err(self, i: StackInstr) -> VmError {
        err_of(self, i)
    }
}

/// The concrete stack machine's state: a fixed program and constant pool, a
/// mutable memory bank and operand stack, the instruction pointer and the
/// halted flag. Nothing outside one machine instance aliases any of it.
pub struct StackVM {
    /// The instructions, immutable during execution.
    pub program: Vec<StackInstr>,
    /// The constant pool, immutable during execution.
    pub consts: Vec<u64>,
    /// The index of the next instruction to fetch.
    pub ip: usize,
    /// Whether a `Halt` instruction has executed.
    pub halted: bool,
    /// The operand stack; the last element is the top.
    pub stack: Vec<u64>,
    /// The memory bank, zeroed at construction.
    pub memory: Vec<u64>,
}

impl View for StackVM {
    type V = VmState;

    open spec fn view(&self) -> VmState {
        VmState {
            program: self.program@,
            consts: self.consts@,
            memory: self.memory@,
            stack: self.stack@,
            ip: self.ip as nat,
            halted: self.halted,
        }
    }
}

impl StackVM {
    /// Build a machine from a program, a constant pool and a memory size:
    /// instruction pointer zero, empty stack, not halted, and a zeroed
    /// memory bank of the given size.
    pub fn new(program: Vec<StackInstr>, consts: Vec<u64>, memory_size: usize) -> (r: Self)
        ensures
            r@.program == program@,
            r@.consts == consts@,
            r@.ip == 0,
            !r@.halted,
            r@.stack == Seq::<u64>::empty(),
            r@.memory.len() == memory_size,
            forall|k: int| 0 <= k < memory_size ==> r@.memory[k] == 0u64,
    {
        let mut memory: Vec<u64> = Vec::new();
        while memory.len() < memory_size
            invariant
                memory@.len() <= memory_size,
                forall|k: int| 0 <= k < memory@.len() ==> memory@[k] == 0u64,
            decreases memory_size - memory.len(),
        {
            memory.push(0);
        }
        StackVM { program, consts, ip: 0, halted: false, stack: Vec::new(), memory }
    }

    /// Remove and return the top of the operand stack; an empty stack is a
    /// stack-underflow fault and changes nothing.
    pub fn pop(&mut self) -> (r: Result<u64, VmError>)
        ensures
            old(self)@.stack.len() > 0 ==> (r matches Ok(v) && v == old(self)@.stack.last()
                && final(self)@ == (VmState { stack: old(self)@.stack.drop_last(), ..old(self)@ })),
            old(self)@.stack.len() == 0 ==> (r matches Err(e) && e == VmError::StackUnderflow
                && final(self)@ == old(self)@),
    {
        match self.stack.pop() {
            Some(v) => Ok(v),
            None => Err(VmError::StackUnderflow),
        }
    }

    /// Append a value to the top of the operand stack.
    pub fn push(&mut self, value: u64)
        ensures
            final(self)@ == (VmState { stack: old(self)@.stack.push(value), ..old(self)@ }),
    {
        self.stack.push(value);
    }
}

impl VM<StackInstr, VmError> for StackVM {
    fn halted(&self) -> (r: bool) {
        self.halted
    }

    fn fetch_instr(&mut self) -> (r: Result<StackInstr, VmError>) {
        if self.ip < self.program.len() {
            let i = self.program[self.ip];
            self.ip = self.ip + 1;
            Ok(i)
        } else {
            Err(VmError::OutOfBoundsIp)
        }
    }

    fn handle_instr(&mut self, instr: StackInstr) -> (r: Result<(), VmError>) {
        let addr = instr.addr;
        match instr.op {
            StackByteCode::Nop => Ok(()),
            StackByteCode::Halt => {
                self.halted = true;
                Ok(())
            },
            StackByteCode::Jump => {
                self.ip = addr;
                Ok(())
            },
            StackByteCode::JumpIf => {
                let cond = match self.pop() {
                    Ok(v) => v,
                    Err(e) => {
                        return Err(e);
                    },
                };
                if !val_eq(cond, ZERO_BITS) {
                    self.ip = addr;
                }
                Ok(())
            },
            StackByteCode::JumpIfNot => {
                let cond = match self.pop() {
                    Ok(v) => v,
                    Err(e) => {
                        return Err(e);
                    },
                };
                if val_eq(cond, ZERO_BITS) {
                    self.ip = addr;
                }
                Ok(())
            },
            StackByteCode::Store => {
                if self.stack.len() < 1 {
                    return Err(VmError::StackUnderflow);
                }
                if addr >= self.memory.len() {
                    return Err(VmError::OutOfBoundsAccess);
                }
                let v = self.stack.pop().unwrap();
                self.memory[addr] = v;
                Ok(())
            },
            StackByteCode::Get => {
                if addr >= self.memory.len() {
                    return Err(VmError::OutOfBoundsAccess);
                }
                let v = self.memory[addr];
                self.stack.push(v);
                Ok(())
            },
            StackByteCode::Const => {
                if addr >= self.consts.len() {
                    return Err(VmError::OutOfBoundsAccess);
                }
                let v = self.consts[addr];
                self.stack.push(v);
                Ok(())
            },
            StackByteCode::Add => {
                if self.stack.len() < 2 {
                    return Err(VmError::StackUnderflow);
                }
                let right = self.stack.pop().unwrap();
                let left = self.stack.pop().unwrap();
                self.stack.push(canon_val(val_add(left, right)));
                Ok(())
            },
            StackByteCode::Sub => {
                if self.stack.len() < 2 {
                    return Err(VmError::StackUnderflow);
                }
                let right = self.stack.pop().unwrap();
                let left = self.stack.pop().unwrap();
                self.stack.push(canon_val(val_sub(left, right)));
                Ok(())
            },
            StackByteCode::Div => {
                if self.stack.len() < 2 {
                    return Err(VmError::StackUnderflow);
                }
                let right = self.stack.pop().unwrap();
                let left = self.stack.pop().unwrap();
                self.stack.push(canon_val(val_div(left, right)));
                Ok(())
            },
            StackByteCode::Mul => {
                if self.stack.len() < 2 {
                    return Err(VmError::StackUnderflow);
                }
                let right = self.stack.pop().unwrap();
                let left = self.stack.pop().unwrap();
                self.stack.push(canon_val(val_mul(left, right)));
                Ok(())
            },
            StackByteCode::Mod => {
                if self.stack.len() < 2 {
                    return Err(VmError::StackUnderflow);
                }
                let right = self.stack.pop().unwrap();
                let left = self.stack.pop().unwrap();
                self.stack.push(canon_val(val_rem(left, right)));
                Ok(())
            },
            StackByteCode::Pow => {
                if self.stack.len() < 2 {
                    return Err(VmError::StackUnderflow);
                }
                let right = self.stack.pop().unwrap();
                let left = self.stack.pop().unwrap();
                let value = val_pow(left, right);
                self.stack.push(value);
                proof {
                    assert(self@ =~= pow_after(old(self)@, value));
                }
                Ok(())
            },
            StackByteCode::Neg => {
                let value = match self.pop() {
                    Ok(v) => v,
                    Err(e) => {
                        return Err(e);
                    },
                };
                self.push(val_neg(value));
                Ok(())
            },
            StackByteCode::EQ => {
                if self.stack.len() < 2 {
                    return Err(VmError::StackUnderflow);
                }
                let right = self.stack.pop().unwrap();
                let left = self.stack.pop().unwrap();
                let value = if val_eq(left, right) {
                    ONE_BITS
                } else {
                    ZERO_BITS
                };
                self.stack.push(value);
                Ok(())
            },
            StackByteCode::LT => {
                if self.stack.len() < 2 {
                    return Err(VmError::StackUnderflow);
                }
                let right = self.stack.pop().unwrap();
                let left = self.stack.pop().unwrap();
                let value = if val_lt(left, right) {
                    ONE_BITS
                } else {
                    ZERO_BITS
                };
                self.stack.push(value);
                Ok(())
            },
            StackByteCode::Not => {
                let value = match self.pop() {
                    Ok(v) => v,
                    Err(e) => {
                        return Err(e);
                    },
                };
                let out = if val_eq(value, ZERO_BITS) {
                    ONE_BITS
                } else {
                    ZERO_BITS
                };
                self.push(out);
                Ok(())
            },
            StackByteCode::Copy => {
                if self.stack.len() < 1 {
                    return Err(VmError::StackUnderflow);
                }
                let value = self.stack[self.stack.len() - 1];
                self.stack.push(value);
                proof {
                    assert(self@.stack =~= old(self)@.stack.push(old(self)@.stack.last()));
                }
                Ok(())
            },
            StackByteCode::Drop => {
                match self.pop() {
                    Ok(_) => Ok(()),
                    Err(e) => Err(e),
                }
            },
            StackByteCode::Swap => {
                if self.stack.len() < 2 {
                    return Err(VmError::StackUnderflow);
                }
                let right = self.stack.pop().unwrap();
                let left = self.stack.pop().unwrap();
                self.stack.push(right);
                self.stack.push(left);
                Ok(())
            },
        }
    }
}

/// Pushing `a` then `b` and then executing a binary arithmetic opcode leaves
/// the stack exactly as before the pushes, with the opcode applied to left
/// operand `a` and right operand `b` on top (canonicalized where it is NaN):
/// the value popped first is the right operand and the value popped second,
/// pushed earlier and lying deeper, is the left operand.
pub proof fn lemma_binary_arith(st: VmState, i: StackInstr, a: u64, b: u64)
    requires
        is_arith(i.op),
    ensures
        ({
            let seeded = VmState { stack: st.stack.push(a).push(b), ..st };
            &&& can_handle(seeded, i)
            &&& state_after(seeded, i) == (VmState {
                stack: st.stack.push(canon_bits(arith_bits(i.op, a, b))),
                ..st
            })
        }),
{
    let seeded = VmState { stack: st.stack.push(a).push(b), ..st };
    assert(seeded.stack.drop_last() =~= st.stack.push(a));
    assert(seeded.stack.drop_last().drop_last() =~= st.stack);
    assert(state_after(seeded, i) =~= (VmState {
        stack: st.stack.push(canon_bits(arith_bits(i.op, a, b))),
        ..st
    }));
}

/// What `Pow` may do: every state the machine may step to from a seeded
/// stack consumes the two operands and pushes one value, leaving the rest of
/// the state untouched; only the pushed bits are left open, as std leaves
/// `powf`'s precision open.
pub proof fn lemma_pow_shape(st: VmState, i: StackInstr, next: VmState)
    requires
        i.op == StackByteCode::Pow,
        st.stack.len() >= 2,
        st.handle_rel(i, next),
    ensures
        can_handle(st, i),
        next.stack.len() == st.stack.len() - 1,
        next.stack.drop_last() == st.stack.drop_last().drop_last(),
        next == (VmState { stack: next.stack, ..st }),
{
    let v = choose|v: u64| next == pow_after(st, v);
    assert(next.stack.drop_last() =~= st.stack.drop_last().drop_last());
}

/// `Copy` followed by `Drop` leaves the whole state, stack size and top
/// value included, exactly as it was before the `Copy`.
pub proof fn lemma_copy_then_drop(st: VmState, i_copy: StackInstr, i_drop: StackInstr)
    requires
        i_copy.op == StackByteCode::Copy,
        i_drop.op == StackByteCode::Drop,
        st.stack.len() >= 1,
    ensures
        can_handle(st, i_copy),
        can_handle(state_after(st, i_copy), i_drop),
        state_after(state_after(st, i_copy), i_drop) == st,
{
    assert(state_after(st, i_copy).stack.drop_last() =~= st.stack);
    assert(state_after(state_after(st, i_copy), i_drop) =~= st);
}

/// `Swap` applied twice in succession returns the top two stack values to
/// their original order: the whole state is unchanged.
pub proof fn lemma_swap_twice(st: VmState, i: StackInstr)
    requires
        i.op == StackByteCode::Swap,
        st.stack.len() >= 2,
    ensures
        can_handle(st, i),
        can_handle(state_after(st, i), i),
        state_after(state_after(st, i), i) == st,
{
    let st1 = state_after(st, i);
    assert(st1.stack.drop_last().drop_last() =~= st.stack.drop_last().drop_last());
    assert(state_after(st1, i).stack =~= st.stack);
    assert(state_after(st1, i) =~= st);
}

/// `Store` immediately followed by `Get` at the same address pushes back
/// exactly the value the `Store` consumed: the stack is as it was before the
/// pair, with that value still on top, and the memory holds it at the
/// address.
pub proof fn lemma_store_then_get(st: VmState, i_store: StackInstr, i_get: StackInstr)
    requires
        i_store.op == StackByteCode::Store,
        i_get.op == StackByteCode::Get,
        i_get.addr == i_store.addr,
        st.stack.len() >= 1,
        (i_store.addr as nat) < st.memory.len(),
    ensures
        can_handle(st, i_store),
        can_handle(state_after(st, i_store), i_get),
        state_after(state_after(st, i_store), i_get).stack == st.stack,
        state_after(state_after(st, i_store), i_get).stack.last() == st.stack.last(),
        state_after(state_after(st, i_store), i_get).memory == st.memory.update(
            i_store.addr as int,
            st.stack.last(),
        ),
{
    let st1 = state_after(st, i_store);
    assert(st1.memory[i_get.addr as int] == st.stack.last());
    assert(state_after(st1, i_get).stack =~= st.stack);
}

/// The halted flag is set by `Halt` alone and never cleared: executing an
/// instruction halts the machine exactly where it was already halted or the
/// instruction is `Halt`, and fetching never changes the flag. Together with
/// the run loop stopping at the first halted state, halting is terminal.
pub proof fn lemma_halted_only_by_halt(st: VmState, i: StackInstr, next: VmState)
    requires
        st.handle_rel(i, next),
    ensures
        next.halted == (st.halted || i.op == StackByteCode::Halt),
        st.fetch_next().halted == st.halted,
{
    if i.op == StackByteCode::Pow {
        let v = choose|v: u64| next == pow_after(st, v);
    }
}

/// Executing an instruction never changes the program or the constant pool:
/// there is no self-modifying code.
pub proof fn lemma_program_immutable(st: VmState, i: StackInstr, next: VmState)
    requires
        st.handle_rel(i, next),
    ensures
        next.program == st.program,
        next.consts == st.consts,
        st.fetch_next().program == st.program,
        st.fetch_next().consts == st.consts,
{
    if i.op == StackByteCode::Pow {
        let v = choose|v: u64| next == pow_after(st, v);
    }
}

/// Whether a program is free of `Pow`, the one instruction whose result the
/// platform leaves open.
pub open spec fn pow_free(program: Seq<StackInstr>) -> bool {
    forall|k: int| 0 <= k < program.len() ==> program[k].op != StackByteCode::Pow
}

/// A step of a machine whose program is free of `Pow` is single-valued.
pub proof fn lemma_pow_free_step_det(st: VmState)
    requires
        pow_free(st.program),
    ensures
        crate::vm_step_det::<StackInstr, VmError, VmState>(st),
{
    assert forall|s1: VmState, s2: VmState|
        crate::vm_step_rel::<StackInstr, VmError, VmState>(st, s1) && crate::vm_step_rel::<
            StackInstr,
            VmError,
            VmState,
        >(st, s2) implies s1 == s2 by {
        assert(st.fetch_instr().op != StackByteCode::Pow);
    }
}

/// Every run of a machine whose program is free of `Pow` is a run of
/// single-valued steps, and it keeps the program: for such programs the
/// whole deterministic run theory applies.
pub proof fn lemma_pow_free_runs_det(s: VmState, t: VmState, n: nat)
    requires
        pow_free(s.program),
        crate::vm_runs_to::<StackInstr, VmError, VmState>(s, t, n),
    ensures
        crate::vm_runs_det_to::<StackInstr, VmError, VmState>(s, t, n),
        t.program == s.program,
    decreases n,
{
    if n != 0 {
        let mid = choose|mid: VmState|
            {
                &&& crate::vm_runs_to::<StackInstr, VmError, VmState>(s, mid, (n - 1) as nat)
                &&& !mid.halted()
                &&& crate::vm_step_ok::<StackInstr, VmError, VmState>(mid)
                &&& crate::vm_step_rel::<StackInstr, VmError, VmState>(mid, t)
            };
        lemma_pow_free_runs_det(s, mid, (n - 1) as nat);
        lemma_pow_free_step_det(mid);
        lemma_program_immutable(mid.fetch_next(), mid.fetch_instr(), t);
        assert(crate::vm_runs_det_to::<StackInstr, VmError, VmState>(s, t, n));
    }
}

/// `EQ`, `LT` and `Not` always push exactly one of the bit patterns of the
/// two values 1.0 and 0.0, never any other value.
pub proof fn lemma_comparisons_push_bool(st: VmState, i: StackInstr)
    requires
        i.op == StackByteCode::EQ || i.op == StackByteCode::LT || i.op == StackByteCode::Not,
        can_handle(st, i),
    ensures
        state_after(st, i).stack.len() == st.stack.len() + 1 - pops_of(i.op),
        state_after(st, i).stack.last() == ONE_BITS || state_after(st, i).stack.last()
            == ZERO_BITS,
{
}

} // verus!
