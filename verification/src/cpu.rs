//! The cycle-accurate instruction engine: processor registers with their
//! status flags, operand location resolution per addressing mode, the opcode
//! dispatch, and the tick-by-tick execution state machine.
//!
//! The engine is either idle (no in-flight instruction) or executing one
//! in-flight [`Op`]. A tick while idle fetches the opcode at the program
//! counter, resolves its addressing mode and constructs the in-flight
//! instruction; a tick while executing only counts a cycle, and the
//! instruction's effect is committed exactly once, on the tick where the
//! elapsed cycles reach the instruction's budget. [`spec_tick`] is the full
//! functional model of one tick over a [`CpuView`].

use vstd::prelude::*;

use crate::memory::{mem_read_spec, mem_write_spec, Memory};

verus! {

/// The single-bit condition codes held in the processor-status byte.
#[derive(Clone, Copy, PartialEq, Eq, Structural)]
pub enum StatusFlags {
    C,
    Z,
    I,
    D,
    B,
    U,
    V,
    N,
}

impl StatusFlags {
    /// The fixed mask of this flag's bit in the status byte.
    pub open spec fn spec_mask(self) -> u8 {
        match self {
            StatusFlags::C => 0x01,
            StatusFlags::Z => 0x02,
            StatusFlags::I => 0x04,
            StatusFlags::D => 0x08,
            StatusFlags::B => 0x10,
            StatusFlags::U => 0x20,
            StatusFlags::V => 0x40,
            StatusFlags::N => 0x80,
        }
    }

    pub fn mask(self) -> (m: u8)
        ensures
            m == self.spec_mask(),
    {
        match self {
            StatusFlags::C => 0x01,
            StatusFlags::Z => 0x02,
            StatusFlags::I => 0x04,
            StatusFlags::D => 0x08,
            StatusFlags::B => 0x10,
            StatusFlags::U => 0x20,
            StatusFlags::V => 0x40,
            StatusFlags::N => 0x80,
        }
    }
}

/// The processor registers.
#[derive(Clone, Copy)]
pub struct Registers {
    pub pc: u16,
    pub sp: u8,
    pub a: u8,
    pub x: u8,
    pub y: u8,
    pub ps: u8,
}

impl Registers {
    /// Whether `flag` is set in the status byte.
    pub open spec fn spec_get_flag(self, flag: StatusFlags) -> bool {
        self.ps & flag.spec_mask() != 0
    }

    /// The registers after setting or clearing exactly the bit of `flag`.
    pub open spec fn spec_set_flag(self, flag: StatusFlags, is_set: bool) -> Registers {
        if is_set {
            Registers { ps: self.ps | flag.spec_mask(), ..self }
        } else {
            Registers { ps: self.ps & !flag.spec_mask(), ..self }
        }
    }

    pub fn get_flag(&self, flag: StatusFlags) -> (r: bool)
        ensures
            r == self.spec_get_flag(flag),
    {
        self.ps & flag.mask() > 0
    }

    /// Sets or clears one flag; no unrelated bit of the status byte moves.
    pub fn set_flag(&mut self, flag: StatusFlags, is_set: bool)
        ensures
            *final(self) == old(self).spec_set_flag(flag, is_set),
            final(self).spec_get_flag(flag) == is_set,
            forall|g: StatusFlags|
                g != flag ==> final(self).spec_get_flag(g) == old(self).spec_get_flag(g),
    {
        let ghost old_ps = self.ps;
        if is_set {
            self.ps = self.ps | flag.mask();
        } else {
            self.ps = self.ps & !flag.mask();
        }
        proof {
            lemma_flag_bit_own(old_ps, flag.spec_mask());
            assert forall|g: StatusFlags|
                g != flag implies self.spec_get_flag(g) == old(self).spec_get_flag(g) by {
                lemma_flag_bit_other(old_ps, flag.spec_mask(), g.spec_mask());
            }
        }
    }
}

/// Setting or clearing a single-bit mask drives exactly that bit.
proof fn lemma_flag_bit_own(ps: u8, m: u8)
    by (bit_vector)
    requires
        m == 0x01 || m == 0x02 || m == 0x04 || m == 0x08 || m == 0x10 || m == 0x20 || m == 0x40
            || m == 0x80,
    ensures
        (ps | m) & m != 0,
        (ps & !m) & m == 0,
{
}

/// Setting or clearing a single-bit mask leaves every other single bit alone.
proof fn lemma_flag_bit_other(ps: u8, m: u8, g: u8)
    by (bit_vector)
    requires
        m == 0x01 || m == 0x02 || m == 0x04 || m == 0x08 || m == 0x10 || m == 0x20 || m == 0x40
            || m == 0x80,
        g == 0x01 || g == 0x02 || g == 0x04 || g == 0x08 || g == 0x10 || g == 0x20 || g == 0x40
            || g == 0x80,
        m != g,
    ensures
        ((ps | m) & g != 0) == (ps & g != 0),
        ((ps & !m) & g != 0) == (ps & g != 0),
{
}

/// The resolved location of an instruction's operand: none at all (reading
/// or writing it is a wiring error, excluded by contract), the accumulator
/// register, or a 16-bit bus address.
#[derive(Clone, Copy)]
pub enum Value {
    Invalid,
    FromAccumulator,
    AtAddress(u16),
}

/// The ghost image of the whole engine: the raw memory bytes, the register
/// file, the global cycle counter and the in-flight instruction, if any.
pub ghost struct CpuView {
    pub mem: Seq<u8>,
    pub regs: Registers,
    pub cycle: nat,
    pub op: Option<Op>,
}

impl Value {
    /// The byte this location holds, given the engine image `c`.
    pub open spec fn spec_get(self, c: CpuView) -> u8 {
        match self {
            Value::Invalid => 0,
            Value::FromAccumulator => c.regs.a,
            Value::AtAddress(addr) => mem_read_spec(c.mem, addr),
        }
    }

    /// The engine image after storing `val` at this location.
    pub open spec fn spec_set(self, c: CpuView, val: u8) -> CpuView {
        match self {
            Value::Invalid => c,
            Value::FromAccumulator => CpuView { regs: Registers { a: val, ..c.regs }, ..c },
            Value::AtAddress(addr) => CpuView { mem: mem_write_spec(c.mem, addr, val), ..c },
        }
    }

    pub fn get(&self, cpu: &CPU) -> (r: u8)
        requires
            !(self is Invalid),
            cpu.wf(),
        ensures
            r == self.spec_get(cpu@),
    {
        match self {
            Value::FromAccumulator => cpu.registers.a,
            Value::AtAddress(addr) => cpu.memory.read8(*addr),
            Value::Invalid => unreached(),
        }
    }

    pub fn set(&self, cpu: &mut CPU, val: u8)
        requires
            !(self is Invalid),
            old(cpu).wf(),
        ensures
            final(cpu).wf(),
            final(cpu)@ == self.spec_set(old(cpu)@, val),
    {
        match self {
            Value::FromAccumulator => cpu.registers.a = val,
            Value::AtAddress(addr) => cpu.memory.write8(*addr, val),
            Value::Invalid => unreached(),
        }
    }
}

/// What resolving an addressing mode yields: the operand location, the total
/// cycle budget of the instruction, and how many operand bytes the program
/// counter must skip past the opcode.
pub struct AccessResult {
    pub value: Value,
    pub cycles: u8,
    pub pc_offset: u16,
}

/// The supported addressing modes: implied (no operand), accumulator,
/// immediate, zero-page, and zero-page indexed by X.
#[derive(Clone, Copy, PartialEq, Eq, Structural)]
pub enum AddressMode {
    Implied,
    Acc,
    Imm,
    Zp,
    Zpx,
}

/// How many operand bytes the program counter skips for `mode`.
pub open spec fn spec_pc_offset(mode: AddressMode) -> u16 {
    match mode {
        AddressMode::Implied => 0,
        AddressMode::Acc => 0,
        AddressMode::Imm => 1,
        AddressMode::Zp => 1,
        AddressMode::Zpx => 1,
    }
}

/// The operand location, cycle budget and operand-byte count that resolving
/// `mode` produces in the engine image `c` (with the program counter already
/// past the opcode byte).
pub open spec fn spec_resolve(mode: AddressMode, c: CpuView) -> AccessResult {
    match mode {
        AddressMode::Implied => AccessResult { value: Value::Invalid, cycles: 1, pc_offset: 0 },
        AddressMode::Acc => AccessResult { value: Value::FromAccumulator, cycles: 2, pc_offset: 0 },
        AddressMode::Imm => AccessResult {
            value: Value::AtAddress(c.regs.pc),
            cycles: 2,
            pc_offset: 1,
        },
        AddressMode::Zp => AccessResult {
            value: Value::AtAddress(mem_read_spec(c.mem, c.regs.pc) as u16),
            cycles: 3,
            pc_offset: 1,
        },
        AddressMode::Zpx => AccessResult {
            value: Value::AtAddress((mem_read_spec(c.mem, c.regs.pc) + c.regs.x) as u16),
            cycles: 4,
            pc_offset: 1,
        },
    }
}

impl AddressMode {
    /// Resolves this mode against the current engine state. The resolution
    /// itself changes nothing; the caller advances the program counter by
    /// the reported operand-byte count.
    pub fn read(&self, cpu: &mut CPU) -> (r: AccessResult)
        requires
            old(cpu).wf(),
        ensures
            *final(cpu) == *old(cpu),
            r == spec_resolve(*self, old(cpu)@),
    {
        match self {
            AddressMode::Implied => AccessResult { value: Value::Invalid, cycles: 1, pc_offset: 0 },
            AddressMode::Acc => AccessResult {
                value: Value::FromAccumulator,
                cycles: 2,
                pc_offset: 0,
            },
            AddressMode::Imm => AccessResult {
                value: Value::AtAddress(cpu.registers.pc),
                cycles: 2,
                pc_offset: 1,
            },
            AddressMode::Zp => AccessResult {
                value: Value::AtAddress(cpu.memory.read8(cpu.registers.pc) as u16),
                cycles: 3,
                pc_offset: 1,
            },
            AddressMode::Zpx => AccessResult {
                value: Value::AtAddress(
                    cpu.memory.read8(cpu.registers.pc) as u16 + cpu.registers.x as u16,
                ),
                cycles: 4,
                pc_offset: 1,
            },
        }
    }
}

/// The operations the dispatch table can pair with an addressing mode.
#[derive(Clone, Copy, PartialEq, Eq, Structural)]
pub enum Operation {
    Nop,
    Adc,
}

/// The dispatch entry for an opcode byte: which operation it performs and
/// through which addressing mode. Every one of the 256 byte values maps to
/// exactly one entry; bytes without a defined instruction fall back to a
/// one-cycle no-op.
pub open spec fn spec_decode(opcode: u8) -> (Operation, AddressMode) {
    if opcode == 0x69 {
        (Operation::Adc, AddressMode::Imm)
    } else if opcode == 0x56 {
        (Operation::Adc, AddressMode::Zp)
    } else if opcode == 0x57 {
        (Operation::Adc, AddressMode::Zpx)
    } else {
        (Operation::Nop, AddressMode::Implied)
    }
}

pub fn decode(opcode: u8) -> (r: (Operation, AddressMode))
    ensures
        r == spec_decode(opcode),
{
    match opcode {
        0x69 => (Operation::Adc, AddressMode::Imm),
        0x56 => (Operation::Adc, AddressMode::Zp),
        0x57 => (Operation::Adc, AddressMode::Zpx),
        _ => (Operation::Nop, AddressMode::Implied),
    }
}

/// An in-flight instruction: the operation to apply, its resolved operand
/// location, the cycles elapsed so far and the total cycle budget.
pub struct Op {
    pub operation: Operation,
    pub operand: Value,
    pub cycle: u8,
    pub total_cycles: u8,
}

/// The engine. The in-flight instruction and cycle counter are the
/// engine's own: every method keeps [`CPU::wf`], and the contracts speak of
/// the ghost image `self@` alone.
pub struct CPU {
    pub memory: Box<Memory>,
    pub registers: Registers,
    pub cycle: usize,
    pub op: Option<Op>,
}

impl View for CPU {
    type V = CpuView;

    closed spec fn view(&self) -> CpuView {
        CpuView {
            mem: self.memory@,
            regs: self.registers,
            cycle: self.cycle as nat,
            op: self.op,
        }
    }
}

impl Op {
    /// An in-flight instruction still has cycles to run, and an operation
    /// that uses its operand never carries the invalid location.
    pub open spec fn wf(self) -> bool {
        &&& self.cycle < self.total_cycles
        &&& (self.operation is Adc ==> !(self.operand is Invalid))
    }
}

/// The registers after an add-with-carry of the operand byte `m`: the wide
/// sum of accumulator, operand and carry-in decides the carry flag; the
/// truncated 8-bit result decides zero, two's-complement overflow and
/// negative, and lands in the accumulator.
pub open spec fn spec_adc_regs(regs: Registers, m: u8) -> Registers {
    let a = regs.a;
    let carry: int = if regs.spec_get_flag(StatusFlags::C) {
        1
    } else {
        0
    };
    let wide = a + m + carry;
    let res = (wide % 256) as u8;
    let r1 = regs.spec_set_flag(StatusFlags::C, wide > 0xFF);
    let r2 = r1.spec_set_flag(StatusFlags::Z, res == 0);
    let r3 = r2.spec_set_flag(StatusFlags::V, (m ^ res) & (res ^ a) & 0x80 != 0);
    let r4 = r3.spec_set_flag(StatusFlags::N, res & 0x80 != 0);
    Registers { a: res, ..r4 }
}

/// The engine image after committing `operation` against the resolved
/// operand location `operand`.
pub open spec fn spec_apply(operation: Operation, operand: Value, c: CpuView) -> CpuView {
    match operation {
        Operation::Nop => c,
        Operation::Adc => CpuView { regs: spec_adc_regs(c.regs, operand.spec_get(c)), ..c },
    }
}

/// Commits an add-with-carry against the resolved operand location.
fn adc(cpu: &mut CPU, arg: &Value)
    requires
        old(cpu).wf(),
        !(arg is Invalid),
    ensures
        final(cpu).wf(),
        final(cpu)@ == spec_apply(Operation::Adc, *arg, old(cpu)@),
{
    let base = cpu.registers.a as u16;
    let operand = arg.get(cpu) as u16;
    let mut result: u16 = base + operand;
    if cpu.registers.get_flag(StatusFlags::C) {
        result = result + 1;
    }

    cpu.registers.set_flag(StatusFlags::C, result > 0xFF);

    let operand8 = operand as u8;
    let result8 = result as u8;
    proof {
        assert(result as u8 == (result % 256) as u8) by (bit_vector);
    }
    cpu.registers.set_flag(StatusFlags::Z, result8 == 0);
    cpu.registers.set_flag(
        StatusFlags::V,
        (operand8 ^ result8) & (result8 ^ cpu.registers.a) & 0x80 != 0,
    );
    cpu.registers.set_flag(StatusFlags::N, result8 & 0x80 > 0);

    cpu.registers.a = result8;
}

impl Op {
    /// Constructs the in-flight instruction for `operation` under
    /// `addr_mode`: resolves the operand location, fixes the cycle budget,
    /// and advances the program counter past the operand bytes.
    fn new(cpu: &mut CPU, operation: Operation, addr_mode: AddressMode) -> (r: Op)
        requires
            old(cpu).wf(),
            old(cpu)@.regs.pc + spec_pc_offset(addr_mode) <= u16::MAX,
            operation is Adc ==> !(addr_mode is Implied),
        ensures
            final(cpu).wf(),
            final(cpu)@ == (CpuView {
                regs: Registers {
                    pc: (old(cpu)@.regs.pc + spec_pc_offset(addr_mode)) as u16,
                    ..old(cpu)@.regs
                },
                ..old(cpu)@
            }),
            r == (Op {
                operation,
                operand: spec_resolve(addr_mode, old(cpu)@).value,
                cycle: 0,
                total_cycles: spec_resolve(addr_mode, old(cpu)@).cycles,
            }),
            r.wf(),
    {
        let result = addr_mode.read(cpu);
        cpu.registers.pc = cpu.registers.pc + result.pc_offset;

        Op { operation, operand: result.value, total_cycles: result.cycles, cycle: 0 }
    }

    /// One clock cycle of this in-flight instruction. Counts the cycle;
    /// only when the count reaches the budget is the operation's effect
    /// committed, and `true` returned.
    fn tick(&mut self, cpu: &mut CPU) -> (done: bool)
        requires
            old(self).wf(),
            old(cpu).wf(),
        ensures
            final(self).operation == old(self).operation,
            final(self).operand == old(self).operand,
            final(self).total_cycles == old(self).total_cycles,
            final(self).cycle == old(self).cycle + 1,
            done == (old(self).cycle + 1 == old(self).total_cycles),
            final(cpu).wf(),
            done ==> final(cpu)@ == spec_apply(old(self).operation, old(self).operand, old(cpu)@),
            !done ==> final(cpu)@ == old(cpu)@ && final(self).wf(),
    {
        self.cycle = self.cycle + 1;
        if self.cycle < self.total_cycles {
            return false;
        }

        match self.operation {
            Operation::Nop => {},
            Operation::Adc => adc(cpu, &self.operand),
        }
        true
    }
}

/// The in-flight instruction and advanced program counter that fetching at
/// the current program counter produces: the opcode byte is read, the
/// program counter passes it, the dispatch entry is resolved, and the
/// program counter passes the operand bytes.
pub open spec fn spec_fetch(c: CpuView) -> (CpuView, Op) {
    let opcode = mem_read_spec(c.mem, c.regs.pc);
    let c1 = CpuView { regs: Registers { pc: (c.regs.pc + 1) as u16, ..c.regs }, ..c };
    let (operation, mode) = spec_decode(opcode);
    let res = spec_resolve(mode, c1);
    let c2 = CpuView { regs: Registers { pc: (c1.regs.pc + res.pc_offset) as u16, ..c1.regs }, ..c1 };
    (c2, Op { operation, operand: res.value, cycle: 0, total_cycles: res.cycles })
}

/// Whether a fetch at the current program counter stays inside the 16-bit
/// space: the opcode byte and its operand bytes must all lie below the top.
pub open spec fn spec_fetch_enabled(c: CpuView) -> bool {
    c.regs.pc + 1 + spec_pc_offset(spec_decode(mem_read_spec(c.mem, c.regs.pc)).1) <= u16::MAX
}

/// Whether one more tick is within the machine limits.
pub open spec fn spec_tick_enabled(c: CpuView) -> bool {
    &&& c.cycle + 1 <= usize::MAX
    &&& (c.op is None ==> spec_fetch_enabled(c))
}

/// One clock tick of the whole engine: while idle, fetch and construct the
/// in-flight instruction; then count one cycle of it, committing its effect
/// exactly when the count reaches the budget.
pub open spec fn spec_tick(c: CpuView) -> CpuView {
    let (c1, op0) = match c.op {
        Option::None => spec_fetch(c),
        Option::Some(op) => (c, op),
    };
    let op1 = Op { cycle: (op0.cycle + 1) as u8, ..op0 };
    if op1.cycle < op1.total_cycles {
        CpuView { cycle: c.cycle + 1, op: Option::Some(op1), ..c1 }
    } else {
        let c2 = spec_apply(op0.operation, op0.operand, c1);
        CpuView { cycle: c.cycle + 1, op: Option::None, ..c2 }
    }
}

/// `n` repeated ticks.
pub open spec fn spec_ticks(c: CpuView, n: nat) -> CpuView
    decreases n,
{
    if n == 0 {
        c
    } else {
        spec_ticks(spec_tick(c), (n - 1) as nat)
    }
}

/// Whether `n` repeated ticks stay within the machine limits throughout.
pub open spec fn spec_ticks_enabled(c: CpuView, n: nat) -> bool
    decreases n,
{
    n == 0 || (spec_tick_enabled(c) && spec_ticks_enabled(spec_tick(c), (n - 1) as nat))
}

impl CPU {
    pub closed spec fn wf(&self) -> bool {
        &&& self.memory.wf()
        &&& match self.op {
            Option::Some(op) => op.wf(),
            Option::None => true,
        }
    }

    pub fn new(memory: Box<Memory>) -> (r: CPU)
        requires
            memory.wf(),
        ensures
            r.wf(),
            r@.mem == memory@,
            r@.regs == (Registers { pc: 0u16, sp: 0u8, a: 0u8, x: 0u8, y: 0u8, ps: 0u8 }),
            r@.cycle == 0,
            r@.op is None,
    {
        CPU {
            memory,
            registers: Registers { pc: 0, sp: 0, a: 0, x: 0, y: 0, ps: 0 },
            cycle: 0,
            op: None,
        }
    }

    /// Fetches the opcode at the program counter and constructs the
    /// in-flight instruction for it.
    fn read_op(&mut self) -> (r: Op)
        requires
            old(self).wf(),
            spec_fetch_enabled(old(self)@),
        ensures
            final(self).wf(),
            final(self)@ == spec_fetch(old(self)@).0,
            r == spec_fetch(old(self)@).1,
            r.wf(),
    {
        let op_code = self.memory.read8(self.registers.pc);
        self.registers.pc = self.registers.pc + 1;
        let (operation, mode) = decode(op_code);
        Op::new(self, operation, mode)
    }

    /// Advances the engine by exactly one clock cycle.
    pub fn tick(&mut self)
        requires
            old(self).wf(),
            spec_tick_enabled(old(self)@),
        ensures
            final(self).wf(),
            final(self)@ == spec_tick(old(self)@),
    {
        if self.op.is_none() {
            let new_op = self.read_op();
            self.op = Some(new_op);
        }

        let cur_op = self.op.take();
        let mut op = cur_op.unwrap();
        if op.tick(self) {
            self.op = None;
        } else {
            self.op = Some(op);
        }

        self.cycle = self.cycle + 1;
    }

    /// Advances the engine by `n` repeated single ticks; no fast path skips
    /// an intermediate cycle.
    pub fn ticks(&mut self, n: usize)
        requires
            old(self).wf(),
            spec_ticks_enabled(old(self)@, n as nat),
        ensures
            final(self).wf(),
            final(self)@ == spec_ticks(old(self)@, n as nat),
    {
        let ghost orig = self@;
        let mut i: usize = 0;
        while i < n
            invariant
                self.wf(),
                0 <= i <= n,
                spec_ticks_enabled(self@, (n - i) as nat),
                spec_ticks(self@, (n - i) as nat) == spec_ticks(orig, n as nat),
            decreases n - i,
        {
            self.tick();
            i = i + 1;
        }
    }

    /// The ghost image's register file is the public `registers` field, so
    /// a verified caller can connect what `tick` guarantees about
    /// `self@.regs` to the registers it reads and writes.
    pub proof fn lemma_registers_view(&self)
        ensures
            self@.regs == self.registers,
    {
    }
}

/// Cycle accuracy, before the final tick: while an in-flight instruction
/// still has cycles to run after this tick, the tick changes nothing
/// observable — not the accumulator, not a flag, not the index or stack
/// registers, not the program counter, not a memory byte. The same
/// instruction stays in flight with one more cycle elapsed; only the cycle
/// counts move.
pub proof fn lemma_tick_mid_instruction(c: CpuView)
    requires
        c.op matches Some(op) && op.cycle + 1 < op.total_cycles,
    ensures
        spec_tick(c).regs == c.regs,
        spec_tick(c).regs.a == c.regs.a,
        spec_tick(c).regs.ps == c.regs.ps,
        spec_tick(c).regs.x == c.regs.x,
        spec_tick(c).regs.y == c.regs.y,
        spec_tick(c).regs.sp == c.regs.sp,
        spec_tick(c).regs.pc == c.regs.pc,
        spec_tick(c).mem == c.mem,
        spec_tick(c).cycle == c.cycle + 1,
        spec_tick(c).op matches Some(op1) && op1 == (Op {
            cycle: (c.op->Some_0.cycle + 1) as u8,
            ..c.op->Some_0
        }),
{
}

/// Cycle accuracy, on the final tick: when this tick exhausts the in-flight
/// instruction's budget, its semantic effect against the operand location
/// resolved at fetch time is committed on exactly this tick, and the engine
/// returns to idle, so the next tick fetches at the current program
/// counter. Nothing beyond that one effect changes.
pub proof fn lemma_tick_final_commits(c: CpuView)
    requires
        c.op matches Some(op) && op.cycle + 1 == op.total_cycles,
    ensures
        spec_tick(c).op is None,
        spec_tick(c).cycle == c.cycle + 1,
        spec_tick(c).regs == spec_apply(c.op->Some_0.operation, c.op->Some_0.operand, c).regs,
        spec_tick(c).mem == spec_apply(c.op->Some_0.operation, c.op->Some_0.operand, c).mem,
        c.op->Some_0.operation is Nop ==> spec_tick(c).regs == c.regs && spec_tick(c).mem == c.mem,
{
}

} // verus!
