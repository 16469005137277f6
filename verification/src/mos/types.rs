use vstd::prelude::*;

verus! {

/// One access of the processor to its address space, with the byte that went over the
/// data lines.
#[derive(Copy, Clone, Debug, PartialEq, Eq, Structural)]
pub enum Access {
    Read { address: u16, byte: u8 },
    Write { address: u16, byte: u8 },
}

impl Access {
    /// The byte that the access carried, whichever way it went.
    pub open spec fn byte(self) -> u8 {
        match self {
            Access::Read { byte, .. } => byte,
            Access::Write { byte, .. } => byte,
        }
    }
}

#[derive(Copy, Clone, Debug, PartialEq, Eq, Structural)]
pub struct Registers {
    pub pc: u16,
    pub sp: u8,
    pub acc: u8,
    pub idx: u8,
    pub idy: u8,
    pub ps: u8,
}

#[derive(Copy, Clone, Debug, PartialEq, Eq, Structural)]
pub enum Flag {
    Carry,
    Zero,
    InterruptDisable,
    DecimalMode,
    BreakCmd,
    Overflow,
    Negative,
}

#[derive(Copy, Clone, Debug, PartialEq, Eq, Structural)]
pub struct Context {
    /// No cycle of the last instruction is outstanding.
    pub complete: bool,
    /// Whether the decimal flag changes what ADC and SBC compute.
    pub decimal_enabled: bool,
    /// The instruction in flight pays for a page crossing with one more cycle.
    pub super_instruction: bool,
}

#[derive(Copy, Clone, Debug, PartialEq, Eq, Structural)]
pub struct Mos {
    pub registers: Registers,
    pub context: Context,
    /// Cycles of the instruction in flight that no tick has consumed yet.
    pub cycles: u64,
    /// Ticks seen so far, modulo 2^64.
    pub clock: u64,
}

#[derive(Copy, Clone, Debug, PartialEq, Eq, Structural)]
pub enum AddrMode {
    Implicit,
    Accumulator,
    Immediate,
    Zeropage,
    ZeropageX,
    ZeropageY,
    Relative,
    Absolute,
    AbsoluteX,
    AbsoluteY,
    Indirect,
    IndirectX,
    IndirectY,
}

/// The address space that a processor is wired to, together with the processor's own
/// state, which the host keeps for it.
///
/// The contracts speak of three things. `mos` is the processor's state. `trace` is the
/// list of all accesses made so far, oldest first: what the processor did is stated as
/// what it appended. `frozen` stands for everything on the bus that no access of the
/// processor and no change of its registers can alter.
///
/// The specification functions have bodies so that a bus written outside the verifier
/// need only supply the executable methods.
pub trait Bus {
    type Frozen;

    open spec fn inv(&self) -> bool {
        true
    }

    open spec fn mos(&self) -> Mos {
        arbitrary()
    }

    open spec fn trace(&self) -> Seq<Access> {
        Seq::empty()
    }

    open spec fn frozen(&self) -> Self::Frozen {
        arbitrary()
    }

    fn read_byte(&mut self, address: u16) -> (byte: u8)
        requires
            old(self).inv(),
        ensures
            final(self).inv(),
            final(self).mos() == old(self).mos(),
            final(self).frozen() == old(self).frozen(),
            final(self).trace() == old(self).trace().push(Access::Read { address, byte }),
    ;

    fn write_byte(&mut self, address: u16, byte: u8)
        requires
            old(self).inv(),
        ensures
            final(self).inv(),
            final(self).mos() == old(self).mos(),
            final(self).frozen() == old(self).frozen(),
            final(self).trace() == old(self).trace().push(Access::Write { address, byte }),
    ;

    /// Looks at a byte without the side effects of a read.
    fn peek_byte(&self, address: u16) -> (byte: u8)
        requires
            self.inv(),
    ;

    fn fetch_mos(&mut self) -> (mos: &mut Mos)
        ensures
            *mos == old(self).mos(),
            final(self).mos() == *final(mos),
            final(self).trace() == old(self).trace(),
            final(self).frozen() == old(self).frozen(),
            final(self).inv() == old(self).inv(),
    ;

    fn get_mos(&mut self) -> (mos: Mos)
        ensures
            mos == old(self).mos(),
            final(self).mos() == old(self).mos(),
            final(self).trace() == old(self).trace(),
            final(self).frozen() == old(self).frozen(),
            final(self).inv() == old(self).inv(),
    {
        *self.fetch_mos()
    }
}

/// Between the two only the processor's state changed, and it is now `mos`.
pub open spec fn only_mos<T: Bus + ?Sized>(before: &T, after: &T, mos: Mos) -> bool {
    &&& after.mos() == mos
    &&& after.trace() == before.trace()
    &&& after.frozen() == before.frozen()
    &&& after.inv() == before.inv()
}

pub fn new_mos() -> (mos: Mos)
    ensures
        mos == reset_state(),
{
    Mos {
        registers: Registers { pc: 0, sp: 0, acc: 0, idx: 0, idy: 0, ps: 0 },
        context: Context { complete: true, decimal_enabled: false, super_instruction: false },
        cycles: 0,
        clock: 0,
    }
}

/// A processor with every register at zero, no instruction in flight and decimal
/// arithmetic switched off.
pub open spec fn reset_state() -> Mos {
    Mos {
        registers: Registers { pc: 0, sp: 0, acc: 0, idx: 0, idy: 0, ps: 0 },
        context: Context { complete: true, decimal_enabled: false, super_instruction: false },
        cycles: 0,
        clock: 0,
    }
}

pub fn new() -> (mos: Mos)
    ensures
        mos == reset_state(),
{
    new_mos()
}

} // verus!
