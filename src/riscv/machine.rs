use vstd::prelude::*;

use super::decode::{decode, spec_decode};
use super::executors::spec_execute;

verus! {

/// The size of a machine's memory in bytes.
pub const MEM_SIZE: usize = 0x100_0000;

/// Why the machine could not carry out an instruction, with the offending value.
#[derive(Clone, Copy, Debug, PartialEq, Eq, Structural)]
pub enum Fault {
    /// the word decodes to the undefined sentinel
    UndefinedInstruction(u32),
    /// an access at this address would run past the end of memory
    MemoryOutOfRange(u32),
}

/// The little-endian halfword at `address`.
pub open spec fn spec_halfword(mem: Seq<u8>, address: int) -> u16 {
    (mem[address] + 0x100 * mem[address + 1]) as u16
}

/// The little-endian word at `address`.
pub open spec fn spec_word(mem: Seq<u8>, address: int) -> u32 {
    (mem[address] + 0x100 * mem[address + 1] + 0x1_0000 * mem[address + 2] + 0x100_0000
        * mem[address + 3]) as u32
}

/// `mem` with the halfword `value` written little-endian at `address`.
pub open spec fn spec_store_halfword(mem: Seq<u8>, address: int, value: u16) -> Seq<u8> {
    mem.update(address, (value % 0x100) as u8).update(address + 1, (value / 0x100) as u8)
}

/// `mem` with the word `value` written little-endian at `address`.
pub open spec fn spec_store_word(mem: Seq<u8>, address: int, value: u32) -> Seq<u8> {
    mem.update(address, (value % 0x100) as u8).update(address + 1, (value / 0x100 % 0x100) as u8).update(
        address + 2,
        (value / 0x1_0000 % 0x100) as u8,
    ).update(address + 3, (value / 0x100_0000) as u8)
}

/// A word stored little-endian reads back unchanged, and the bytes outside it are untouched.
pub proof fn lemma_store_load_word(mem: Seq<u8>, address: int, value: u32)
    requires
        0 <= address,
        address + 4 <= mem.len(),
    ensures
        spec_word(spec_store_word(mem, address, value), address) == value,
        forall|i: int|
            0 <= i < mem.len() && !(address <= i < address + 4) ==> #[trigger] spec_store_word(
                mem,
                address,
                value,
            )[i] == mem[i],
{
}

/// Linear byte-addressable memory.
#[derive(Debug)]
pub struct Memory {
    memory: Vec<u8>,
}

impl View for Memory {
    type V = Seq<u8>;

    closed spec fn view(&self) -> Seq<u8> {
        self.memory@
    }
}

impl Memory {
    /// `size` bytes of zeroed memory.
    pub fn new(size: usize) -> (r: Memory)
        ensures
            r@ == Seq::new(size as nat, |i: int| 0u8),
    {
        let memory = vec![0u8; size];
        let r = Memory { memory };
        assert(r@ =~= Seq::new(size as nat, |i: int| 0u8));
        r
    }

    /// The number of bytes of memory.
    pub fn len(&self) -> (r: usize)
        ensures
            r == self@.len(),
    {
        self.memory.len()
    }

    pub fn load_byte(&self, address: usize) -> (r: u8)
        requires
            address < self@.len(),
        ensures
            r == self@[address as int],
    {
        self.memory[address]
    }

    pub fn load_halfword(&self, address: usize) -> (r: u16)
        requires
            address + 2 <= self@.len(),
        ensures
            r == spec_halfword(self@, address as int),
    {
        let _ = self.len();
        let lower_byte = self.load_byte(address) as u16;
        let upper_byte = self.load_byte(address + 1) as u16;
        lower_byte + 0x100 * upper_byte
    }

    pub fn load_word(&self, address: usize) -> (r: u32)
        requires
            address + 4 <= self@.len(),
        ensures
            r == spec_word(self@, address as int),
    {
        let _ = self.len();
        let lower_halfword = self.load_halfword(address) as u32;
        let upper_halfword = self.load_halfword(address + 2) as u32;
        lower_halfword + 0x1_0000 * upper_halfword
    }

    pub fn store_byte(&mut self, address: usize, value: u8)
        requires
            address < old(self)@.len(),
        ensures
            final(self)@ == old(self)@.update(address as int, value),
    {
        self.memory.set(address, value);
    }

    pub fn store_halfword(&mut self, address: usize, value: u16)
        requires
            address + 2 <= old(self)@.len(),
        ensures
            final(self)@ == spec_store_halfword(old(self)@, address as int, value),
    {
        let _ = self.len();
        let lower_byte = (value % 0x100) as u8;
        let upper_byte = (value / 0x100) as u8;
        self.store_byte(address, lower_byte);
        self.store_byte(address + 1, upper_byte);
    }

    pub fn store_word(&mut self, address: usize, value: u32)
        requires
            address + 4 <= old(self)@.len(),
        ensures
            final(self)@ == spec_store_word(old(self)@, address as int, value),
    {
        let _ = self.len();
        let lower_halfword = (value % 0x1_0000) as u16;
        let upper_halfword = (value / 0x1_0000) as u16;
        self.store_halfword(address, lower_halfword);
        self.store_halfword(address + 2, upper_halfword);
    }
}

/// The register file after writing `value` to register `register`: a write to register 0 is
/// discarded.
pub open spec fn spec_set_register(regs: Seq<u32>, register: int, value: u32) -> Seq<u32> {
    if register == 0 {
        regs
    } else {
        regs.update(register, value)
    }
}

/// The 32 general registers; register 0 is hardwired to zero.
#[derive(Debug)]
pub struct Registers {
    x: [u32; 32],
}

impl View for Registers {
    type V = Seq<u32>;

    /// The values that the 32 registers read as.
    closed spec fn view(&self) -> Seq<u32> {
        Seq::new(32, |i: int| if i == 0 { 0u32 } else { self.x@[i] })
    }
}

/// Every register file holds 32 registers, and register 0 reads zero.
pub broadcast proof fn lemma_registers_view(regs: &Registers)
    ensures
        #[trigger] regs@.len() == 32,
        regs@[0] == 0,
{
}

/// Register zero reads zero in every state: a write to it is discarded, and a write to any
/// other register leaves it alone.
pub proof fn lemma_register_zero(regs: &Registers, register: int, value: u32)
    requires
        0 <= register < 32,
    ensures
        spec_set_register(regs@, register, value)[0] == 0,
        spec_set_register(regs@, 0, value) == regs@,
{
}

impl Registers {
    /// Registers that all read zero.
    pub fn new() -> (r: Registers)
        ensures
            r@ == Seq::new(32, |i: int| 0u32),
    {
        let r = Registers { x: [0u32; 32] };
        assert(r@ =~= Seq::new(32, |i: int| 0u32));
        r
    }

    pub fn get(&self, register: usize) -> (r: u32)
        requires
            register < 32,
        ensures
            r == self@[register as int],
            register == 0 ==> r == 0,
    {
        if register == 0 {
            0
        } else {
            self.x[register]
        }
    }

    pub fn set(&mut self, register: usize, value: u32)
        requires
            register < 32,
        ensures
            final(self)@ == spec_set_register(old(self)@, register as int, value),
    {
        if register != 0 {
            self.x[register] = value;
        }
        assert(final(self)@ =~= spec_set_register(old(self)@, register as int, value));
    }
}

/// What a machine is: program counter, register values and memory bytes.
pub struct MachineState {
    pub pc: u32,
    pub regs: Seq<u32>,
    pub mem: Seq<u8>,
}

/// A single hart: program counter, registers and memory.
#[derive(Debug)]
pub struct Machine {
    pub pc: u32,
    pub registers: Registers,
    pub memory: Memory,
}

impl View for Machine {
    type V = MachineState;

    open spec fn view(&self) -> MachineState {
        MachineState { pc: self.pc, regs: self.registers@, mem: self.memory@ }
    }
}

/// The word at the program counter, or a fault where it would run past memory.
pub open spec fn spec_fetch(s: MachineState) -> Result<u32, Fault> {
    if s.pc + 4 <= s.mem.len() {
        Ok(spec_word(s.mem, s.pc as int))
    } else {
        Err(Fault::MemoryOutOfRange(s.pc))
    }
}

/// One fetch-decode-execute cycle.
pub open spec fn spec_cycle(s: MachineState) -> Result<MachineState, Fault> {
    match spec_fetch(s) {
        Ok(w) => spec_execute(spec_decode(w), w, s),
        Err(e) => Err(e),
    }
}

/// `n` cycles, stopping at the first fault.
pub open spec fn spec_cycles(s: MachineState, n: nat) -> Result<MachineState, Fault>
    decreases n,
{
    if n == 0 {
        Ok(s)
    } else {
        match spec_cycle(s) {
            Ok(next) => spec_cycles(next, (n - 1) as nat),
            Err(e) => Err(e),
        }
    }
}

impl Default for Machine {
    /// A machine with pc 0, zeroed registers and `MEM_SIZE` bytes of zeroed memory.
    fn default() -> (r: Self)
        ensures
            r.pc == 0,
            r.registers@ == Seq::new(32, |i: int| 0u32),
            r.memory@ == Seq::new(MEM_SIZE as nat, |i: int| 0u8),
    {
        Machine { pc: 0, registers: Registers::new(), memory: Memory::new(MEM_SIZE) }
    }
}

impl Machine {
    /// Runs `cycles` cycles; stops at the first fault and returns it. The machine holds the
    /// state before the faulting instruction.
    pub fn cycles(&mut self, cycles: usize) -> (r: Result<(), Fault>)
        ensures
            match spec_cycles(old(self)@, cycles as nat) {
                Ok(s) => r is Ok && final(self)@ == s,
                Err(e) => r == Err::<(), Fault>(e),
            },
    {
        let mut i: usize = 0;
        while i < cycles
            invariant
                i <= cycles,
                spec_cycles(old(self)@, cycles as nat) == spec_cycles(self@, (cycles - i) as nat),
            decreases cycles - i,
        {
            let ghost before = self@;
            match self.cycle() {
                Ok(()) => {},
                Err(e) => {
                    return Err(e);
                },
            }
            assert(spec_cycles(before, (cycles - i) as nat) == spec_cycles(
                self@,
                (cycles - i - 1) as nat,
            ));
            i = i + 1;
        }
        Ok(())
    }

    /// Fetches the word at the program counter, decodes it and executes it. On a fault the
    /// machine is left as it was.
    pub fn cycle(&mut self) -> (r: Result<(), Fault>)
        ensures
            match spec_cycle(old(self)@) {
                Ok(s) => r is Ok && final(self)@ == s,
                Err(e) => r == Err::<(), Fault>(e) && final(self)@ == old(self)@,
            },
    {
        let instruction = match self.fetch() {
            Ok(w) => w,
            Err(e) => {
                return Err(e);
            },
        };
        decode(instruction).exec(self, instruction)
    }

    fn fetch(&self) -> (r: Result<u32, Fault>)
        ensures
            r == spec_fetch(self@),
    {
        let len = self.memory.len();
        if self.pc as usize <= usize::MAX - 4 && self.pc as usize + 4 <= len {
            Ok(self.memory.load_word(self.pc as usize))
        } else {
            Err(Fault::MemoryOutOfRange(self.pc))
        }
    }
}

} // verus!
