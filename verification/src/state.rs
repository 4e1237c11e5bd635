//! The machine state: sixteen 32-bit registers (register 15 is the program
//! counter), four condition flags, and a fixed 32 KiB byte memory with
//! little-endian word accessors.

use vstd::prelude::*;
use crate::outcome::LoadError;

verus! {

broadcast use vstd::array::group_array_axioms;

/// Size of the machine's memory in bytes.
pub const MEMSIZE: usize = 0x8000;

/// The register aliased as the program counter.
pub const PC: u32 = 15;

/// The mathematical model of a machine state: the registers, the four
/// condition flags, and the memory bytes.
#[verifier::ext_equal]
pub ghost struct State {
    pub regs: Seq<u32>,
    pub n: bool,
    pub z: bool,
    pub c: bool,
    pub v: bool,
    pub mem: Seq<u8>,
}

impl State {
    /// A state shaped like a real machine: 16 registers and `MEMSIZE` bytes.
    pub open spec fn wf(self) -> bool {
        self.regs.len() == 16 && self.mem.len() == MEMSIZE
    }

    /// This state with register `reg` set to `val`.
    pub open spec fn with_reg(self, reg: u32, val: u32) -> State {
        State { regs: self.regs.update(reg as int, val), ..self }
    }
}

/// The word stored little-endian at byte offset `loc` of `m`.
pub open spec fn word_at(m: Seq<u8>, loc: int) -> u32
    recommends
        0 <= loc,
        loc + 4 <= m.len(),
{
    (m[loc] as int + m[loc + 1] as int * 0x100 + m[loc + 2] as int * 0x10000 + m[loc + 3] as int
        * 0x1000000) as u32
}

/// `m` with the word `val` stored little-endian at byte offset `loc`.
pub open spec fn mem_with_word(m: Seq<u8>, loc: int, val: u32) -> Seq<u8>
    recommends
        0 <= loc,
        loc + 4 <= m.len(),
{
    m.update(loc, (val % 0x100) as u8).update(loc + 1, ((val / 0x100) % 0x100) as u8).update(
        loc + 2,
        ((val / 0x10000) % 0x100) as u8,
    ).update(loc + 3, ((val / 0x1000000) % 0x100) as u8)
}

/// `mem` with the bytes of `image` copied in from offset 0.
pub open spec fn load_bytes(mem: Seq<u8>, image: Seq<u8>) -> Seq<u8>
    recommends
        image.len() <= mem.len(),
{
    Seq::new(mem.len(), |i: int| if i < image.len() { image[i] } else { mem[i] })
}

/// The flags packed into one word: N, Z, C, V at bits 15, 14, 13, 12.
pub open spec fn flags_value(s: State) -> u32 {
    (if s.n { 0x8000u32 } else { 0u32 }) | (if s.z { 0x4000u32 } else { 0u32 }) | (if s.c {
        0x2000u32
    } else {
        0u32
    }) | (if s.v { 0x1000u32 } else { 0u32 })
}

/// The four condition flags.
pub struct Cpsr {
    pub n: bool,
    pub z: bool,
    pub c: bool,
    pub v: bool,
}

/// The machine: registers, flags and memory, owned by one run.
pub struct CPU {
    pub registers: [u32; 16],
    pub cpsr: Cpsr,
    pub memory: Vec<u8>,
}

impl View for CPU {
    type V = State;

    open spec fn view(&self) -> State {
        State {
            regs: self.registers@,
            n: self.cpsr.n,
            z: self.cpsr.z,
            c: self.cpsr.c,
            v: self.cpsr.v,
            mem: self.memory@,
        }
    }
}

impl CPU {
    /// The machine's one structural invariant: memory never grows or shrinks.
    pub open spec fn wf(&self) -> bool {
        self@.wf()
    }

    /// A machine with all registers zero, all flags clear, and zeroed memory.
    pub fn new() -> (cpu: CPU)
        ensures
            cpu.wf(),
            cpu@.regs =~= Seq::new(16, |i: int| 0u32),
            cpu@.mem =~= Seq::new(MEMSIZE as nat, |i: int| 0u8),
            !cpu@.n && !cpu@.z && !cpu@.c && !cpu@.v,
    {
        let mut memory: Vec<u8> = Vec::new();
        let mut i: usize = 0;
        while i < MEMSIZE
            invariant
                i <= MEMSIZE,
                memory@.len() == i,
                forall|j: int| 0 <= j < i ==> memory@[j] == 0u8,
            decreases MEMSIZE - i,
        {
            memory.push(0u8);
            i = i + 1;
        }
        CPU { registers: [0u32; 16], cpsr: Cpsr { n: false, z: false, c: false, v: false }, memory }
    }

    /// Get the value stored in register `reg`.
    pub fn get_register(&self, reg: u32) -> (r: u32)
        requires
            reg < 16,
        ensures
            r == self@.regs[reg as int],
    {
        self.registers[reg as usize]
    }

    /// Set register `reg` to `val`.
    pub fn set_register(&mut self, reg: u32, val: u32)
        requires
            reg < 16,
        ensures
            final(self)@ == old(self)@.with_reg(reg, val),
    {
        self.registers[reg as usize] = val;
    }

    /// Get the little-endian word at byte offset `loc` of memory. The caller
    /// is responsible for bounds; alignment is not required.
    pub fn get_mem_word(&self, loc: usize) -> (r: u32)
        requires
            self.wf(),
            loc + 4 <= MEMSIZE,
        ensures
            r == word_at(self@.mem, loc as int),
    {
        let b0: u32 = self.memory[loc] as u32;
        let b1: u32 = self.memory[loc + 1] as u32;
        let b2: u32 = self.memory[loc + 2] as u32;
        let b3: u32 = self.memory[loc + 3] as u32;
        b0 + b1 * 0x100 + b2 * 0x10000 + b3 * 0x1000000
    }

    /// Store `val` little-endian at byte offset `loc` of memory.
    pub fn set_mem_word(&mut self, loc: usize, val: u32)
        requires
            old(self).wf(),
            loc + 4 <= MEMSIZE,
        ensures
            final(self).wf(),
            final(self)@ == (State {
                mem: mem_with_word(old(self)@.mem, loc as int, val),
                ..old(self)@
            }),
    {
        self.memory[loc] = (val % 0x100) as u8;
        self.memory[loc + 1] = ((val / 0x100) % 0x100) as u8;
        self.memory[loc + 2] = ((val / 0x10000) % 0x100) as u8;
        self.memory[loc + 3] = ((val / 0x1000000) % 0x100) as u8;
    }

    /// The flags packed into one word: N, Z, C, V at bits 15, 14, 13, 12.
    pub fn flags_word(&self) -> (r: u32)
        ensures
            r == flags_value(self@),
    {
        (if self.cpsr.n { 0x8000u32 } else { 0u32 }) | (if self.cpsr.z { 0x4000u32 } else { 0u32 })
            | (if self.cpsr.c { 0x2000u32 } else { 0u32 }) | (if self.cpsr.v {
            0x1000u32
        } else {
            0u32
        })
    }

    /// Copy a binary image byte-for-byte to memory offset 0. An image that
    /// does not fit below the memory size is rejected and nothing changes.
    pub fn load_image(&mut self, image: &Vec<u8>) -> (r: Result<(), LoadError>)
        requires
            old(self).wf(),
        ensures
            final(self).wf(),
            r is Ok <==> image@.len() < MEMSIZE,
            r is Ok ==> final(self)@ == (State {
                mem: load_bytes(old(self)@.mem, image@),
                ..old(self)@
            }),
            r is Err ==> final(self)@ == old(self)@,
    {
        if image.len() < MEMSIZE {
            let mut i: usize = 0;
            while i < image.len()
                invariant
                    old(self).wf(),
                    i <= image@.len(),
                    image@.len() < MEMSIZE,
                    self.registers == old(self).registers,
                    self.cpsr == old(self).cpsr,
                    self.memory@.len() == MEMSIZE,
                    forall|j: int| 0 <= j < i ==> self.memory@[j] == image@[j],
                    forall|j: int| i <= j < MEMSIZE ==> self.memory@[j] == old(self).memory@[j],
                decreases image@.len() - i,
            {
                self.memory[i] = image[i];
                i = i + 1;
            }
            proof {
                assert(self@.mem =~= load_bytes(old(self)@.mem, image@));
                assert(self@ =~= (State { mem: load_bytes(old(self)@.mem, image@), ..old(self)@ }));
            }
            Ok(())
        } else {
            Err(LoadError::ImageTooLarge)
        }
    }
}

} // verus!
