//! The machine state and the interpreter that steps it.
use vstd::prelude::*;
use vstd::arithmetic::div_mod::{lemma_fundamental_div_mod, lemma_mod_multiples_vanish, lemma_small_mod};
use crate::font::{font_set, font_spec, GLYPH_BYTES};
use crate::instruction::{decode, decode_spec, Instruction};
use crate::random::random_byte;

verus! {

/// Bytes of addressable memory.
pub const MEMORY_SIZE: usize = 4096;

/// Address at which a program is loaded and execution starts.
pub const PROGRAM_START: u16 = 0x200;

/// The largest program image that fits between `PROGRAM_START` and the end of memory.
pub const PROGRAM_CAPACITY: usize = 3584;

/// Width of the framebuffer in pixels.
pub const SCREEN_WIDTH: usize = 64;

/// Height of the framebuffer in pixels.
pub const SCREEN_HEIGHT: usize = 32;

/// Pixels in the framebuffer.
pub const SCREEN_PIXELS: usize = 2048;

/// Register `VF`, which carries the carry, borrow and collision flags.
pub const FLAG_REGISTER: usize = 15;

/// What can go wrong when a program is loaded or a cycle is run.
#[derive(Clone, Copy, Debug, PartialEq, Eq, Structural)]
pub enum Chip8Error {
    /// The program image is longer than `PROGRAM_CAPACITY` bytes.
    RomTooLarge { len: usize },
    /// The opcode at `address` names no instruction.
    UnknownOpcode { opcode: u16, address: u16 },
    /// A return was executed with no call pending.
    StackUnderflow,
    /// A call was executed with sixteen calls already pending.
    StackOverflow,
    /// An access starting at `address` would reach past the end of memory.
    MemoryOutOfRange { address: u16 },
    /// A key instruction named a key above `0xF`.
    KeyOutOfRange { key: u8 },
}

/// The mathematical picture of a machine.
#[verifier::ext_equal]
pub struct MachineState {
    pub memory: Seq<u8>,
    pub v: Seq<u8>,
    pub index: u16,
    pub pc: u16,
    pub gfx: Seq<u8>,
    pub delay_timer: u8,
    pub sound_timer: u8,
    pub stack: Seq<u16>,
    pub sp: u16,
    pub keys: Seq<bool>,
    pub draw: bool,
    pub beep: bool,
}

impl MachineState {
    /// Sizes are those of the machine, at most sixteen calls are pending, and
    /// every return address lies in memory.
    pub open spec fn wf(self) -> bool {
        &&& self.memory.len() == MEMORY_SIZE
        &&& self.v.len() == 16
        &&& self.gfx.len() == SCREEN_PIXELS
        &&& self.stack.len() == 16
        &&& self.keys.len() == 16
        &&& self.sp <= 16
        &&& forall|i: int| 0 <= i < 16 ==> self.stack[i] < 0x1000
    }
}

/// Memory right after loading `rom`: the font at the bottom, the program at
/// `PROGRAM_START`, zeros elsewhere.
pub open spec fn initial_memory(rom: Seq<u8>) -> Seq<u8> {
    Seq::new(
        MEMORY_SIZE as nat,
        |a: int|
            if a < 80 {
                font_spec()[a]
            } else if PROGRAM_START <= a < PROGRAM_START + rom.len() {
                rom[a - PROGRAM_START]
            } else {
                0u8
            },
    )
}

/// The machine right after loading `rom`.
pub open spec fn initial_state(rom: Seq<u8>) -> MachineState {
    MachineState {
        memory: initial_memory(rom),
        v: Seq::new(16, |i: int| 0u8),
        index: 0,
        pc: PROGRAM_START,
        gfx: Seq::new(SCREEN_PIXELS as nat, |i: int| 0u8),
        delay_timer: 0,
        sound_timer: 0,
        stack: Seq::new(16, |i: int| 0u16),
        sp: 0,
        keys: Seq::new(16, |i: int| false),
        draw: false,
        beep: false,
    }
}

/// The big-endian opcode at the program counter.
pub open spec fn opcode_at(s: MachineState) -> u16 {
    (s.memory[s.pc as int] * 256 + s.memory[s.pc + 1]) as u16
}

/// One timer tick: both timers count down toward zero, and the beep sounds
/// on the tick that takes the sound timer from 1 to 0.
pub open spec fn tick(s: MachineState) -> MachineState {
    MachineState {
        delay_timer: if s.delay_timer > 0 { (s.delay_timer - 1) as u8 } else { 0 },
        sound_timer: if s.sound_timer > 0 { (s.sound_timer - 1) as u8 } else { 0 },
        beep: s.sound_timer == 1,
        ..s
    }
}

/// The machine with its program counter past the current instruction.
pub open spec fn advance(s: MachineState) -> MachineState {
    MachineState { pc: (s.pc + 2) as u16, ..s }
}

/// The machine with its program counter past the current instruction, and
/// past the next one too where `cond` holds.
pub open spec fn skip_if(s: MachineState, cond: bool) -> MachineState {
    MachineState { pc: (if cond { s.pc + 4 } else { s.pc + 2 }) as u16, ..s }
}

/// `VX = val`, then on to the next instruction.
pub open spec fn set_reg(s: MachineState, x: u8, val: u8) -> MachineState {
    advance(MachineState { v: s.v.update(x as int, val), ..s })
}

/// `VX = val`, then `VF = flag`, then on to the next instruction. Where `X`
/// is `F` the flag is what remains.
pub open spec fn set_reg_flag(s: MachineState, x: u8, val: u8, flag: u8) -> MachineState {
    advance(MachineState { v: s.v.update(x as int, val).update(FLAG_REGISTER as int, flag), ..s })
}

/// Bit `col` of a sprite row, counted from the most significant bit.
pub open spec fn sprite_bit(row: u8, col: u8) -> bool {
    row & (0x80u8 >> col) != 0
}

/// The framebuffer index that sprite cell `(row, col)` lands on when the
/// sprite is drawn at `(x, y)`: row-major, wrapped modulo the pixel count.
pub open spec fn pixel_target(x: u8, y: u8, row: int, col: int) -> int {
    (x + col + (y + row) * SCREEN_WIDTH) % (SCREEN_PIXELS as int)
}

/// How far pixel `p` lies past the sprite origin `(x, y)`, in row-major
/// order and modulo the pixel count: `col + 64 * row` for the cell that
/// lands on `p`.
pub open spec fn sprite_offset(x: u8, y: u8, p: int) -> int {
    (p - x - y * SCREEN_WIDTH) % (SCREEN_PIXELS as int)
}

/// The position of the sprite cell that lands on pixel `p`, counted row by
/// row, eight cells to a row.
pub open spec fn sprite_cell(x: u8, y: u8, p: int) -> int {
    let d = sprite_offset(x, y, p);
    (d / (SCREEN_WIDTH as int)) * 8 + d % (SCREEN_WIDTH as int)
}

/// The pixel that sprite cell `(row, col)` lands on has that cell's offset,
/// and no other pixel has it.
proof fn lemma_sprite_target(x: u8, y: u8, row: int, col: int)
    requires
        0 <= row < 16,
        0 <= col < 8,
    ensures
        0 <= pixel_target(x, y, row, col) < SCREEN_PIXELS,
        sprite_offset(x, y, pixel_target(x, y, row, col)) % 64 == col,
        sprite_offset(x, y, pixel_target(x, y, row, col)) / 64 == row,
        forall|p: int|
            0 <= p < SCREEN_PIXELS && p != pixel_target(x, y, row, col) ==> !(sprite_offset(x, y, p) % 64
                == col && sprite_offset(x, y, p) / 64 == row),
{
    let a = x + col + (y + row) * 64;
    let t = pixel_target(x, y, row, col);
    let b = col + 64 * row;
    lemma_fundamental_div_mod(a, 2048);
    let q = a / 2048;
    assert(t - x - y * 64 == 2048 * (-q) + b);
    lemma_mod_multiples_vanish(-q, b, 2048);
    lemma_small_mod(b as nat, 2048);
    assert(sprite_offset(x, y, t) == b);
    lemma_fundamental_div_mod(b, 64);
    assert(b % 64 == col && b / 64 == row) by {
        lemma_mod_multiples_vanish(row, col, 64);
        lemma_small_mod(col as nat, 64);
    }
    assert forall|p: int|
        0 <= p < SCREEN_PIXELS && sprite_offset(x, y, p) % 64 == col && sprite_offset(x, y, p) / 64
            == row implies p == t by {
        let e = p - x - y * 64;
        let d = sprite_offset(x, y, p);
        lemma_fundamental_div_mod(d, 64);
        assert(d == b);
        lemma_fundamental_div_mod(e, 2048);
        let k = e / 2048;
        assert(a == 2048 * (-k) + p);
        lemma_mod_multiples_vanish(-k, p, 2048);
        lemma_small_mod(p as nat, 2048);
    }
}

/// Whether the `n`-row sprite at `memory[index..]`, drawn at `(x, y)`, has a
/// set bit on pixel `p`.
pub open spec fn sprite_covers(memory: Seq<u8>, index: u16, x: u8, y: u8, n: u8, p: int) -> bool {
    let d = sprite_offset(x, y, p);
    &&& d % (SCREEN_WIDTH as int) < 8
    &&& d / (SCREEN_WIDTH as int) < n
    &&& sprite_bit(memory[index + d / (SCREEN_WIDTH as int)], (d % (SCREEN_WIDTH as int)) as u8)
}

/// The framebuffer after the sprite is XORed onto it.
pub open spec fn drawn(gfx: Seq<u8>, memory: Seq<u8>, index: u16, x: u8, y: u8, n: u8) -> Seq<u8> {
    Seq::new(
        SCREEN_PIXELS as nat,
        |p: int| if sprite_covers(memory, index, x, y, n, p) { gfx[p] ^ 1 } else { gfx[p] },
    )
}

/// Whether the sprite covers a pixel that is lit.
pub open spec fn collides(gfx: Seq<u8>, memory: Seq<u8>, index: u16, x: u8, y: u8, n: u8) -> bool {
    exists|p: int| 0 <= p < SCREEN_PIXELS && sprite_covers(memory, index, x, y, n, p) && gfx[p] == 1
}

/// Whether `len` bytes from `start` lie in memory.
pub open spec fn in_memory(start: u16, len: int) -> bool {
    len == 0 || start + len <= MEMORY_SIZE
}

/// What one instruction does to the machine, or the error it stops with,
/// `rnd` being the random byte that `CXNN` uses. The program counter is
/// that of the instruction.
pub open spec fn execute_spec(s: MachineState, ins: Instruction, rnd: u8) -> Result<MachineState, Chip8Error> {
    match ins {
        Instruction::ClearScreen => Ok(
            advance(MachineState { gfx: Seq::new(SCREEN_PIXELS as nat, |p: int| 0u8), draw: true, ..s }),
        ),
        Instruction::Return => if s.sp == 0 {
            Err(Chip8Error::StackUnderflow)
        } else {
            Ok(MachineState { sp: (s.sp - 1) as u16, pc: (s.stack[s.sp - 1] + 2) as u16, ..s })
        },
        Instruction::Jump { nnn } => Ok(MachineState { pc: nnn, ..s }),
        Instruction::Call { nnn } => if s.sp >= 16 {
            Err(Chip8Error::StackOverflow)
        } else {
            Ok(MachineState { stack: s.stack.update(s.sp as int, s.pc), sp: (s.sp + 1) as u16, pc: nnn, ..s })
        },
        Instruction::SkipEqImm { x, nn } => Ok(skip_if(s, s.v[x as int] == nn)),
        Instruction::SkipNeImm { x, nn } => Ok(skip_if(s, s.v[x as int] != nn)),
        Instruction::SkipEqReg { x, y } => Ok(skip_if(s, s.v[x as int] == s.v[y as int])),
        Instruction::LoadImm { x, nn } => Ok(set_reg(s, x, nn)),
        Instruction::AddImm { x, nn } => Ok(set_reg(s, x, ((s.v[x as int] + nn) % 256) as u8)),
        Instruction::Move { x, y } => Ok(set_reg(s, x, s.v[y as int])),
        Instruction::Or { x, y } => Ok(set_reg(s, x, s.v[x as int] | s.v[y as int])),
        Instruction::And { x, y } => Ok(set_reg(s, x, s.v[x as int] & s.v[y as int])),
        Instruction::Xor { x, y } => Ok(set_reg(s, x, s.v[x as int] ^ s.v[y as int])),
        Instruction::AddReg { x, y } => {
            let sum = s.v[x as int] + s.v[y as int];
            Ok(set_reg_flag(s, x, (sum % 256) as u8, if sum > 255 { 1 } else { 0 }))
        },
        Instruction::SubReg { x, y } => {
            let (vx, vy) = (s.v[x as int], s.v[y as int]);
            Ok(set_reg_flag(s, x, ((vx - vy) % 256) as u8, if vx < vy { 0 } else { 1 }))
        },
        Instruction::ShiftRight { x, y } => {
            let vx = s.v[x as int];
            Ok(set_reg_flag(s, x, vx / 2, vx % 2))
        },
        Instruction::SubReverse { x, y } => {
            let (vx, vy) = (s.v[x as int], s.v[y as int]);
            Ok(set_reg_flag(s, x, ((vy - vx) % 256) as u8, if vy < vx { 0 } else { 1 }))
        },
        Instruction::ShiftLeft { x, y } => {
            let vx = s.v[x as int];
            Ok(set_reg_flag(s, x, ((vx * 2) % 256) as u8, vx / 128))
        },
        Instruction::SkipNeReg { x, y } => Ok(skip_if(s, s.v[x as int] != s.v[y as int])),
        Instruction::SetIndex { nnn } => Ok(advance(MachineState { index: nnn, ..s })),
        Instruction::JumpOffset { nnn } => Ok(MachineState { pc: (s.v[0] + nnn) as u16, ..s }),
        Instruction::Random { x, nn } => Ok(set_reg(s, x, rnd & nn)),
        Instruction::Draw { x, y, n } => if !in_memory(s.index, n as int) {
            Err(Chip8Error::MemoryOutOfRange { address: s.index })
        } else {
            let (vx, vy) = (s.v[x as int], s.v[y as int]);
            let hit = collides(s.gfx, s.memory, s.index, vx, vy, n);
            Ok(advance(MachineState {
                gfx: drawn(s.gfx, s.memory, s.index, vx, vy, n),
                v: s.v.update(FLAG_REGISTER as int, if hit { 1u8 } else { 0u8 }),
                draw: true,
                ..s
            }))
        },
        Instruction::SkipKeyDown { x } => if s.v[x as int] >= 16 {
            Err(Chip8Error::KeyOutOfRange { key: s.v[x as int] })
        } else {
            Ok(skip_if(s, s.keys[s.v[x as int] as int]))
        },
        Instruction::SkipKeyUp { x } => if s.v[x as int] >= 16 {
            Err(Chip8Error::KeyOutOfRange { key: s.v[x as int] })
        } else {
            Ok(skip_if(s, !s.keys[s.v[x as int] as int]))
        },
        Instruction::GetDelay { x } => Ok(set_reg(s, x, s.delay_timer)),
        Instruction::SetDelay { x } => Ok(advance(MachineState { delay_timer: s.v[x as int], ..s })),
        Instruction::SetSound { x } => Ok(advance(MachineState { sound_timer: s.v[x as int], ..s })),
        Instruction::AddIndex { x } => {
            let sum = s.index + s.v[x as int];
            Ok(advance(MachineState {
                index: (sum % 0x10000) as u16,
                v: s.v.update(FLAG_REGISTER as int, if sum > 0xFFF { 1u8 } else { 0u8 }),
                ..s
            }))
        },
        Instruction::FontChar { x } => Ok(advance(MachineState { index: (s.v[x as int] * 5) as u16, ..s })),
        Instruction::StoreBcd { x } => if !in_memory(s.index, 3) {
            Err(Chip8Error::MemoryOutOfRange { address: s.index })
        } else {
            let vx = s.v[x as int];
            let i = s.index as int;
            Ok(advance(MachineState {
                memory: s.memory.update(i, vx / 100).update(i + 1, (vx / 10) % 10).update(i + 2, vx % 10),
                ..s
            }))
        },
        Instruction::LoadRegs { x } => if !in_memory(s.index, x + 1) {
            Err(Chip8Error::MemoryOutOfRange { address: s.index })
        } else {
            Ok(advance(MachineState {
                v: Seq::new(16, |i: int| if i <= x { s.memory[s.index + i] } else { s.v[i] }),
                index: (s.index + x + 1) as u16,
                ..s
            }))
        },
    }
}

/// The result `r` of a call and the machine after it agree with `expected`:
/// on success the machine is the expected one, on an error the error is the
/// expected one and the machine is unchanged.
pub open spec fn agrees(
    before: MachineState,
    after: MachineState,
    r: Result<(), Chip8Error>,
    expected: Result<MachineState, Chip8Error>,
) -> bool {
    match expected {
        Ok(t) => r is Ok && after == t,
        Err(e) => r == Err::<(), Chip8Error>(e) && after == before,
    }
}

/// One cycle: fetch the opcode at the program counter, decode it, execute
/// it and tick the timers. On an error nothing changes.
pub open spec fn step_spec(s: MachineState, rnd: u8) -> Result<MachineState, Chip8Error> {
    if s.pc + 1 >= MEMORY_SIZE {
        Err(Chip8Error::MemoryOutOfRange { address: s.pc })
    } else {
        match decode_spec(opcode_at(s)) {
            None => Err(Chip8Error::UnknownOpcode { opcode: opcode_at(s), address: s.pc }),
            Some(ins) => match execute_spec(s, ins, rnd) {
                Ok(t) => Ok(tick(t)),
                Err(e) => Err(e),
            },
        }
    }
}


/// A CHIP-8 machine: memory, registers, call stack, timers, keypad and
/// framebuffer, together with the redraw and beep flags that a host reads.
pub struct Chip8 {
    memory: [u8; 4096],
    v: [u8; 16],
    index: u16,
    program_counter: u16,
    gfx: [u8; 2048],
    delay_timer: u8,
    sound_timer: u8,
    stack: [u16; 16],
    stack_pointer: u16,
    keys: [bool; 16],
    draw: bool,
    beep: bool,
}

impl View for Chip8 {
    type V = MachineState;

    closed spec fn view(&self) -> MachineState {
        MachineState {
            memory: self.memory@,
            v: self.v@,
            index: self.index,
            pc: self.program_counter,
            gfx: self.gfx@,
            delay_timer: self.delay_timer,
            sound_timer: self.sound_timer,
            stack: self.stack@,
            sp: self.stack_pointer,
            keys: self.keys@,
            draw: self.draw,
            beep: self.beep,
        }
    }
}

/// Loads a program image: the font at address 0, the image at
/// `PROGRAM_START`, everything else zero. An image longer than
/// `PROGRAM_CAPACITY` is refused.
pub fn new(rom_bytes: &[u8]) -> (r: Result<Chip8, Chip8Error>)
    ensures
        rom_bytes@.len() > PROGRAM_CAPACITY ==> r == Err::<Chip8, Chip8Error>(
            Chip8Error::RomTooLarge { len: rom_bytes@.len() as usize },
        ),
        rom_bytes@.len() <= PROGRAM_CAPACITY ==> (r matches Ok(c) && c.wf() && c@ == initial_state(rom_bytes@)),
{
    if rom_bytes.len() > PROGRAM_CAPACITY {
        return Err(Chip8Error::RomTooLarge { len: rom_bytes.len() });
    }
    let mut chip8 = Chip8 {
        memory: [0u8; 4096],
        v: [0u8; 16],
        index: 0,
        program_counter: PROGRAM_START,
        gfx: [0u8; 2048],
        delay_timer: 0,
        sound_timer: 0,
        stack: [0u16; 16],
        stack_pointer: 0,
        keys: [false; 16],
        draw: false,
        beep: false,
    };
    assert(chip8.v@ =~= Seq::new(16, |i: int| 0u8));
    assert(chip8.gfx@ =~= Seq::new(SCREEN_PIXELS as nat, |i: int| 0u8));
    assert(chip8.stack@ =~= Seq::new(16, |i: int| 0u16));
    assert(chip8.keys@ =~= Seq::new(16, |i: int| false));
    let font = font_set();
    let mut i: usize = 0;
    while i < 80
        invariant
            i <= 80,
            font@ == font_spec(),
            forall|a: int| 0 <= a < i ==> chip8.memory@[a] == font_spec()[a],
            forall|a: int| i <= a < MEMORY_SIZE ==> chip8.memory@[a] == 0,
            chip8.v@ == Seq::new(16, |i: int| 0u8),
            chip8.gfx@ == Seq::new(SCREEN_PIXELS as nat, |i: int| 0u8),
            chip8.stack@ == Seq::new(16, |i: int| 0u16),
            chip8.keys@ == Seq::new(16, |i: int| false),
            chip8.index == 0,
            chip8.program_counter == PROGRAM_START,
            chip8.delay_timer == 0,
            chip8.sound_timer == 0,
            chip8.stack_pointer == 0,
            !chip8.draw,
            !chip8.beep,
        decreases 80 - i,
    {
        chip8.memory[i] = font[i];
        i = i + 1;
    }
    let mut j: usize = 0;
    while j < rom_bytes.len()
        invariant
            j <= rom_bytes@.len() <= PROGRAM_CAPACITY,
            forall|a: int| 0 <= a < 80 ==> chip8.memory@[a] == font_spec()[a],
            forall|a: int| 0 <= a < j ==> chip8.memory@[PROGRAM_START + a] == rom_bytes@[a],
            forall|a: int| 80 <= a < PROGRAM_START + j ==> a < PROGRAM_START ==> chip8.memory@[a] == 0,
            forall|a: int| PROGRAM_START + j <= a < MEMORY_SIZE ==> chip8.memory@[a] == 0,
            chip8.v@ == Seq::new(16, |i: int| 0u8),
            chip8.gfx@ == Seq::new(SCREEN_PIXELS as nat, |i: int| 0u8),
            chip8.stack@ == Seq::new(16, |i: int| 0u16),
            chip8.keys@ == Seq::new(16, |i: int| false),
            chip8.index == 0,
            chip8.program_counter == PROGRAM_START,
            chip8.delay_timer == 0,
            chip8.sound_timer == 0,
            chip8.stack_pointer == 0,
            !chip8.draw,
            !chip8.beep,
        decreases rom_bytes@.len() - j,
    {
        chip8.memory[j + 0x200] = rom_bytes[j];
        j = j + 1;
    }
    assert(chip8.memory@ =~= initial_memory(rom_bytes@));
    assert(chip8@ =~= initial_state(rom_bytes@));
    Ok(chip8)
}

impl Chip8 {
    /// The machine's invariant: that of its picture.
    pub open spec fn wf(&self) -> bool {
        self@.wf()
    }

    /// Runs one cycle: fetches the opcode at the program counter, decodes it,
    /// executes it with a freshly drawn random byte for `CXNN`, and ticks the
    /// timers. On an error the machine is left as it was.
    pub fn emulate_cycle(&mut self) -> (r: Result<(), Chip8Error>)
        requires
            old(self).wf(),
        ensures
            final(self).wf(),
            exists|rnd: u8| agrees(old(self)@, final(self)@, r, #[trigger] step_spec(old(self)@, rnd)),
    {
        let rnd = random_byte();
        self.emulate_cycle_with(rnd)
    }

    /// Runs one cycle with `rnd` as the random byte that `CXNN` masks.
    pub fn emulate_cycle_with(&mut self, rnd: u8) -> (r: Result<(), Chip8Error>)
        requires
            old(self).wf(),
        ensures
            final(self).wf(),
            agrees(old(self)@, final(self)@, r, step_spec(old(self)@, rnd)),
    {
        if self.program_counter as usize + 1 >= MEMORY_SIZE {
            return Err(Chip8Error::MemoryOutOfRange { address: self.program_counter });
        }
        let op = self.fetch_opcode();
        match decode(op) {
            None => Err(Chip8Error::UnknownOpcode { opcode: op, address: self.program_counter }),
            Some(ins) => match self.execute(ins, rnd) {
                Ok(()) => {
                    self.update_timers();
                    Ok(())
                },
                Err(e) => Err(e),
            },
        }
    }

    /// The big-endian opcode at the program counter.
    fn fetch_opcode(&self) -> (op: u16)
        requires
            self.wf(),
            self@.pc + 1 < MEMORY_SIZE,
        ensures
            op == opcode_at(self@),
    {
        let first_byte = self.memory[self.program_counter as usize];
        let second_byte = self.memory[self.program_counter as usize + 1];
        first_byte as u16 * 256 + second_byte as u16
    }

    /// One timer tick: both timers count down toward zero; returns whether
    /// the sound timer went from 1 to 0, which is also kept as the beep flag.
    pub fn update_timers(&mut self) -> (beep: bool)
        requires
            old(self).wf(),
        ensures
            final(self).wf(),
            final(self)@ == tick(old(self)@),
            beep == (old(self)@.sound_timer == 1),
    {
        if self.delay_timer > 0 {
            self.delay_timer = self.delay_timer - 1;
        }
        self.beep = self.sound_timer == 1;
        if self.sound_timer > 0 {
            self.sound_timer = self.sound_timer - 1;
        }
        self.beep
    }

    /// Register `V<i>`.
    pub fn register(&self, i: usize) -> (r: u8)
        requires
            i < 16,
        ensures
            r == self@.v[i as int],
    {
        self.v[i]
    }

    /// The byte at `address`.
    pub fn memory_at(&self, address: usize) -> (r: u8)
        requires
            address < MEMORY_SIZE,
        ensures
            r == self@.memory[address as int],
    {
        self.memory[address]
    }

    /// The index register `I`.
    pub fn index_register(&self) -> (r: u16)
        ensures
            r == self@.index,
    {
        self.index
    }

    /// The program counter.
    pub fn program_counter(&self) -> (r: u16)
        ensures
            r == self@.pc,
    {
        self.program_counter
    }

    /// How many calls are pending.
    pub fn stack_pointer(&self) -> (r: u16)
        ensures
            r == self@.sp,
    {
        self.stack_pointer
    }

    /// The delay timer.
    pub fn delay_timer(&self) -> (r: u8)
        ensures
            r == self@.delay_timer,
    {
        self.delay_timer
    }

    /// The sound timer.
    pub fn sound_timer(&self) -> (r: u8)
        ensures
            r == self@.sound_timer,
    {
        self.sound_timer
    }

    /// The framebuffer pixel at row-major `index`: 1 lit, 0 dark.
    pub fn pixel(&self, index: usize) -> (r: u8)
        requires
            index < SCREEN_PIXELS,
        ensures
            r == self@.gfx[index as int],
    {
        self.gfx[index]
    }

    /// Whether the framebuffer changed since the host last cleared the flag.
    pub fn redraw_pending(&self) -> (r: bool)
        ensures
            r == self@.draw,
    {
        self.draw
    }

    /// Clears the redraw flag, once the host has rendered the framebuffer.
    pub fn clear_redraw(&mut self)
        requires
            old(self).wf(),
        ensures
            final(self).wf(),
            final(self)@ == (MachineState { draw: false, ..old(self)@ }),
    {
        self.draw = false;
    }

    /// Whether the last timer tick took the sound timer from 1 to 0.
    pub fn beep(&self) -> (r: bool)
        ensures
            r == self@.beep,
    {
        self.beep
    }

    /// Whether key `key` is down.
    pub fn is_key_pressed(&self, key: usize) -> (r: bool)
        requires
            key < 16,
        ensures
            r == self@.keys[key as int],
    {
        self.keys[key]
    }

    /// Records that key `key` went down (`pressed`) or up.
    pub fn set_key(&mut self, key: usize, pressed: bool)
        requires
            old(self).wf(),
            key < 16,
        ensures
            final(self).wf(),
            final(self)@ == (MachineState { keys: old(self)@.keys.update(key as int, pressed), ..old(self)@ }),
    {
        self.keys[key] = pressed;
    }

    /// Executes one decoded instruction, the program counter being that of
    /// the instruction and `rnd` the byte that `CXNN` masks.
    pub fn execute(&mut self, ins: Instruction, rnd: u8) -> (r: Result<(), Chip8Error>)
        requires
            old(self).wf(),
            ins.wf(),
            old(self)@.pc + 1 < MEMORY_SIZE,
        ensures
            final(self).wf(),
            agrees(old(self)@, final(self)@, r, execute_spec(old(self)@, ins, rnd)),
    {
        match ins {
            Instruction::ClearScreen { .. }
            | Instruction::Return { .. }
            | Instruction::Jump { .. }
            | Instruction::Call { .. }
            | Instruction::SetIndex { .. }
            | Instruction::JumpOffset { .. } => self.execute_control(ins, rnd),
            Instruction::SkipEqImm { .. }
            | Instruction::SkipNeImm { .. }
            | Instruction::SkipEqReg { .. }
            | Instruction::SkipNeReg { .. }
            | Instruction::SkipKeyDown { .. }
            | Instruction::SkipKeyUp { .. } => self.execute_skip(ins, rnd),
            Instruction::LoadImm { .. }
            | Instruction::AddImm { .. }
            | Instruction::Move { .. }
            | Instruction::Or { .. }
            | Instruction::And { .. }
            | Instruction::Xor { .. }
            | Instruction::Random { .. } => self.execute_arith(ins, rnd),
            Instruction::AddReg { .. }
            | Instruction::SubReg { .. }
            | Instruction::ShiftRight { .. }
            | Instruction::SubReverse { .. }
            | Instruction::ShiftLeft { .. } => self.execute_flagged(ins, rnd),
            Instruction::Draw { .. }
            | Instruction::GetDelay { .. }
            | Instruction::SetDelay { .. }
            | Instruction::SetSound { .. }
            | Instruction::AddIndex { .. }
            | Instruction::FontChar { .. }
            | Instruction::StoreBcd { .. }
            | Instruction::LoadRegs { .. } => self.execute_memory(ins, rnd),
        }
    }

    /// Executes an instruction that clears the screen or moves the program counter
    /// by a jump, a call or a return.
    fn execute_control(&mut self, ins: Instruction, rnd: u8) -> (r: Result<(), Chip8Error>)
        requires
            old(self).wf(),
            ins.wf(),
            old(self)@.pc + 1 < MEMORY_SIZE,
            ins is ClearScreen || ins is Return || ins is Jump || ins is Call || ins is SetIndex || ins is JumpOffset,
        ensures
            final(self).wf(),
            agrees(old(self)@, final(self)@, r, execute_spec(old(self)@, ins, rnd)),
    {
        let pc = self.program_counter;
        match ins {
            Instruction::ClearScreen => {
                self.gfx = [0u8; 2048];
                self.draw = true;
                self.program_counter = pc + 2;
                assert(self.gfx@ =~= Seq::new(SCREEN_PIXELS as nat, |p: int| 0u8));
            },
            Instruction::Return => {
                if self.stack_pointer == 0 {
                    return Err(Chip8Error::StackUnderflow);
                }
                self.stack_pointer = self.stack_pointer - 1;
                self.program_counter = self.stack[self.stack_pointer as usize] + 2;
            },
            Instruction::Jump { nnn } => {
                self.program_counter = nnn;
            },
            Instruction::Call { nnn } => {
                if self.stack_pointer >= 16 {
                    return Err(Chip8Error::StackOverflow);
                }
                self.stack[self.stack_pointer as usize] = pc;
                self.stack_pointer = self.stack_pointer + 1;
                self.program_counter = nnn;
            },
            Instruction::SetIndex { nnn } => {
                self.index = nnn;
                self.program_counter = pc + 2;
            },
            Instruction::JumpOffset { nnn } => {
                self.program_counter = self.v[0] as u16 + nnn;
            },
            _ => {},
        }
        Ok(())
    }

    /// Executes a conditional skip.
    fn execute_skip(&mut self, ins: Instruction, rnd: u8) -> (r: Result<(), Chip8Error>)
        requires
            old(self).wf(),
            ins.wf(),
            old(self)@.pc + 1 < MEMORY_SIZE,
            ins is SkipEqImm || ins is SkipNeImm || ins is SkipEqReg || ins is SkipNeReg || ins is SkipKeyDown || ins is SkipKeyUp,
        ensures
            final(self).wf(),
            agrees(old(self)@, final(self)@, r, execute_spec(old(self)@, ins, rnd)),
    {
        let pc = self.program_counter;
        match ins {
            Instruction::SkipEqImm { x, nn } => {
                self.program_counter = if self.v[x as usize] == nn { pc + 4 } else { pc + 2 };
            },
            Instruction::SkipNeImm { x, nn } => {
                self.program_counter = if self.v[x as usize] != nn { pc + 4 } else { pc + 2 };
            },
            Instruction::SkipEqReg { x, y } => {
                self.program_counter = if self.v[x as usize] == self.v[y as usize] { pc + 4 } else { pc + 2 };
            },
            Instruction::SkipNeReg { x, y } => {
                self.program_counter = if self.v[x as usize] != self.v[y as usize] { pc + 4 } else { pc + 2 };
            },
            Instruction::SkipKeyDown { x } => {
                let key = self.v[x as usize];
                if key >= 16 {
                    return Err(Chip8Error::KeyOutOfRange { key });
                }
                self.program_counter = if self.keys[key as usize] { pc + 4 } else { pc + 2 };
            },
            Instruction::SkipKeyUp { x } => {
                let key = self.v[x as usize];
                if key >= 16 {
                    return Err(Chip8Error::KeyOutOfRange { key });
                }
                self.program_counter = if !self.keys[key as usize] { pc + 4 } else { pc + 2 };
            },
            _ => {},
        }
        Ok(())
    }

    /// Executes an instruction that computes a register from registers and immediates.
    fn execute_arith(&mut self, ins: Instruction, rnd: u8) -> (r: Result<(), Chip8Error>)
        requires
            old(self).wf(),
            ins.wf(),
            old(self)@.pc + 1 < MEMORY_SIZE,
            ins is LoadImm || ins is AddImm || ins is Move || ins is Or || ins is And || ins is Xor || ins is Random,
        ensures
            final(self).wf(),
            agrees(old(self)@, final(self)@, r, execute_spec(old(self)@, ins, rnd)),
    {
        let pc = self.program_counter;
        match ins {
            Instruction::LoadImm { x, nn } => {
                self.v[x as usize] = nn;
                self.program_counter = pc + 2;
            },
            Instruction::AddImm { x, nn } => {
                self.v[x as usize] = ((self.v[x as usize] as u16 + nn as u16) % 256) as u8;
                self.program_counter = pc + 2;
            },
            Instruction::Move { x, y } => {
                self.v[x as usize] = self.v[y as usize];
                self.program_counter = pc + 2;
            },
            Instruction::Or { x, y } => {
                self.v[x as usize] = self.v[x as usize] | self.v[y as usize];
                self.program_counter = pc + 2;
            },
            Instruction::And { x, y } => {
                self.v[x as usize] = self.v[x as usize] & self.v[y as usize];
                self.program_counter = pc + 2;
            },
            Instruction::Xor { x, y } => {
                self.v[x as usize] = self.v[x as usize] ^ self.v[y as usize];
                self.program_counter = pc + 2;
            },
            Instruction::Random { x, nn } => {
                self.v[x as usize] = rnd & nn;
                self.program_counter = pc + 2;
            },
            _ => {},
        }
        Ok(())
    }

    /// Executes an arithmetic or shift instruction that also sets the flag register.
    fn execute_flagged(&mut self, ins: Instruction, rnd: u8) -> (r: Result<(), Chip8Error>)
        requires
            old(self).wf(),
            ins.wf(),
            old(self)@.pc + 1 < MEMORY_SIZE,
            ins is AddReg || ins is SubReg || ins is ShiftRight || ins is SubReverse || ins is ShiftLeft,
        ensures
            final(self).wf(),
            agrees(old(self)@, final(self)@, r, execute_spec(old(self)@, ins, rnd)),
    {
        let pc = self.program_counter;
        match ins {
            Instruction::AddReg { x, y } => {
                let sum: u16 = self.v[x as usize] as u16 + self.v[y as usize] as u16;
                self.v[x as usize] = (sum % 256) as u8;
                self.v[FLAG_REGISTER] = if sum > 255 { 1 } else { 0 };
                self.program_counter = pc + 2;
            },
            Instruction::SubReg { x, y } => {
                let (vx, vy) = (self.v[x as usize], self.v[y as usize]);
                self.v[x as usize] = ((vx as u16 + 256 - vy as u16) % 256) as u8;
                self.v[FLAG_REGISTER] = if vx < vy { 0 } else { 1 };
                self.program_counter = pc + 2;
            },
            Instruction::ShiftRight { x, y } => {
                let vx = self.v[x as usize];
                self.v[x as usize] = vx / 2;
                self.v[FLAG_REGISTER] = vx % 2;
                self.program_counter = pc + 2;
            },
            Instruction::SubReverse { x, y } => {
                let (vx, vy) = (self.v[x as usize], self.v[y as usize]);
                self.v[x as usize] = ((vy as u16 + 256 - vx as u16) % 256) as u8;
                self.v[FLAG_REGISTER] = if vy < vx { 0 } else { 1 };
                self.program_counter = pc + 2;
            },
            Instruction::ShiftLeft { x, y } => {
                let vx = self.v[x as usize];
                self.v[x as usize] = ((vx as u16 * 2) % 256) as u8;
                self.v[FLAG_REGISTER] = vx / 128;
                self.program_counter = pc + 2;
            },
            _ => {},
        }
        Ok(())
    }

    /// Executes an instruction that works on memory, the index register or the
    /// timers.
    fn execute_memory(&mut self, ins: Instruction, rnd: u8) -> (r: Result<(), Chip8Error>)
        requires
            old(self).wf(),
            ins.wf(),
            old(self)@.pc + 1 < MEMORY_SIZE,
            ins is Draw || ins is GetDelay || ins is SetDelay || ins is SetSound || ins is AddIndex || ins is FontChar || ins is StoreBcd || ins is LoadRegs,
        ensures
            final(self).wf(),
            agrees(old(self)@, final(self)@, r, execute_spec(old(self)@, ins, rnd)),
    {
        let pc = self.program_counter;
        match ins {
            Instruction::Draw { x, y, n } => {
                if n > 0 && self.index as usize + n as usize > MEMORY_SIZE {
                    return Err(Chip8Error::MemoryOutOfRange { address: self.index });
                }
                let (vx, vy) = (self.v[x as usize], self.v[y as usize]);
                self.draw_sprite(vx, vy, n);
                self.program_counter = pc + 2;
            },
            Instruction::GetDelay { x } => {
                self.v[x as usize] = self.delay_timer;
                self.program_counter = pc + 2;
            },
            Instruction::SetDelay { x } => {
                self.delay_timer = self.v[x as usize];
                self.program_counter = pc + 2;
            },
            Instruction::SetSound { x } => {
                self.sound_timer = self.v[x as usize];
                self.program_counter = pc + 2;
            },
            Instruction::AddIndex { x } => {
                let sum: u32 = self.index as u32 + self.v[x as usize] as u32;
                self.index = (sum % 0x10000) as u16;
                self.v[FLAG_REGISTER] = if sum > 0xFFF { 1 } else { 0 };
                self.program_counter = pc + 2;
            },
            Instruction::FontChar { x } => {
                self.index = self.v[x as usize] as u16 * GLYPH_BYTES as u16;
                self.program_counter = pc + 2;
            },
            Instruction::StoreBcd { x } => {
                if self.index as usize + 3 > MEMORY_SIZE {
                    return Err(Chip8Error::MemoryOutOfRange { address: self.index });
                }
                let vx = self.v[x as usize];
                let i = self.index as usize;
                self.memory[i] = vx / 100;
                self.memory[i + 1] = (vx / 10) % 10;
                self.memory[i + 2] = vx % 10;
                self.program_counter = pc + 2;
            },
            Instruction::LoadRegs { x } => {
                if self.index as usize + x as usize + 1 > MEMORY_SIZE {
                    return Err(Chip8Error::MemoryOutOfRange { address: self.index });
                }
                self.load_registers(x);
                self.program_counter = pc + 2;
            },
            _ => {},
        }
        Ok(())
    }

    /// Loads `V0..=VX` from memory at the index register, then advances the
    /// index register past what was read.
    fn load_registers(&mut self, x: u8)
        requires
            old(self).wf(),
            x < 16,
            old(self)@.index + x + 1 <= MEMORY_SIZE,
        ensures
            final(self)@ == (MachineState {
                v: Seq::new(16, |i: int| if i <= x { old(self)@.memory[old(self)@.index + i] } else { old(self)@.v[i] }),
                index: (old(self)@.index + x + 1) as u16,
                ..old(self)@
            }),
    {
        let ghost s0 = self@;
        let base = self.index as usize;
        let mut i: usize = 0;
        while i <= x as usize
            invariant
                s0 == old(self)@,
                s0.wf(),
                x < 16,
                base == s0.index,
                base + x + 1 <= MEMORY_SIZE,
                i <= x + 1,
                self@ == (MachineState { v: self@.v, ..s0 }),
                self@.v.len() == 16,
                forall|j: int| 0 <= j < 16 ==> #[trigger] self@.v[j] == if j < i { s0.memory[base + j] } else { s0.v[j] },
            decreases x + 1 - i,
        {
            self.v[i] = self.memory[base + i];
            i = i + 1;
        }
        self.index = (base + x as usize + 1) as u16;
        assert(self@.v =~= Seq::new(16, |j: int| if j <= x { s0.memory[s0.index + j] } else { s0.v[j] }));
    }

    /// XORs the `n`-row sprite at the index register onto the framebuffer at
    /// `(x, y)`, and sets `VF` to whether a lit pixel was covered.
    fn draw_sprite(&mut self, x: u8, y: u8, n: u8)
        requires
            old(self).wf(),
            n < 16,
            in_memory(old(self)@.index, n as int),
        ensures
            final(self)@ == (MachineState {
                gfx: drawn(old(self)@.gfx, old(self)@.memory, old(self)@.index, x, y, n),
                v: old(self)@.v.update(
                    FLAG_REGISTER as int,
                    if collides(old(self)@.gfx, old(self)@.memory, old(self)@.index, x, y, n) {
                        1u8
                    } else {
                        0u8
                    },
                ),
                draw: true,
                ..old(self)@
            }),
    {
        let ghost s0 = self@;
        let mut collision = false;
        let total: u16 = n as u16 * 8;
        let mut k: u16 = 0;
        while k < total
            invariant
                s0 == old(self)@,
                s0.wf(),
                n < 16,
                in_memory(s0.index, n as int),
                total == n * 8,
                k <= total,
                self@ == (MachineState { gfx: self@.gfx, ..s0 }),
                self@.gfx.len() == SCREEN_PIXELS,
                forall|p: int|
                    0 <= p < SCREEN_PIXELS ==> #[trigger] self@.gfx[p] == if sprite_covers(s0.memory, s0.index, x, y, n, p) && sprite_cell(x, y, p) < k {
                        s0.gfx[p] ^ 1
                    } else {
                        s0.gfx[p]
                    },
                collision == exists|p: int|
                    0 <= p < SCREEN_PIXELS && sprite_covers(s0.memory, s0.index, x, y, n, p) && #[trigger] sprite_cell(x, y, p) < k && s0.gfx[p] == 1,
            decreases total - k,
        {
            let row: u16 = k / 8;
            let col: u16 = k % 8;
            let byte = self.memory[(self.index + row) as usize];
            let t: usize = (x as usize + col as usize + (y as usize + row as usize) * 64) % 2048;
            proof {
                lemma_sprite_target(x, y, row as int, col as int);
                assert(t == pixel_target(x, y, row as int, col as int));
                assert(sprite_cell(x, y, t as int) == k);
                assert(k == row * 8 + col);
                assert(row < n) by (nonlinear_arith)
                    requires
                        k == row * 8 + col,
                        col < 8,
                        k < n * 8,
                ;
                assert(byte == s0.memory[s0.index + row]);
                assert(sprite_covers(s0.memory, s0.index, x, y, n, t as int) == (byte & (0x80u8 >> col as u8) != 0));
                assert forall|p: int| 0 <= p < SCREEN_PIXELS && p != t && sprite_covers(s0.memory, s0.index, x, y, n, p) implies (sprite_cell(x, y, p) < k + 1
                    <==> sprite_cell(x, y, p) < k) by {
                    let d = sprite_offset(x, y, p);
                    let (dr, dc) = (d / 64, d % 64);
                    assert(0 <= dc < 8);
                    if sprite_cell(x, y, p) == k {
                        assert(dr * 8 + dc == row * 8 + col);
                        assert(dr == row && dc == col) by (nonlinear_arith)
                            requires
                                dr * 8 + dc == row * 8 + col,
                                0 <= dc < 8,
                                0 <= col < 8,
                        ;
                    }
                }
            }
            let ghost before = collision;
            if byte & (0x80u8 >> col as u8) != 0 {
                if self.gfx[t] == 1 {
                    collision = true;
                }
                self.gfx[t] = self.gfx[t] ^ 1;
            }
            k = k + 1;
            proof {
                if collision {
                    if !before {
                        assert(sprite_covers(s0.memory, s0.index, x, y, n, t as int) && sprite_cell(x, y, t as int) < k && s0.gfx[t as int] == 1);
                    } else {
                        let p = choose|p: int|
                            0 <= p < SCREEN_PIXELS && sprite_covers(s0.memory, s0.index, x, y, n, p) && #[trigger] sprite_cell(x, y, p) < k - 1 && s0.gfx[p] == 1;
                        assert(sprite_cell(x, y, p) < k);
                    }
                } else {
                    assert forall|p: int|
                        0 <= p < SCREEN_PIXELS && sprite_covers(s0.memory, s0.index, x, y, n, p) && #[trigger] sprite_cell(x, y, p) < k implies s0.gfx[p] != 1 by {
                        if p != t {
                            assert(sprite_cell(x, y, p) < k - 1);
                        }
                    }
                }
            }
        }
        self.v[FLAG_REGISTER] = if collision { 1 } else { 0 };
        self.draw = true;
        proof {
            assert forall|p: int| 0 <= p < SCREEN_PIXELS && sprite_covers(s0.memory, s0.index, x, y, n, p) implies #[trigger] sprite_cell(x, y, p) < total by {
                let d = sprite_offset(x, y, p);
                let (dr, dc) = (d / 64, d % 64);
                assert(0 <= dc < 8 && 0 <= dr < n);
                assert(dr * 8 + dc < n * 8) by (nonlinear_arith)
                    requires
                        0 <= dc < 8,
                        0 <= dr < n,
                ;
            }
            let hit = collides(s0.gfx, s0.memory, s0.index, x, y, n);
            if hit {
                let p = choose|p: int|
                    0 <= p < SCREEN_PIXELS && sprite_covers(s0.memory, s0.index, x, y, n, p) && s0.gfx[p] == 1;
                assert(sprite_covers(s0.memory, s0.index, x, y, n, p) && sprite_cell(x, y, p) < total);
            }
            assert(collision == hit);
            assert(self@.gfx =~= drawn(s0.gfx, s0.memory, s0.index, x, y, n));
        }
    }
}

} // verus!
