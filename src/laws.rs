//! Properties of the machine that relate several instructions, cycles or
//! ticks, proved from the definitions in `machine`.
use vstd::prelude::*;
use crate::instruction::{decode_spec, family, field_n, field_nn, field_x, field_y, Instruction};
use crate::machine::{
    collides, execute_spec, in_memory, initial_state, opcode_at, sprite_covers, step_spec,
    tick, Chip8Error, MachineState, FLAG_REGISTER, MEMORY_SIZE, PROGRAM_CAPACITY, PROGRAM_START,
    SCREEN_PIXELS,
};

verus! {

/// A cycle whose opcode is `7XNN` adds `NN` to `VX` modulo 256 and leaves
/// every other register, `VF` included, as it was.
pub proof fn add_immediate_wraps(s: MachineState, rnd: u8)
    requires
        s.wf(),
        s.pc + 1 < MEMORY_SIZE,
        family(opcode_at(s)) == 7,
    ensures
        ({
            let (x, nn) = (field_x(opcode_at(s)) as int, field_nn(opcode_at(s)));
            step_spec(s, rnd) matches Ok(t) && t.v[x] == (s.v[x] + nn) % 256 && forall|i: int|
                0 <= i < 16 && i != x ==> t.v[i] == s.v[i]
        }),
{
}

/// A cycle whose opcode is `8XY4`, with `X` other than `F`, sets `VX` to
/// `VX + VY` modulo 256 and `VF` to the carry out of eight bits.
pub proof fn add_registers_wraps(s: MachineState, rnd: u8)
    requires
        s.wf(),
        s.pc + 1 < MEMORY_SIZE,
        family(opcode_at(s)) == 8,
        field_n(opcode_at(s)) == 4,
        field_x(opcode_at(s)) != 0xF,
    ensures
        ({
            let (x, y) = (field_x(opcode_at(s)) as int, field_y(opcode_at(s)) as int);
            let sum = s.v[x] + s.v[y];
            step_spec(s, rnd) matches Ok(t) && t.v[x] == sum % 256 && t.v[FLAG_REGISTER as int] == (
            if sum > 255 {
                1u8
            } else {
                0u8
            })
        }),
{
}

/// A cycle whose opcode is a conditional skip (`3XNN`, `4XNN`, `5XY0`,
/// `9XY0`) moves the program counter on by 4 where its condition holds and
/// by 2 where it does not.
pub proof fn skip_advances_by_two_or_four(s: MachineState, rnd: u8)
    requires
        s.wf(),
        s.pc + 1 < MEMORY_SIZE,
        family(opcode_at(s)) == 3 || family(opcode_at(s)) == 4 || ((family(opcode_at(s)) == 5
            || family(opcode_at(s)) == 9) && field_n(opcode_at(s)) == 0),
    ensures
        ({
            let op = opcode_at(s);
            let (vx, vy) = (s.v[field_x(op) as int], s.v[field_y(op) as int]);
            let taken = if family(op) == 3 {
                vx == field_nn(op)
            } else if family(op) == 4 {
                vx != field_nn(op)
            } else if family(op) == 5 {
                vx == vy
            } else {
                vx != vy
            };
            step_spec(s, rnd) matches Ok(t) && t.pc == s.pc + if taken {
                4int
            } else {
                2int
            }
        }),
{
}

proof fn lemma_xor_one(a: u8)
    ensures
        (a ^ 1u8) ^ 1u8 == a,
        ((a ^ 1u8) == 1u8) == (a == 0u8),
{
    assert((a ^ 1u8) ^ 1u8 == a) by (bit_vector);
    assert(((a ^ 1u8) == 1u8) == (a == 0u8)) by (bit_vector);
}

/// Drawing the same sprite twice at the same place (`DXYN` twice, with
/// neither `X` nor `Y` the flag register) gives the framebuffer back as it
/// was, so every pixel the first draw lit goes dark again; the second draw
/// reports a collision exactly when the sprite covers a pixel that was dark
/// before the first.
pub proof fn draw_twice_restores(s: MachineState, x: u8, y: u8, n: u8, rnd: u8)
    requires
        s.wf(),
        x < 15,
        y < 15,
        n < 16,
        in_memory(s.index, n as int),
    ensures
        ({
            let ins = Instruction::Draw { x, y, n };
            let (vx, vy) = (s.v[x as int], s.v[y as int]);
            execute_spec(s, ins, rnd) matches Ok(s1) && execute_spec(s1, ins, rnd) matches Ok(s2)
                && s2.gfx == s.gfx && (s2.v[FLAG_REGISTER as int] == 1 <==> exists|p: int|
                0 <= p < SCREEN_PIXELS && sprite_covers(s.memory, s.index, vx, vy, n, p) && s.gfx[p]
                == 0)
        }),
{
    let ins = Instruction::Draw { x, y, n };
    let (vx, vy) = (s.v[x as int], s.v[y as int]);
    let s1 = execute_spec(s, ins, rnd)->Ok_0;
    assert(s1.v[x as int] == vx && s1.v[y as int] == vy);
    let s2 = execute_spec(s1, ins, rnd)->Ok_0;
    assert forall|p: int| 0 <= p < SCREEN_PIXELS implies #[trigger] s2.gfx[p] == s.gfx[p] by {
        lemma_xor_one(s.gfx[p]);
    }
    assert(s2.gfx =~= s.gfx);
    if collides(s1.gfx, s1.memory, s1.index, vx, vy, n) {
        let p = choose|p: int|
            0 <= p < SCREEN_PIXELS && sprite_covers(s1.memory, s1.index, vx, vy, n, p) && s1.gfx[p] == 1;
        lemma_xor_one(s.gfx[p]);
    }
    if exists|p: int|
        0 <= p < SCREEN_PIXELS && sprite_covers(s.memory, s.index, vx, vy, n, p) && s.gfx[p] == 0 {
        let p = choose|p: int|
            0 <= p < SCREEN_PIXELS && sprite_covers(s.memory, s.index, vx, vy, n, p) && s.gfx[p] == 0;
        lemma_xor_one(s.gfx[p]);
        assert(s1.gfx[p] == 1);
    }
}

/// Loading a program image of at most `PROGRAM_CAPACITY` bytes puts byte
/// `i` of the image at address `PROGRAM_START + i`.
pub proof fn load_round_trip(rom: Seq<u8>)
    requires
        rom.len() <= PROGRAM_CAPACITY,
    ensures
        forall|i: int| 0 <= i < rom.len() ==> initial_state(rom).memory[PROGRAM_START + i] == rom[i],
{
}

/// `FX65` reads exactly `X + 1` bytes from memory at `I` into `V0..=VX`,
/// leaves the other registers and memory as they were, and leaves `I`
/// just past what it read.
pub proof fn load_registers_reads_block(s: MachineState, x: u8, rnd: u8)
    requires
        s.wf(),
        x < 16,
        s.index + x + 1 <= MEMORY_SIZE,
    ensures
        execute_spec(s, Instruction::LoadRegs { x }, rnd) matches Ok(t) && t.memory == s.memory
            && t.index == s.index + x + 1 && (forall|i: int| 0 <= i <= x ==> t.v[i] == s.memory[s.index + i])
            && (forall|i: int| x < i < 16 ==> t.v[i] == s.v[i]),
{
}

/// The beep is edge-triggered: a tick beeps exactly when it takes the sound
/// timer from 1 to 0, and the tick after a beep does not beep.
pub proof fn beep_on_edge_only(s: MachineState)
    ensures
        tick(s).beep <==> s.sound_timer == 1,
        tick(s).beep ==> tick(s).sound_timer == 0 && !tick(tick(s)).beep,
{
}

/// A cycle whose opcode names no instruction stops with `UnknownOpcode`,
/// reporting the opcode and its address; the machine is left unchanged.
pub proof fn unknown_opcode_is_reported(s: MachineState, rnd: u8)
    requires
        s.wf(),
        s.pc + 1 < MEMORY_SIZE,
        decode_spec(opcode_at(s)) is None,
    ensures
        step_spec(s, rnd) == Err::<MachineState, Chip8Error>(
            Chip8Error::UnknownOpcode { opcode: opcode_at(s), address: s.pc },
        ),
{
}

} // verus!
