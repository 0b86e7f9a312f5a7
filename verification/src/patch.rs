use vstd::prelude::*;

verus! {

// The game is a 32-bit x86 process: addresses are 32-bit, and address
// arithmetic wraps around at 2^32.

/// Offset, from the game module's base, of the `call` instruction whose
/// target is the game's `luaL_loadbuffer`.
pub const LOADBUFFER_CALL_OFFSET: u32 = 0x966DB9;

/// Offset, from the game module's base, of the game's `luaL_loadbuffer`.
pub const LOADBUFFER_FN_OFFSET: u32 = 0x6E41F0;

/// Offset, from the game module's base, of the byte that allows solo races.
pub const SOLO_RACER_OFFSET: u32 = 0xE25800;

/// Length of a relative `call` instruction: the opcode `E8` and a 32-bit
/// displacement.
pub const CALL_INSTRUCTION_LEN: u32 = 5;

/// An address computed in the 32-bit address space.
pub open spec fn addr(x: int) -> u32 {
    (x % 0x1_0000_0000) as u32
}

/// Where a relative `call` at `site` with displacement `disp` goes: the
/// displacement counts from the end of the instruction.
pub open spec fn call_destination(site: u32, disp: u32) -> u32 {
    addr(site + CALL_INSTRUCTION_LEN + disp)
}

/// The displacement that makes a `call` at `site` go to `target`.
pub open spec fn displacement_for(site: u32, target: u32) -> u32 {
    addr(target - (site + CALL_INSTRUCTION_LEN))
}

/// The four bytes of `v`, least significant first, as x86 stores it.
pub open spec fn le_bytes(v: u32) -> Seq<u8> {
    seq![
        (v % 0x100) as u8,
        ((v / 0x100) % 0x100) as u8,
        ((v / 0x1_0000) % 0x100) as u8,
        (v / 0x100_0000) as u8,
    ]
}

/// The number that four little-endian bytes stand for.
pub open spec fn le_value(b: Seq<u8>) -> int {
    b[0] + 0x100 * b[1] + 0x1_0000 * b[2] + 0x100_0000 * b[3]
}

/// A one-byte write into the game's memory.
#[derive(PartialEq, Eq, Debug, Clone, Copy, Structural)]
pub struct BytePatch {
    pub addr: u32,
    pub value: u8,
}

/// The rewrite of a relative `call` so that it goes elsewhere: the
/// displacement after the opcode is replaced. The memory from `call_site`
/// on, `protect_len` bytes long, must be made writable for the write and
/// given its old protection back after it.
#[derive(PartialEq, Eq, Debug, Clone, Copy)]
pub struct CallPatch {
    /// Address of the `call` instruction (its `E8` opcode).
    pub call_site: u32,
    /// Length of the region whose protection is changed for the write.
    pub protect_len: u32,
    /// Address of the first byte written: the displacement's.
    pub operand_addr: u32,
    /// The new displacement.
    pub displacement: u32,
    /// The bytes written from `operand_addr` on.
    pub operand_bytes: [u8; 4],
}

/// A `call` at any address, given the displacement computed for a target,
/// goes to that target.
pub proof fn lemma_displacement_reaches_target(site: u32, target: u32)
    ensures
        call_destination(site, displacement_for(site, target)) == target,
{
    let m: int = 0x1_0000_0000;
    let d = target - (site + 5);
    let disp = displacement_for(site, target);
    if d >= 0 {
        assert(d % m == d);
        assert((site + 5 + disp) % m == target);
    } else if d >= -m {
        assert(d % m == d + m);
        assert((site + 5 + disp) % m == target);
    } else {
        assert(d % m == d + 2 * m);
        assert((site + 5 + disp) % m == target);
    }
}

/// The bytes of a displacement, read back, give the displacement.
pub proof fn lemma_le_bytes_value(v: u32)
    ensures
        le_bytes(v).len() == 4,
        le_value(le_bytes(v)) == v,
{
    let b0 = v % 0x100;
    let q0 = v / 0x100;
    let b1 = q0 % 0x100;
    let q1 = q0 / 0x100;
    let b2 = q1 % 0x100;
    let b3 = q1 / 0x100;
    assert(v == b0 + 0x100 * q0);
    assert(q0 == b1 + 0x100 * q1);
    assert(q1 == b2 + 0x100 * b3);
    assert(q1 == v / 0x1_0000);
    assert(b3 == v / 0x100_0000);
    assert(b3 < 0x100);
}

fn wrapping_offset(base: u32, offset: u32) -> (r: u32)
    ensures
        r == addr(base + offset),
{
    base.wrapping_add(offset)
}

/// The bytes of `v`, least significant first.
pub fn le_bytes_of(v: u32) -> (b: [u8; 4])
    ensures
        b@ == le_bytes(v),
{
    let b: [u8; 4] = [
        (v % 0x100) as u8,
        ((v / 0x100) % 0x100) as u8,
        ((v / 0x1_0000) % 0x100) as u8,
        (v / 0x100_0000) as u8,
    ];
    assert(b@ =~= le_bytes(v));
    b
}

/// The patch that turns the game's `call` of its `luaL_loadbuffer` into a
/// call of `hook`, for a game module loaded at `module_base`.
pub fn loadbuffer_call_patch(module_base: u32, hook: u32) -> (p: CallPatch)
    ensures
        p.call_site == addr(module_base + LOADBUFFER_CALL_OFFSET),
        p.protect_len == CALL_INSTRUCTION_LEN,
        p.operand_addr == addr(p.call_site + 1),
        p.displacement == displacement_for(p.call_site, hook),
        p.operand_bytes@ == le_bytes(p.displacement),
        call_destination(p.call_site, p.displacement) == hook,
        le_value(p.operand_bytes@) == p.displacement,
{
    let call_site = wrapping_offset(module_base, LOADBUFFER_CALL_OFFSET);
    let operand_addr = wrapping_offset(call_site, 1);
    let next = wrapping_offset(call_site, CALL_INSTRUCTION_LEN);
    let displacement = hook.wrapping_sub(next);
    proof {
        let m: int = 0x1_0000_0000;
        let d = hook - (call_site + 5);
        if call_site + 5 < m {
            assert(next == call_site + 5);
            if d >= 0 {
                assert(d % m == d);
            } else {
                assert(d % m == d + m);
            }
        } else {
            assert(next == call_site + 5 - m);
            if d >= -m {
                assert(d % m == d + m);
            } else {
                assert(d % m == d + 2 * m);
            }
        }
        assert(displacement == displacement_for(call_site, hook));
        lemma_displacement_reaches_target(call_site, hook);
        lemma_le_bytes_value(displacement);
    }
    CallPatch {
        call_site,
        protect_len: CALL_INSTRUCTION_LEN,
        operand_addr,
        displacement,
        operand_bytes: le_bytes_of(displacement),
    }
}

/// Address of the game's `luaL_loadbuffer`, for a game module loaded at
/// `module_base`: the function that an inline hook replaces.
pub fn loadbuffer_fn_addr(module_base: u32) -> (a: u32)
    ensures
        a == addr(module_base + LOADBUFFER_FN_OFFSET),
{
    wrapping_offset(module_base, LOADBUFFER_FN_OFFSET)
}

/// The write that sets (`1`) or clears (`0`) the game's solo-racer byte, for
/// a game module loaded at `module_base`.
pub fn solo_racer_patch(module_base: u32, enabled: bool) -> (p: BytePatch)
    ensures
        p.addr == addr(module_base + SOLO_RACER_OFFSET),
        p.value == (if enabled { 1u8 } else { 0u8 }),
{
    BytePatch {
        addr: wrapping_offset(module_base, SOLO_RACER_OFFSET),
        value: if enabled { 1 } else { 0 },
    }
}

} // verus!
