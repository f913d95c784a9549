//! Laws of the instruction set, proved of the model that the executable
//! machine is verified against.

use vstd::prelude::*;
use vstd::arithmetic::div_mod::lemma_fundamental_div_mod_converse;
use crate::emu::frame::FB_LEN;
use crate::emu::keypad::{
    is_lowest_pressed, lemma_lowest_pressed_is, lemma_none_pressed, none_pressed, KeypadView,
};
use crate::emu::draw::{law_draw_is_xor, law_draw_touches_screen_and_flag};
use crate::emu::machine::{
    collides, flag, op_class, op_n, op_nn, op_nnn, op_x, op_y, sprite_covers, Machine, Mode,
    StepError, FLAG_REG, MEM_SIZE, REG_COUNT, STACK_SIZE,
};

verus! {

/// The instruction word with class nibble `class` and operands `x` and
/// `nn`.
pub open spec fn encode_xnn(class: int, x: int, nn: u8) -> u16 {
    (class * 0x1000 + x * 0x100 + nn) as u16
}

/// The instruction word with class nibble `class` and operands `x`, `y`
/// and `n`.
pub open spec fn encode_xyn(class: int, x: int, y: int, n: int) -> u16 {
    (class * 0x1000 + x * 0x100 + y * 0x10 + n) as u16
}

/// The instruction word with class nibble `class` and operand `nnn`.
pub open spec fn encode_nnn(class: int, nnn: u16) -> u16 {
    (class * 0x1000 + nnn) as u16
}

/// An instruction word gives back the fields it was made of.
pub proof fn lemma_fields_of_xyn(class: int, x: int, y: int, n: int)
    requires
        0 <= class < 16,
        0 <= x < 16,
        0 <= y < 16,
        0 <= n < 16,
    ensures
        op_class(encode_xyn(class, x, y, n)) == class,
        op_x(encode_xyn(class, x, y, n)) == x,
        op_y(encode_xyn(class, x, y, n)) == y,
        op_n(encode_xyn(class, x, y, n)) == n,
        op_nn(encode_xyn(class, x, y, n)) == y * 16 + n,
        op_nnn(encode_xyn(class, x, y, n)) == x * 256 + y * 16 + n,
{
    let w = class * 0x1000 + x * 0x100 + y * 0x10 + n;
    lemma_fundamental_div_mod_converse(w, 0x1000, class, x * 0x100 + y * 0x10 + n);
    lemma_fundamental_div_mod_converse(w, 0x100, class * 0x10 + x, y * 0x10 + n);
    lemma_fundamental_div_mod_converse(w, 0x10, class * 0x100 + x * 0x10 + y, n);
    lemma_fundamental_div_mod_converse(class * 0x10 + x, 0x10, class, x);
    lemma_fundamental_div_mod_converse(class * 0x100 + x * 0x10 + y, 0x10, class * 0x10 + x, y);
}

/// An instruction word gives back the fields it was made of.
pub proof fn lemma_fields_of_xnn(class: int, x: int, nn: u8)
    requires
        0 <= class < 16,
        0 <= x < 16,
    ensures
        op_class(encode_xnn(class, x, nn)) == class,
        op_x(encode_xnn(class, x, nn)) == x,
        op_y(encode_xnn(class, x, nn)) == nn / 16,
        op_n(encode_xnn(class, x, nn)) == nn % 16,
        op_nn(encode_xnn(class, x, nn)) == nn,
        op_nnn(encode_xnn(class, x, nn)) == x * 256 + nn,
{
    let y = nn as int / 16;
    let n = nn as int % 16;
    assert(encode_xnn(class, x, nn) == encode_xyn(class, x, y, n));
    lemma_fields_of_xyn(class, x, y, n);
}

/// An instruction word gives back the fields it was made of.
pub proof fn lemma_fields_of_nnn(class: int, nnn: u16)
    requires
        0 <= class < 16,
        nnn <= 0xFFF,
    ensures
        op_class(encode_nnn(class, nnn)) == class,
        op_nnn(encode_nnn(class, nnn)) == nnn,
        op_x(encode_nnn(class, nnn)) == nnn / 256,
        op_nn(encode_nnn(class, nnn)) == nnn % 256,
        op_n(encode_nnn(class, nnn)) == nnn % 16,
{
    let x = nnn as int / 256;
    let y = (nnn as int % 256) / 16;
    let n = nnn as int % 16;
    assert(encode_nnn(class, nnn) == encode_xyn(class, x, y, n));
    lemma_fields_of_xyn(class, x, y, n);
}

/// The random byte matters to `Cxnn` words only.
pub proof fn law_only_cxnn_is_random(m: Machine, opcode: u16, r1: u8, r2: u8)
    requires
        op_class(opcode) != 0xC,
    ensures
        m.execute(opcode, r1) == m.execute(opcode, r2),
{
}

/// After `6xnn`, register `x` holds `nn`, and nothing else has changed.
pub proof fn law_load_immediate(m: Machine, x: int, nn: u8, rand: u8)
    requires
        m.shaped(),
        0 <= x < REG_COUNT,
    ensures
        m.execute(encode_xnn(0x6, x, nn), rand) == Ok::<Machine, StepError>(m.with_v(x, nn)),
        m.with_v(x, nn).v[x] == nn,
{
    lemma_fields_of_xnn(0x6, x, nn);
}

/// `7xnn` adds modulo 256: register `x` holds `(Vx + nn) mod 256`
/// afterwards, and no other register changes, the flag register included.
pub proof fn law_add_immediate_wraps(m: Machine, x: int, nn: u8, rand: u8)
    requires
        m.shaped(),
        0 <= x < REG_COUNT,
    ensures
        m.execute(encode_xnn(0x7, x, nn), rand) is Ok,
        m.execute(encode_xnn(0x7, x, nn), rand)->Ok_0.v[x] == (m.v[x] + nn) % 256,
        forall|r: int|
            0 <= r < REG_COUNT && r != x ==> m.execute(encode_xnn(0x7, x, nn), rand)->Ok_0.v[r]
                == m.v[r],
{
    lemma_fields_of_xnn(0x7, x, nn);
    assert(m.execute(encode_xnn(0x7, x, nn), rand) == Ok::<Machine, StepError>(
        m.add_immediate(x, nn),
    ));
}

/// `8xy4` leaves the carry in `VF` and, unless `x` is the flag register,
/// the sum modulo 256 in `Vx`.
pub proof fn law_add_sets_carry(m: Machine, x: int, y: int, rand: u8)
    requires
        m.shaped(),
        0 <= x < REG_COUNT,
        0 <= y < REG_COUNT,
    ensures
        m.execute(encode_xyn(0x8, x, y, 0x4), rand) is Ok,
        m.execute(encode_xyn(0x8, x, y, 0x4), rand)->Ok_0.v[0xF] == flag(m.v[x] + m.v[y] > 255),
        x != 0xF ==> m.execute(encode_xyn(0x8, x, y, 0x4), rand)->Ok_0.v[x] == (m.v[x] + m.v[y])
            % 256,
{
    lemma_fields_of_xyn(0x8, x, y, 0x4);
    assert(m.execute(encode_xyn(0x8, x, y, 0x4), rand) == Ok::<Machine, StepError>(
        m.add_registers(x, y),
    ));
}

/// `8xy5` leaves 1 in `VF` when nothing was borrowed and 0 otherwise, and,
/// unless `x` is the flag register, the difference modulo 256 in `Vx`.
pub proof fn law_subtract_sets_no_borrow(m: Machine, x: int, y: int, rand: u8)
    requires
        m.shaped(),
        0 <= x < REG_COUNT,
        0 <= y < REG_COUNT,
    ensures
        m.execute(encode_xyn(0x8, x, y, 0x5), rand) is Ok,
        m.execute(encode_xyn(0x8, x, y, 0x5), rand)->Ok_0.v[0xF] == flag(m.v[x] >= m.v[y]),
        x != 0xF ==> m.execute(encode_xyn(0x8, x, y, 0x5), rand)->Ok_0.v[x] == (m.v[x] - m.v[y])
            % 256,
{
    lemma_fields_of_xyn(0x8, x, y, 0x5);
    assert(m.execute(encode_xyn(0x8, x, y, 0x5), rand) == Ok::<Machine, StepError>(
        m.subtract_registers(x, y),
    ));
}

/// After `00E0` every framebuffer cell is dark and the framebuffer is
/// dirty.
pub proof fn law_clear_screen(m: Machine, rand: u8)
    ensures
        m.execute(0x00E0, rand) is Ok,
        m.execute(0x00E0, rand)->Ok_0.fb.dirty,
        m.execute(0x00E0, rand)->Ok_0.fb.pixels.len() == FB_LEN,
        forall|k: int| 0 <= k < FB_LEN ==> !m.execute(0x00E0, rand)->Ok_0.fb.pixels[k],
{
}

/// A `Dxyn` word draws the `n`-row sprite at `I` at the place that `Vx`
/// and `Vy` give.
pub proof fn law_dxyn_draws(m: Machine, x: int, y: int, n: int, rand: u8)
    requires
        0 <= x < REG_COUNT,
        0 <= y < REG_COUNT,
        0 <= n < 16,
    ensures
        m.execute(encode_xyn(0xD, x, y, n), rand) == m.draw(x, y, n),
{
    lemma_fields_of_xyn(0xD, x, y, n);
}

/// Drawing the same sprite twice at the same place restores every pixel,
/// where the sprite is placed through registers other than `VF`. The
/// second drawing reports a collision exactly when the first one lit a
/// pixel, that is when the sprite has a set bit over a cell that was dark
/// to begin with.
pub proof fn law_draw_twice_restores(m: Machine, x: int, y: int, n: int)
    requires
        m.shaped(),
        0 <= x < FLAG_REG,
        0 <= y < FLAG_REG,
        0 <= n < 16,
        m.draw(x, y, n) is Ok,
    ensures
        m.draw(x, y, n)->Ok_0.draw(x, y, n) is Ok,
        m.draw(x, y, n)->Ok_0.draw(x, y, n)->Ok_0.fb.pixels == m.fb.pixels,
        m.draw(x, y, n)->Ok_0.draw(x, y, n)->Ok_0.v[0xF] == flag(
            exists|k: int|
                0 <= k < FB_LEN && !m.fb.pixels[k] && #[trigger] sprite_covers(
                    m.sprite(n),
                    m.v[x] as int,
                    m.v[y] as int,
                    k,
                ),
        ),
{
    let once = m.draw(x, y, n)->Ok_0;
    let vx = m.v[x] as int;
    let vy = m.v[y] as int;
    let sprite = m.sprite(n);
    law_draw_is_xor(m, x, y, n);
    assert(once.shaped());
    assert(once.sprite(n) == sprite);
    law_draw_is_xor(once, x, y, n);
    let twice = once.draw(x, y, n)->Ok_0;
    assert(twice.fb.pixels =~= m.fb.pixels);
    let lit_by_first = exists|k: int|
        0 <= k < FB_LEN && !m.fb.pixels[k] && #[trigger] sprite_covers(sprite, vx, vy, k);
    if lit_by_first {
        let k = choose|k: int|
            0 <= k < FB_LEN && !m.fb.pixels[k] && #[trigger] sprite_covers(sprite, vx, vy, k);
        assert(once.fb.pixels[k] && sprite_covers(sprite, vx, vy, k));
    }
    if collides(once.fb.pixels, sprite, vx, vy) {
        let k = choose|k: int|
            0 <= k < FB_LEN && once.fb.pixels[k] && #[trigger] sprite_covers(sprite, vx, vy, k);
        assert(!m.fb.pixels[k] && sprite_covers(sprite, vx, vy, k));
    }
}

/// `Fx33` writes three decimal digits that spell `Vx`, the most
/// significant first.
pub proof fn law_bcd_digits(m: Machine, x: int)
    requires
        m.shaped(),
        0 <= x < REG_COUNT,
        m.i + 2 < MEM_SIZE,
    ensures
        m.store_bcd(x) is Ok,
        m.store_bcd(x)->Ok_0.mem[m.i as int] < 10,
        m.store_bcd(x)->Ok_0.mem[m.i + 1] < 10,
        m.store_bcd(x)->Ok_0.mem[m.i + 2] < 10,
        m.store_bcd(x)->Ok_0.mem[m.i as int] * 100 + m.store_bcd(x)->Ok_0.mem[m.i + 1] * 10
            + m.store_bcd(x)->Ok_0.mem[m.i + 2] == m.v[x],
{
}

/// What `Fx55` stores, `Fx65` with the same `x` and `I` reads back: on any
/// machine `later` that still has the stored bytes and the same `I`,
/// whatever became of its registers, `V0` to `Vx` are again what they were
/// when they were stored.
pub proof fn law_store_then_load(m: Machine, later: Machine, x: int)
    requires
        m.shaped(),
        later.shaped(),
        0 <= x < REG_COUNT,
        m.store_registers(x) is Ok,
        later.i == m.i,
        forall|a: int|
            m.i <= a <= m.i + x ==> later.mem[a] == m.store_registers(x)->Ok_0.mem[a],
    ensures
        m.store_registers(x)->Ok_0.i == m.i,
        later.load_registers(x) is Ok,
        later.load_registers(x)->Ok_0.i == m.i,
        forall|r: int| 0 <= r <= x ==> later.load_registers(x)->Ok_0.v[r] == m.v[r],
{
}

/// Storing registers and reading them straight back changes no register.
pub proof fn law_store_load_round_trip(m: Machine, x: int)
    requires
        m.shaped(),
        0 <= x < REG_COUNT,
        m.store_registers(x) is Ok,
    ensures
        m.store_registers(x)->Ok_0.load_registers(x) == Ok::<Machine, StepError>(
            m.store_registers(x)->Ok_0,
        ),
{
    let stored = m.store_registers(x)->Ok_0;
    assert(stored.load_registers(x)->Ok_0.v =~= stored.v);
}

/// A return undoes a call: `2nnn` followed by `00EE` puts `PC` back on the
/// instruction after the call and the stack pointer back where it was, at
/// every depth at which the call succeeds, that is with at most fourteen
/// calls already outstanding. Only the stack slot that held the return
/// address differs afterwards.
pub proof fn law_call_then_return(m: Machine, nnn: u16, r1: u8, r2: u8)
    requires
        m.wf(),
        nnn <= 0xFFF,
        m.sp + 1 < STACK_SIZE,
    ensures
        m.execute(encode_nnn(0x2, nnn), r1) is Ok,
        m.execute(encode_nnn(0x2, nnn), r1)->Ok_0.pc == nnn,
        m.execute(encode_nnn(0x2, nnn), r1)->Ok_0.execute(0x00EE, r2) == Ok::<Machine, StepError>(
            Machine { stack: m.stack.update(m.sp + 1, m.pc), ..m },
        ),
{
    lemma_fields_of_nnn(0x2, nnn);
    assert(m.execute(encode_nnn(0x2, nnn), r1) == m.call(nnn));
    let called = m.call(nnn)->Ok_0;
    assert(called.execute(0x00EE, r2) == called.ret());
}

/// One call for each entry of `addrs`, made one inside the other: an entry
/// is the address that its call has to come back to, the outermost first.
pub open spec fn nest(m: Machine, addrs: Seq<u16>) -> Result<Machine, StepError>
    decreases addrs.len(),
{
    if addrs.len() == 0 {
        Ok(m)
    } else {
        match nest(m, addrs.drop_last()) {
            Ok(inner) => Machine { pc: addrs.last(), ..inner }.call(0),
            Err(e) => Err(e),
        }
    }
}

/// `depth` return instructions in a row.
pub open spec fn unwind(m: Machine, depth: nat) -> Result<Machine, StepError>
    decreases depth,
{
    if depth == 0 {
        Ok(m)
    } else {
        match m.ret() {
            Ok(outer) => unwind(outer, (depth - 1) as nat),
            Err(e) => Err(e),
        }
    }
}

/// Calls nest up to the depth that the stack allows: they all succeed while
/// no more than fifteen are outstanding, and the stack pointer counts them.
pub proof fn law_nested_calls(m: Machine, addrs: Seq<u16>)
    requires
        m.wf(),
        m.sp + addrs.len() < STACK_SIZE,
    ensures
        nest(m, addrs) is Ok,
        nest(m, addrs)->Ok_0.wf(),
        nest(m, addrs)->Ok_0.sp == m.sp + addrs.len(),
        forall|s: int| 0 <= s <= m.sp ==> nest(m, addrs)->Ok_0.stack[s] == m.stack[s],
        forall|j: int|
            0 <= j < addrs.len() ==> nest(m, addrs)->Ok_0.stack[m.sp + 1 + j] == addrs[j],
    decreases addrs.len(),
{
    if addrs.len() > 0 {
        let outer = addrs.drop_last();
        law_nested_calls(m, outer);
        assert forall|j: int| 0 <= j < addrs.len() implies nest(m, addrs)->Ok_0.stack[m.sp + 1
            + j] == addrs[j] by {
            if j < outer.len() {
                assert(nest(m, outer)->Ok_0.stack[m.sp + 1 + j] == outer[j]);
            }
        }
    }
}

/// Calls are left in the reverse order in which they were entered: after
/// leaving `depth` calls of a nest, `PC` is the return address of the
/// `depth`-th call counted from the innermost, and that many stack slots are
/// free again.
pub proof fn law_nested_returns(m: Machine, addrs: Seq<u16>, depth: nat)
    requires
        m.wf(),
        m.sp + addrs.len() < STACK_SIZE,
        1 <= depth <= addrs.len(),
    ensures
        nest(m, addrs) is Ok,
        unwind(nest(m, addrs)->Ok_0, depth) is Ok,
        unwind(nest(m, addrs)->Ok_0, depth)->Ok_0.pc == addrs[addrs.len() - depth],
        unwind(nest(m, addrs)->Ok_0, depth)->Ok_0.sp == m.sp + addrs.len() - depth,
{
    law_nested_calls(m, addrs);
    lemma_unwind(nest(m, addrs)->Ok_0, depth);
}

/// `depth` return instructions succeed when that many calls are
/// outstanding; they take `PC` from the last slot they release and write to
/// no slot.
pub proof fn lemma_unwind(m: Machine, depth: nat)
    requires
        m.wf(),
        1 <= depth <= m.sp,
    ensures
        unwind(m, depth) is Ok,
        unwind(m, depth)->Ok_0.pc == m.stack[m.sp - depth + 1],
        unwind(m, depth)->Ok_0.sp == m.sp - depth,
        unwind(m, depth)->Ok_0.stack == m.stack,
    decreases depth,
{
    if depth > 1 {
        lemma_unwind(m.ret()->Ok_0, (depth - 1) as nat);
    } else {
        assert(unwind(m.ret()->Ok_0, 0) == Ok::<Machine, StepError>(m.ret()->Ok_0));
    }
}

/// `Fx0A` takes the machine from running to waiting for a key, with `x` as
/// the register to receive it; nothing else changes.
pub proof fn law_wait_begins(m: Machine, x: int, rand: u8)
    requires
        m.shaped(),
        0 <= x < REG_COUNT,
    ensures
        m.execute(encode_xnn(0xF, x, 0x0A), rand) == Ok::<Machine, StepError>(m.wait_for_key(x)),
        m.wait_for_key(x).mode() == Mode::WaitingForKey(x as nat),
        m.wait_for_key(x).pc == m.pc,
        m.wait_for_key(x).v == m.v,
{
    lemma_fields_of_xnn(0xF, x, 0x0A);
}

/// A waiting machine that sees no key down does nothing at all: a step
/// succeeds and leaves `PC`, the registers and everything else as they
/// were, so the machine goes on waiting.
pub proof fn law_wait_holds(m: Machine, rand: u8)
    requires
        m.mode() is WaitingForKey,
        none_pressed(m.kp.keys),
    ensures
        m.step(rand) == (Ok::<(), StepError>(()), m),
{
    lemma_none_pressed(m.kp.keys);
}

/// A waiting machine that sees keys down stores the lowest of them in the
/// recorded register and runs again: that step neither fetches nor moves
/// `PC`, so that the step after it fetches the very word that was waiting
/// at `PC`.
pub proof fn law_wait_resolves(m: Machine, key: int, rand: u8)
    requires
        m.mode() is WaitingForKey,
        is_lowest_pressed(m.kp.keys, key),
    ensures
        m.step(rand).0 == Ok::<(), StepError>(()),
        m.step(rand).1 == (Machine {
            v: m.v.update(m.kp.block_reg as int, key as u8),
            kp: KeypadView { block: false, ..m.kp },
            ..m
        }),
        m.step(rand).1.mode() == Mode::Running,
        m.step(rand).1.pc == m.pc,
        m.fetch() is Ok ==> m.step(rand).1.fetch() is Ok && m.step(rand).1.fetch()->Ok_0.0
            == m.fetch()->Ok_0.0,
{
    lemma_lowest_pressed_is(m.kp.keys, key);
}

/// A step keeps the state invariant, whether it succeeds or fails and
/// whatever byte it draws.
pub proof fn law_step_keeps_invariant(m: Machine, rand: u8)
    requires
        m.wf(),
    ensures
        m.step(rand).1.wf(),
{
    if m.kp.block {
        if exists|k: int| is_lowest_pressed(m.kp.keys, k) {
            let k = choose|k: int| is_lowest_pressed(m.kp.keys, k);
            lemma_lowest_pressed_is(m.kp.keys, k);
        }
    } else if m.fetch() is Ok {
        let (opcode, fetched) = m.fetch()->Ok_0;
        if op_class(opcode) == 0xD && fetched.execute(opcode, rand) is Ok {
            law_draw_touches_screen_and_flag(fetched, op_x(opcode), op_y(opcode), op_n(opcode));
        }
    }
}

} // verus!
