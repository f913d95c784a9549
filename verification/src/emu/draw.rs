//! The sprite instruction: XOR compositing with wraparound and per-pixel
//! collision detection.
//!
//! The machine draws a sprite bit by bit. This module proves what that
//! comes to when the sprite is placed through ordinary registers, and
//! holds the instruction's handler.

use vstd::prelude::*;
use crate::emu::cpu::CPU;
use crate::emu::frame::{FrameView, FB_HEIGHT, FB_LEN, FB_WIDTH};
use crate::emu::machine::{
    blit, collides, conforms, flag, sprite_bit, sprite_col, sprite_covers, sprite_row, Machine,
    StepError, FLAG_REG, MEM_SIZE, REG_COUNT,
};

verus! {

/// Whether cell `k` holds a set sprite bit that the drawing loop has
/// reached once it has finished `rows` whole rows and `bits` bits of the
/// next.
spec fn drawn_upto(sprite: Seq<u8>, vx: int, vy: int, k: int, rows: int, bits: int) -> bool {
    let col = sprite_col(vx, k);
    let row = sprite_row(vy, k);
    sprite_covers(sprite, vx, vy, k) && (row < rows || (row == rows && col < bits))
}

/// Whether the drawing loop has hit a lit pixel by the time it has finished
/// `rows` whole rows and `bits` bits of the next.
spec fn collides_upto(
    pixels: Seq<bool>,
    sprite: Seq<u8>,
    vx: int,
    vy: int,
    rows: int,
    bits: int,
) -> bool {
    exists|k: int|
        0 <= k < FB_LEN && pixels[k] && #[trigger] drawn_upto(sprite, vx, vy, k, rows, bits)
}

/// The cell that bit `bit` of sprite row `row` lands on, with wraparound.
spec fn target_cell(vx: int, vy: int, row: int, bit: int) -> int {
    ((vy + row) % 32) * 64 + (vx + bit) % 64
}

/// The target cell is on the screen, and the sprite's `row` and `bit` are
/// seen from it.
proof fn lemma_target_cell(vx: int, vy: int, row: int, bit: int)
    requires
        0 <= vx < 256,
        0 <= vy < 256,
        0 <= row < 32,
        0 <= bit < 64,
    ensures
        0 <= target_cell(vx, vy, row, bit) < FB_LEN,
        sprite_col(vx, target_cell(vx, vy, row, bit)) == bit,
        sprite_row(vy, target_cell(vx, vy, row, bit)) == row,
{
}

/// No other cell sees the sprite's `row` and `bit`.
proof fn lemma_target_cell_unique(vx: int, vy: int, row: int, bit: int, k: int)
    requires
        0 <= vx < 256,
        0 <= vy < 256,
        0 <= row < 32,
        0 <= bit < 64,
        0 <= k < FB_LEN,
        sprite_col(vx, k) == bit,
        sprite_row(vy, k) == row,
    ensures
        k == target_cell(vx, vy, row, bit),
{
}

/// Starting a new row changes nothing: a row has eight bits.
proof fn lemma_row_done(pixels: Seq<bool>, sprite: Seq<u8>, vx: int, vy: int, rows: int)
    ensures
        forall|k: int|
            drawn_upto(sprite, vx, vy, k, rows, 8) == drawn_upto(sprite, vx, vy, k, rows + 1, 0),
        collides_upto(pixels, sprite, vx, vy, rows, 8) == collides_upto(
            pixels,
            sprite,
            vx,
            vy,
            rows + 1,
            0,
        ),
{
    assert forall|k: int|
        drawn_upto(sprite, vx, vy, k, rows, 8) == drawn_upto(sprite, vx, vy, k, rows + 1, 0) by {}
    if collides_upto(pixels, sprite, vx, vy, rows, 8) {
        let k = choose|k: int|
            0 <= k < FB_LEN && pixels[k] && #[trigger] drawn_upto(sprite, vx, vy, k, rows, 8);
        assert(drawn_upto(sprite, vx, vy, k, rows + 1, 0));
    }
    if collides_upto(pixels, sprite, vx, vy, rows + 1, 0) {
        let k = choose|k: int|
            0 <= k < FB_LEN && pixels[k] && #[trigger] drawn_upto(sprite, vx, vy, k, rows + 1, 0);
        assert(drawn_upto(sprite, vx, vy, k, rows, 8));
    }
}

/// Once every row is done, what was reached is what the sprite covers.
proof fn lemma_all_rows_done(pixels: Seq<bool>, sprite: Seq<u8>, vx: int, vy: int)
    ensures
        forall|k: int|
            drawn_upto(sprite, vx, vy, k, sprite.len() as int, 0) == sprite_covers(
                sprite,
                vx,
                vy,
                k,
            ),
        collides_upto(pixels, sprite, vx, vy, sprite.len() as int, 0) == collides(
            pixels,
            sprite,
            vx,
            vy,
        ),
{
    let n = sprite.len() as int;
    if collides_upto(pixels, sprite, vx, vy, n, 0) {
        let k = choose|k: int|
            0 <= k < FB_LEN && pixels[k] && #[trigger] drawn_upto(sprite, vx, vy, k, n, 0);
        assert(sprite_covers(sprite, vx, vy, k));
    }
    if collides(pixels, sprite, vx, vy) {
        let k = choose|k: int|
            0 <= k < FB_LEN && pixels[k] && #[trigger] sprite_covers(sprite, vx, vy, k);
        assert(drawn_upto(sprite, vx, vy, k, n, 0));
    }
}

/// Drawing one more bit: only its target cell can change what was reached,
/// and it does so exactly when the bit is set.
proof fn lemma_bit_done(
    pixels: Seq<bool>,
    sprite: Seq<u8>,
    vx: int,
    vy: int,
    row: int,
    bit: int,
)
    requires
        pixels.len() == FB_LEN,
        0 <= vx < 256,
        0 <= vy < 256,
        0 <= row < sprite.len() <= 32,
        0 <= bit < 8,
    ensures
        forall|k: int|
            0 <= k < FB_LEN && k != target_cell(vx, vy, row, bit) ==> drawn_upto(
                sprite,
                vx,
                vy,
                k,
                row,
                bit + 1,
            ) == drawn_upto(sprite, vx, vy, k, row, bit),
        !drawn_upto(sprite, vx, vy, target_cell(vx, vy, row, bit), row, bit),
        drawn_upto(sprite, vx, vy, target_cell(vx, vy, row, bit), row, bit + 1) == sprite_bit(
            sprite[row],
            bit as u8,
        ),
        collides_upto(pixels, sprite, vx, vy, row, bit + 1) == (collides_upto(
            pixels,
            sprite,
            vx,
            vy,
            row,
            bit,
        ) || (pixels[target_cell(vx, vy, row, bit)] && sprite_bit(sprite[row], bit as u8))),
{
    let t = target_cell(vx, vy, row, bit);
    lemma_target_cell(vx, vy, row, bit);
    assert forall|k: int| 0 <= k < FB_LEN && k != t implies drawn_upto(
        sprite,
        vx,
        vy,
        k,
        row,
        bit + 1,
    ) == drawn_upto(sprite, vx, vy, k, row, bit) by {
        if sprite_col(vx, k) == bit && sprite_row(vy, k) == row {
            lemma_target_cell_unique(vx, vy, row, bit, k);
        }
    }
    if collides_upto(pixels, sprite, vx, vy, row, bit + 1) {
        let k = choose|k: int|
            0 <= k < FB_LEN && pixels[k] && #[trigger] drawn_upto(sprite, vx, vy, k, row, bit + 1);
        if k != t {
            assert(drawn_upto(sprite, vx, vy, k, row, bit));
        }
    }
    if collides_upto(pixels, sprite, vx, vy, row, bit) {
        let k = choose|k: int|
            0 <= k < FB_LEN && pixels[k] && #[trigger] drawn_upto(sprite, vx, vy, k, row, bit);
        assert(k != t);
        assert(drawn_upto(sprite, vx, vy, k, row, bit + 1));
    }
    if pixels[t] && sprite_bit(sprite[row], bit as u8) {
        assert(drawn_upto(sprite, vx, vy, t, row, bit + 1));
    }
}

/// The machine `s` differs from the machine `m` in nothing but the pixels
/// and the flag register, which holds 0 or 1 if it did so in `m`.
spec fn drawn_on(m: Machine, s: Machine) -> bool {
    &&& s.v.len() == m.v.len()
    &&& forall|r: int| 0 <= r < m.v.len() && r != FLAG_REG ==> s.v[r] == m.v[r]
    &&& m.v[FLAG_REG as int] <= 1 ==> s.v[FLAG_REG as int] <= 1
    &&& s.fb.pixels.len() == m.fb.pixels.len()
    &&& s == (Machine { v: s.v, fb: FrameView { pixels: s.fb.pixels, ..m.fb }, ..m })
}

/// Drawing bits touches only the pixels and the flag register.
proof fn lemma_bits_drawn_on(m: Machine, x: int, py: int, byte: u8, bits: nat)
    requires
        m.shaped(),
        0 <= x < REG_COUNT,
        0 <= py < 32,
    ensures
        drawn_on(m, m.draw_bits(x, py, byte, bits)),
    decreases bits,
{
    if bits > 0 {
        lemma_bits_drawn_on(m, x, py, byte, (bits - 1) as nat);
    }
}

/// Drawing rows touches only the pixels and the flag register.
proof fn lemma_rows_drawn_on(m: Machine, x: int, y: int, rows: nat)
    requires
        m.shaped(),
        0 <= x < REG_COUNT,
        0 <= y < REG_COUNT,
    ensures
        drawn_on(m, m.draw_rows(x, y, rows)),
    decreases rows,
{
    if rows > 0 {
        let row = rows - 1;
        lemma_rows_drawn_on(m, x, y, row as nat);
        let prev = m.draw_rows(x, y, row as nat);
        lemma_bits_drawn_on(prev, x, (prev.v[y] + row) % 32, prev.mem[prev.i + row], 8);
    }
}

/// Whatever registers place the sprite, `Dxyn` changes nothing but the
/// pixels, the dirty flag, which it sets, and `VF`, in which it leaves 0
/// or 1.
pub proof fn law_draw_touches_screen_and_flag(m: Machine, x: int, y: int, n: int)
    requires
        m.shaped(),
        0 <= x < REG_COUNT,
        0 <= y < REG_COUNT,
        0 <= n < 16,
        m.draw(x, y, n) is Ok,
    ensures
        m.draw(x, y, n)->Ok_0.shaped(),
        m.draw(x, y, n)->Ok_0.v[FLAG_REG as int] <= 1,
        forall|r: int|
            0 <= r < REG_COUNT && r != FLAG_REG ==> m.draw(x, y, n)->Ok_0.v[r] == m.v[r],
        m.draw(x, y, n)->Ok_0 == (Machine {
            v: m.draw(x, y, n)->Ok_0.v,
            fb: FrameView { pixels: m.draw(x, y, n)->Ok_0.fb.pixels, dirty: true },
            ..m
        }),
{
    lemma_rows_drawn_on(m.with_v(FLAG_REG as int, 0), x, y, n as nat);
}

/// What the machine `s` has of the machine `m` once the drawing of the
/// `n`-row sprite at `(Vx, Vy)` has finished `rows` whole rows and `bits`
/// bits of the next: the sprite bits reached so far are XORed onto the
/// pixels of `m`, `VF` tells whether one of them hit a lit pixel, and
/// nothing else differs.
spec fn partly_drawn(m: Machine, s: Machine, x: int, y: int, n: int, rows: int, bits: int) -> bool {
    let vx = m.v[x] as int;
    let vy = m.v[y] as int;
    &&& s.fb.pixels.len() == FB_LEN
    &&& forall|k: int|
        0 <= k < FB_LEN ==> s.fb.pixels[k] == (m.fb.pixels[k] != drawn_upto(
            m.sprite(n),
            vx,
            vy,
            k,
            rows,
            bits,
        ))
    &&& s == (Machine {
        v: m.v.update(
            FLAG_REG as int,
            flag(collides_upto(m.fb.pixels, m.sprite(n), vx, vy, rows, bits)),
        ),
        fb: FrameView { pixels: s.fb.pixels, ..m.fb },
        ..m
    })
}

/// Drawing the bits of one row keeps the drawing on course.
proof fn lemma_draw_bits(m: Machine, s: Machine, x: int, y: int, n: int, row: int, bits: nat)
    requires
        m.shaped(),
        0 <= x < FLAG_REG,
        0 <= y < FLAG_REG,
        0 <= row < n < 16,
        m.i + n <= MEM_SIZE,
        bits <= 8,
        partly_drawn(m, s, x, y, n, row, 0),
    ensures
        partly_drawn(
            m,
            s.draw_bits(x, (m.v[y] + row) % 32, m.mem[m.i + row], bits),
            x,
            y,
            n,
            row,
            bits as int,
        ),
    decreases bits,
{
    if bits > 0 {
        let vx = m.v[x] as int;
        let vy = m.v[y] as int;
        let py = (vy + row) % 32;
        let byte = m.mem[m.i + row];
        let bit = bits - 1;
        lemma_draw_bits(m, s, x, y, n, row, bit as nat);
        let prev = s.draw_bits(x, py, byte, bit as nat);
        let next = s.draw_bits(x, py, byte, bits);
        let cell = target_cell(vx, vy, row, bit);
        lemma_target_cell(vx, vy, row, bit);
        lemma_bit_done(m.fb.pixels, m.sprite(n), vx, vy, row, bit);
        assert(prev.v[x] == m.v[x]);
        assert(next == prev.plot((vx + bit) % 64, py, sprite_bit(byte, bit as u8)));
        assert(py * 64 + (vx + bit) % 64 == cell);
        assert(prev.fb.pixels[cell] == m.fb.pixels[cell]);
        assert(next.v =~= m.v.update(
            FLAG_REG as int,
            flag(collides_upto(m.fb.pixels, m.sprite(n), vx, vy, row, bits as int)),
        ));
    }
}

/// Drawing whole rows keeps the drawing on course.
proof fn lemma_draw_rows(m: Machine, x: int, y: int, n: int, rows: nat)
    requires
        m.shaped(),
        0 <= x < FLAG_REG,
        0 <= y < FLAG_REG,
        0 <= rows <= n < 16,
        n > 0 ==> m.i + n <= MEM_SIZE,
    ensures
        partly_drawn(
            m,
            m.with_v(FLAG_REG as int, 0).draw_rows(x, y, rows),
            x,
            y,
            n,
            rows as int,
            0,
        ),
    decreases rows,
{
    let vx = m.v[x] as int;
    let vy = m.v[y] as int;
    let cleared = m.with_v(FLAG_REG as int, 0);
    if rows == 0 {
        assert(!collides_upto(m.fb.pixels, m.sprite(n), vx, vy, 0, 0));
        assert(cleared.draw_rows(x, y, 0) == cleared);
    } else {
        let row = rows - 1;
        lemma_draw_rows(m, x, y, n, row as nat);
        let prev = cleared.draw_rows(x, y, row as nat);
        assert(prev.v[y] == m.v[y]);
        lemma_draw_bits(m, prev, x, y, n, row, 8);
        lemma_row_done(m.fb.pixels, m.sprite(n), vx, vy, row);
    }
}

/// Where neither `x` nor `y` names the flag register, `Dxyn` XORs the
/// sprite onto the screen at `(Vx, Vy)`, wrapping at the screen edges, and
/// leaves 1 in `VF` when a set bit of the sprite fell on a lit pixel and 0
/// otherwise; the framebuffer is dirty and nothing else has changed.
pub proof fn law_draw_is_xor(m: Machine, x: int, y: int, n: int)
    requires
        m.shaped(),
        0 <= x < FLAG_REG,
        0 <= y < FLAG_REG,
        0 <= n < 16,
        m.draw(x, y, n) is Ok,
    ensures
        m.draw(x, y, n) == Ok::<Machine, StepError>(
            Machine {
                v: m.v.update(
                    FLAG_REG as int,
                    flag(collides(m.fb.pixels, m.sprite(n), m.v[x] as int, m.v[y] as int)),
                ),
                fb: FrameView {
                    pixels: blit(m.fb.pixels, m.sprite(n), m.v[x] as int, m.v[y] as int),
                    dirty: true,
                },
                ..m
            },
        ),
{
    lemma_draw_rows(m, x, y, n, n as nat);
    lemma_all_rows_done(m.fb.pixels, m.sprite(n), m.v[x] as int, m.v[y] as int);
    let drawn = m.draw(x, y, n)->Ok_0;
    assert(drawn.fb.pixels =~= blit(m.fb.pixels, m.sprite(n), m.v[x] as int, m.v[y] as int));
}

impl CPU {
    /// OP: Draw sprite to framebuffer
    ///     Display n-byte sprite starting at register I at (VX, VY), then
    ///     set VF = collision
    pub fn op_dxyn(&mut self, x: usize, y: usize, n: usize) -> (res: Result<(), StepError>)
        requires
            x < REG_COUNT,
            y < REG_COUNT,
            n < 16,
        ensures
            conforms(old(self)@.draw(x as int, y as int, n as int), res, old(self)@, final(self)@),
            res is Ok && x != FLAG_REG && y != FLAG_REG ==> {
                &&& final(self)@.fb.pixels == blit(
                    old(self)@.fb.pixels,
                    old(self)@.sprite(n as int),
                    old(self)@.v[x as int] as int,
                    old(self)@.v[y as int] as int,
                )
                &&& final(self)@.v[FLAG_REG as int] == flag(
                    collides(
                        old(self)@.fb.pixels,
                        old(self)@.sprite(n as int),
                        old(self)@.v[x as int] as int,
                        old(self)@.v[y as int] as int,
                    ),
                )
            },
            old(self).wf() ==> final(self).wf(),
    {
        let i = self.i as usize;
        if n > 0 && i + n > MEM_SIZE {
            return Err(StepError::AddressOutOfBounds);
        }
        self.v[FLAG_REG] = 0;
        let ghost cleared = self@;
        let mut row: usize = 0;
        while row < n
            invariant
                row <= n < 16,
                x < REG_COUNT,
                y < REG_COUNT,
                i == self.i,
                n > 0 ==> i + n <= MEM_SIZE,
                cleared == old(self)@.with_v(FLAG_REG as int, 0),
                self@ == cleared.draw_rows(x as int, y as int, row as nat),
            decreases n - row,
        {
            let byte = self.mem[i + row];
            let py = (self.v[y] as usize + row) % FB_HEIGHT;
            let ghost begun = self@;
            let mut bit: usize = 0;
            while bit < 8
                invariant
                    bit <= 8,
                    x < REG_COUNT,
                    py < FB_HEIGHT,
                    self.i == begun.i,
                    self@ == begun.draw_bits(x as int, py as int, byte, bit as nat),
                decreases 8 - bit,
            {
                let px = (self.v[x] as usize + bit) % FB_WIDTH;
                let cell = py * FB_WIDTH + px;
                let on = byte & (0x80u8 >> (bit as u8)) != 0;
                if on && self.fb.data[cell] {
                    self.v[FLAG_REG] = 1;
                }
                self.fb.data[cell] = self.fb.data[cell] != on;
                bit += 1;
            }
            row += 1;
        }
        self.fb.update = true;
        proof {
            law_draw_touches_screen_and_flag(old(self)@, x as int, y as int, n as int);
            if x != FLAG_REG && y != FLAG_REG {
                law_draw_is_xor(old(self)@, x as int, y as int, n as int);
            }
        }
        Ok(())
    }
}

} // verus!
