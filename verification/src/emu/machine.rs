//! The mathematical model of the virtual machine: its state as plain
//! values, and each instruction as a function from state to state.

use vstd::prelude::*;
use crate::emu::font::{FONT, FONT_LEN};
use crate::emu::frame::{blank_pixels, FrameView, FB_LEN};
use crate::emu::keypad::{all_released, lowest_pressed, KeypadView, KEY_COUNT};

verus! {

/// Bytes of addressable memory.
pub const MEM_SIZE: usize = 4096;

/// Address at which programs are loaded and at which execution starts.
pub const PROGRAM_START: u16 = 0x200;

/// The largest program that fits between `PROGRAM_START` and the end of
/// memory.
pub const ROM_SIZE: usize = 3584;

/// Number of general registers, `V0` to `VF`.
pub const REG_COUNT: usize = 16;

/// Number of return-address slots.
pub const STACK_SIZE: usize = 16;

/// Index of the flag register `VF`.
pub const FLAG_REG: usize = 0xF;

/// Why a step was aborted.
#[derive(Debug, Clone, Copy, PartialEq, Eq, Structural)]
pub enum StepError {
    /// The instruction word matches no known pattern.
    InvalidOpcode,
    /// The instruction is a `0nnn` native call, which is not emulated.
    UnsupportedNativeCall,
    /// A call would nest deeper than the stack allows.
    StackOverflow,
    /// A return was executed with no call outstanding.
    StackUnderflow,
    /// A fetch, a memory access through `I`, or a key lookup fell outside
    /// its range.
    AddressOutOfBounds,
}

/// The two states of the key-wait protocol.
pub enum Mode {
    /// Instructions are fetched and executed.
    Running,
    /// Execution is suspended until a key is seen down; the key's index
    /// will go to the register named here.
    WaitingForKey(nat),
}

/// The whole state of the machine.
pub struct Machine {
    /// Registers `V0` to `VF`.
    pub v: Seq<u8>,
    /// Memory, one byte per address.
    pub mem: Seq<u8>,
    /// Return addresses. Slot 0 is never used: a call first raises `sp`.
    pub stack: Seq<u16>,
    /// Delay timer.
    pub dt: u8,
    /// Sound timer.
    pub st: u8,
    /// Index register `I`.
    pub i: u16,
    /// Program counter.
    pub pc: u16,
    /// Stack pointer: the slot of the innermost return address, 0 when no
    /// call is outstanding.
    pub sp: u8,
    /// Keypad.
    pub kp: KeypadView,
    /// Framebuffer.
    pub fb: FrameView,
}

/// 1 for `true`, 0 for `false`: how a condition is stored in `VF`.
pub open spec fn flag(b: bool) -> u8 {
    if b {
        1
    } else {
        0
    }
}

/// `n` reduced modulo 256.
pub open spec fn low_byte(n: int) -> u8 {
    (n % 256) as u8
}

/// The instruction word made of two consecutive bytes, high byte first.
pub open spec fn word(hi: u8, lo: u8) -> u16 {
    (hi * 256 + lo) as u16
}

/// Highest nibble of an instruction word: the instruction class.
pub open spec fn op_class(opcode: u16) -> int {
    opcode as int / 0x1000
}

/// Second nibble: the register operand `x`.
pub open spec fn op_x(opcode: u16) -> int {
    (opcode as int / 0x100) % 0x10
}

/// Third nibble: the register operand `y`.
pub open spec fn op_y(opcode: u16) -> int {
    (opcode as int / 0x10) % 0x10
}

/// Lowest nibble: the operand `n`.
pub open spec fn op_n(opcode: u16) -> int {
    opcode as int % 0x10
}

/// Low byte: the operand `nn`.
pub open spec fn op_nn(opcode: u16) -> u8 {
    (opcode as int % 0x100) as u8
}

/// Low twelve bits: the operand `nnn`.
pub open spec fn op_nnn(opcode: u16) -> u16 {
    (opcode as int % 0x1000) as u16
}

/// Whether bit `col` of a sprite row is set, counting from the most
/// significant bit.
pub open spec fn sprite_bit(row: u8, col: u8) -> bool {
    row & (0x80u8 >> col) != 0
}

/// The column of a sprite whose left edge is at `vx` that falls on
/// framebuffer cell `k`, counted with wraparound at the right screen edge.
/// The screen is 64 cells wide and cell `k` lies in column `k mod 64`.
pub open spec fn sprite_col(vx: int, k: int) -> int {
    (k % 64 - vx) % 64
}

/// The row of a sprite whose top edge is at `vy` that falls on framebuffer
/// cell `k`, counted with wraparound at the bottom screen edge. The screen
/// is 32 cells high and cell `k` lies in row `k / 64`.
pub open spec fn sprite_row(vy: int, k: int) -> int {
    (k / 64 - vy) % 32
}

/// Whether a sprite drawn with its top-left corner at `(vx, vy)` has a set
/// bit on framebuffer cell `k`. A sprite row is eight bits wide.
pub open spec fn sprite_covers(sprite: Seq<u8>, vx: int, vy: int, k: int) -> bool {
    let col = sprite_col(vx, k);
    let row = sprite_row(vy, k);
    col < 8 && row < sprite.len() && sprite_bit(sprite[row], col as u8)
}

/// The pixels after a sprite has been XORed onto them.
pub open spec fn blit(pixels: Seq<bool>, sprite: Seq<u8>, vx: int, vy: int) -> Seq<bool> {
    Seq::new(FB_LEN as nat, |k: int| pixels[k] != sprite_covers(sprite, vx, vy, k))
}

/// Whether some set bit of the sprite lands on a pixel that is already lit.
pub open spec fn collides(pixels: Seq<bool>, sprite: Seq<u8>, vx: int, vy: int) -> bool {
    exists|k: int| 0 <= k < FB_LEN && pixels[k] && #[trigger] sprite_covers(sprite, vx, vy, k)
}

/// Memory after a reset: the font table from address 0, zero elsewhere.
pub open spec fn reset_memory() -> Seq<u8> {
    Seq::new(
        MEM_SIZE as nat,
        |a: int|
            if a < FONT_LEN {
                FONT@[a]
            } else {
                0u8
            },
    )
}

impl Machine {
    /// Every component has its fixed size.
    pub open spec fn shaped(self) -> bool {
        &&& self.v.len() == REG_COUNT
        &&& self.mem.len() == MEM_SIZE
        &&& self.stack.len() == STACK_SIZE
        &&& self.kp.keys.len() == KEY_COUNT
        &&& self.fb.pixels.len() == FB_LEN
    }

    /// The state invariant: the stack pointer names a slot of the stack and
    /// the target of a key wait names a register.
    pub open spec fn wf(self) -> bool {
        &&& self.shaped()
        &&& self.sp < STACK_SIZE
        &&& self.kp.block_reg < REG_COUNT
    }

    /// Where the machine stands in the key-wait protocol.
    pub open spec fn mode(self) -> Mode {
        if self.kp.block {
            Mode::WaitingForKey(self.kp.block_reg)
        } else {
            Mode::Running
        }
    }

    /// The state after power-on: zeroed, font loaded, `PC` at the program
    /// start.
    pub open spec fn initial() -> Machine {
        Machine {
            v: Seq::new(REG_COUNT as nat, |r: int| 0u8),
            mem: reset_memory(),
            stack: Seq::new(STACK_SIZE as nat, |s: int| 0u16),
            dt: 0,
            st: 0,
            i: 0,
            pc: PROGRAM_START,
            sp: 0,
            kp: KeypadView { keys: all_released(), block: false, block_reg: 0 },
            fb: FrameView { pixels: blank_pixels(), dirty: false },
        }
    }

    /// The state after a reset: as after power-on, except that a pending
    /// key wait stays pending.
    pub open spec fn reset(self) -> Machine {
        Machine { kp: KeypadView { keys: all_released(), ..self.kp }, ..Machine::initial() }
    }

    /// Memory with `rom` copied to the program area; nothing else changes.
    pub open spec fn load(self, rom: Seq<u8>) -> Machine {
        Machine {
            mem: Seq::new(
                MEM_SIZE as nat,
                |a: int|
                    if PROGRAM_START <= a < PROGRAM_START + rom.len() {
                        rom[a - PROGRAM_START]
                    } else {
                        self.mem[a]
                    },
            ),
            ..self
        }
    }

    /// Both timers count down by one and stop at zero.
    pub open spec fn tick(self) -> Machine {
        Machine {
            dt: if self.dt > 0 {
                (self.dt - 1) as u8
            } else {
                0
            },
            st: if self.st > 0 {
                (self.st - 1) as u8
            } else {
                0
            },
            ..self
        }
    }

    /// Register `x` replaced by `value`.
    pub open spec fn with_v(self, x: int, value: u8) -> Machine {
        Machine { v: self.v.update(x, value), ..self }
    }

    /// `PC` moved past the next instruction when `cond` holds. `PC` is a
    /// sixteen-bit register and wraps as one.
    pub open spec fn skip_if(self, cond: bool) -> Machine {
        if cond {
            Machine { pc: ((self.pc + 2) % 0x10000) as u16, ..self }
        } else {
            self
        }
    }

    /// `00E0`: every pixel dark, framebuffer dirty.
    pub open spec fn clear_screen(self) -> Machine {
        Machine { fb: FrameView { pixels: blank_pixels(), dirty: true }, ..self }
    }

    /// `00EE`: `PC` taken from the innermost stack slot, which is released.
    pub open spec fn ret(self) -> Result<Machine, StepError> {
        if self.sp == 0 {
            Err(StepError::StackUnderflow)
        } else {
            Ok(Machine { pc: self.stack[self.sp as int], sp: (self.sp - 1) as u8, ..self })
        }
    }

    /// `1nnn`: `PC` set to `nnn`.
    pub open spec fn jump(self, nnn: u16) -> Machine {
        Machine { pc: nnn, ..self }
    }

    /// `2nnn`: `PC` saved in the next stack slot, then set to `nnn`.
    pub open spec fn call(self, nnn: u16) -> Result<Machine, StepError> {
        if self.sp + 1 >= STACK_SIZE {
            Err(StepError::StackOverflow)
        } else {
            Ok(
                Machine {
                    stack: self.stack.update(self.sp + 1, self.pc),
                    sp: (self.sp + 1) as u8,
                    pc: nnn,
                    ..self
                },
            )
        }
    }

    /// `7xnn`: `nn` added to `Vx` modulo 256. No carry is recorded.
    pub open spec fn add_immediate(self, x: int, nn: u8) -> Machine {
        self.with_v(x, low_byte(self.v[x] + nn))
    }

    /// `8xy1`: `Vx` ORed with `Vy`, then `VF` cleared.
    pub open spec fn or_registers(self, x: int, y: int) -> Machine {
        self.with_v(x, self.v[x] | self.v[y]).with_v(FLAG_REG as int, 0)
    }

    /// `8xy2`: `Vx` ANDed with `Vy`, then `VF` cleared.
    pub open spec fn and_registers(self, x: int, y: int) -> Machine {
        self.with_v(x, self.v[x] & self.v[y]).with_v(FLAG_REG as int, 0)
    }

    /// `8xy3`: `Vx` XORed with `Vy`, then `VF` cleared.
    pub open spec fn xor_registers(self, x: int, y: int) -> Machine {
        self.with_v(x, self.v[x] ^ self.v[y]).with_v(FLAG_REG as int, 0)
    }

    /// `8xy4`: `Vy` added to `Vx` modulo 256, then `VF` set to the carry.
    pub open spec fn add_registers(self, x: int, y: int) -> Machine {
        self.with_v(x, low_byte(self.v[x] + self.v[y])).with_v(
            FLAG_REG as int,
            flag(self.v[x] + self.v[y] > 255),
        )
    }

    /// `8xy5`: `Vy` subtracted from `Vx` modulo 256, then `VF` set to 1 when
    /// nothing was borrowed.
    pub open spec fn subtract_registers(self, x: int, y: int) -> Machine {
        self.with_v(x, low_byte(self.v[x] - self.v[y])).with_v(
            FLAG_REG as int,
            flag(self.v[x] >= self.v[y]),
        )
    }

    /// `8xy6`: `Vx` halved, then `VF` set to the bit shifted out. `Vy` plays
    /// no part.
    pub open spec fn shift_right(self, x: int) -> Machine {
        self.with_v(x, (self.v[x] / 2) as u8).with_v(FLAG_REG as int, (self.v[x] % 2) as u8)
    }

    /// `8xy7`: `Vx` set to `Vy - Vx` modulo 256, then `VF` set to 1 when
    /// nothing was borrowed.
    pub open spec fn subtract_reversed(self, x: int, y: int) -> Machine {
        self.with_v(x, low_byte(self.v[y] - self.v[x])).with_v(
            FLAG_REG as int,
            flag(self.v[y] >= self.v[x]),
        )
    }

    /// `8xyE`: `Vx` doubled modulo 256, then `VF` set to the bit shifted
    /// out. `Vy` plays no part.
    pub open spec fn shift_left(self, x: int) -> Machine {
        self.with_v(x, low_byte(self.v[x] * 2)).with_v(FLAG_REG as int, (self.v[x] / 128) as u8)
    }

    /// `Annn`: `I` set to `nnn`.
    pub open spec fn set_index(self, nnn: u16) -> Machine {
        Machine { i: nnn, ..self }
    }

    /// `Bnnn`: `PC` set to `V0 + nnn`, for a twelve-bit `nnn`.
    pub open spec fn jump_offset(self, nnn: u16) -> Machine {
        Machine { pc: (self.v[0] + nnn) as u16, ..self }
    }

    /// `Cxnn`: `Vx` set to the byte `rand` masked by `nn`.
    pub open spec fn randomize(self, x: int, nn: u8, rand: u8) -> Machine {
        self.with_v(x, rand & nn)
    }

    /// The `n` bytes of sprite data at `I`, one byte per row.
    pub open spec fn sprite(self, n: int) -> Seq<u8> {
        Seq::new(n as nat, |row: int| self.mem[self.i + row])
    }

    /// One sprite bit drawn on the cell in column `px` of row `py`: a set
    /// bit toggles the pixel, and `VF` becomes 1 when that pixel was lit.
    pub open spec fn plot(self, px: int, py: int, on: bool) -> Machine {
        let cell = py * 64 + px;
        Machine {
            v: if on && self.fb.pixels[cell] {
                self.v.update(FLAG_REG as int, 1)
            } else {
                self.v
            },
            fb: FrameView {
                pixels: self.fb.pixels.update(cell, self.fb.pixels[cell] != on),
                ..self.fb
            },
            ..self
        }
    }

    /// The first `bits` bits of the sprite row `byte` drawn in screen row
    /// `py`, from the most significant bit on: each bit at column
    /// `(Vx + bit) mod 64`, with `Vx` as it stands when the bit is drawn.
    pub open spec fn draw_bits(self, x: int, py: int, byte: u8, bits: nat) -> Machine
        decreases bits,
    {
        if bits == 0 {
            self
        } else {
            let bit = bits - 1;
            let prev = self.draw_bits(x, py, byte, bit as nat);
            prev.plot((prev.v[x] + bit) % 64, py, sprite_bit(byte, bit as u8))
        }
    }

    /// The first `rows` rows of the sprite at `I` drawn, from the top row
    /// on: each row in screen row `(Vy + row) mod 32`, with `Vy` as it
    /// stands when the row is begun.
    pub open spec fn draw_rows(self, x: int, y: int, rows: nat) -> Machine
        decreases rows,
    {
        if rows == 0 {
            self
        } else {
            let row = rows - 1;
            let prev = self.draw_rows(x, y, row as nat);
            prev.draw_bits(x, (prev.v[y] + row) % 32, prev.mem[prev.i + row], 8)
        }
    }

    /// `Dxyn`: `VF` cleared, then the `n` rows of the sprite at `I` drawn at
    /// `(Vx, Vy)` bit by bit, then the framebuffer marked dirty. Where
    /// neither `x` nor `y` names `VF` this comes to the sprite XORed onto the
    /// screen with `VF` telling whether a lit pixel was hit, as
    /// `law_draw_is_xor` shows. A sprite that is placed through `VF` starts
    /// at coordinate 0 and moves to coordinate 1 at its first collision.
    /// Fails, changing nothing, when the sprite data reaches past the end
    /// of memory.
    pub open spec fn draw(self, x: int, y: int, n: int) -> Result<Machine, StepError> {
        if n > 0 && self.i + n > MEM_SIZE {
            Err(StepError::AddressOutOfBounds)
        } else {
            let drawn = self.with_v(FLAG_REG as int, 0).draw_rows(x, y, n as nat);
            Ok(Machine { fb: FrameView { dirty: true, ..drawn.fb }, ..drawn })
        }
    }

    /// `Ex9E` (`pressed` true) and `ExA1` (`pressed` false): skip when key
    /// `Vx` is in the given state. Fails when `Vx` names no key.
    pub open spec fn skip_if_key(self, x: int, pressed: bool) -> Result<Machine, StepError> {
        if self.v[x] >= KEY_COUNT {
            Err(StepError::AddressOutOfBounds)
        } else {
            Ok(self.skip_if(self.kp.keys[self.v[x] as int] == pressed))
        }
    }

    /// `Fx0A`: the machine suspended until a key is seen, with `x` recorded
    /// as the register to receive it.
    pub open spec fn wait_for_key(self, x: int) -> Machine {
        Machine { kp: KeypadView { block: true, block_reg: x as nat, ..self.kp }, ..self }
    }

    /// `Fx15`: delay timer set to `Vx`.
    pub open spec fn set_delay(self, x: int) -> Machine {
        Machine { dt: self.v[x], ..self }
    }

    /// `Fx18`: sound timer set to `Vx`.
    pub open spec fn set_sound(self, x: int) -> Machine {
        Machine { st: self.v[x], ..self }
    }

    /// `Fx1E`: `Vx` added to `I`. `I` is a sixteen-bit register and wraps as
    /// one.
    pub open spec fn add_index(self, x: int) -> Machine {
        Machine { i: ((self.i + self.v[x]) % 0x10000) as u16, ..self }
    }

    /// `Fx29`: `I` set to the address of the glyph for `Vx`, five bytes per
    /// glyph from address 0.
    pub open spec fn glyph_address(self, x: int) -> Machine {
        Machine { i: (self.v[x] * 5) as u16, ..self }
    }

    /// `Fx33`: the hundreds, tens and ones digit of `Vx` written to `I`,
    /// `I + 1` and `I + 2`. Fails, changing nothing, when one of the three
    /// addresses is outside memory.
    pub open spec fn store_bcd(self, x: int) -> Result<Machine, StepError> {
        if self.i + 2 >= MEM_SIZE {
            Err(StepError::AddressOutOfBounds)
        } else {
            Ok(
                Machine {
                    mem: self.mem.update(self.i as int, (self.v[x] / 100) as u8).update(
                        self.i + 1,
                        ((self.v[x] / 10) % 10) as u8,
                    ).update(self.i + 2, (self.v[x] % 10) as u8),
                    ..self
                },
            )
        }
    }

    /// `Fx55`: `V0` to `Vx` written to memory from `I` on; `I` keeps its
    /// value. Fails, changing nothing, when one of the addresses is outside
    /// memory.
    pub open spec fn store_registers(self, x: int) -> Result<Machine, StepError> {
        if self.i + x >= MEM_SIZE {
            Err(StepError::AddressOutOfBounds)
        } else {
            Ok(
                Machine {
                    mem: Seq::new(
                        MEM_SIZE as nat,
                        |a: int|
                            if self.i <= a <= self.i + x {
                                self.v[a - self.i]
                            } else {
                                self.mem[a]
                            },
                    ),
                    ..self
                },
            )
        }
    }

    /// `Fx65`: `V0` to `Vx` read from memory from `I` on; `I` keeps its
    /// value. Fails, changing nothing, when one of the addresses is outside
    /// memory.
    pub open spec fn load_registers(self, x: int) -> Result<Machine, StepError> {
        if self.i + x >= MEM_SIZE {
            Err(StepError::AddressOutOfBounds)
        } else {
            Ok(
                Machine {
                    v: Seq::new(
                        REG_COUNT as nat,
                        |r: int|
                            if r <= x {
                                self.mem[self.i + r]
                            } else {
                                self.v[r]
                            },
                    ),
                    ..self
                },
            )
        }
    }

    /// The instruction word at `PC` and the state with `PC` moved past it.
    /// Fails when either of its two bytes is outside memory.
    pub open spec fn fetch(self) -> Result<(u16, Machine), StepError> {
        if self.pc + 1 >= MEM_SIZE {
            Err(StepError::AddressOutOfBounds)
        } else {
            Ok(
                (
                    word(self.mem[self.pc as int], self.mem[self.pc + 1]),
                    Machine { pc: (self.pc + 2) as u16, ..self },
                ),
            )
        }
    }

    /// The effect of one instruction word: the dispatch table. `rand` is
    /// the byte that a `Cxnn` instruction masks; no other instruction looks
    /// at it.
    pub open spec fn execute(self, opcode: u16, rand: u8) -> Result<Machine, StepError> {
        let x = op_x(opcode);
        let y = op_y(opcode);
        let n = op_n(opcode);
        let nn = op_nn(opcode);
        let nnn = op_nnn(opcode);
        let class = op_class(opcode);
        if opcode == 0x00E0 {
            Ok(self.clear_screen())
        } else if opcode == 0x00EE {
            self.ret()
        } else if class == 0x0 {
            Err(StepError::UnsupportedNativeCall)
        } else if class == 0x1 {
            Ok(self.jump(nnn))
        } else if class == 0x2 {
            self.call(nnn)
        } else if class == 0x3 {
            Ok(self.skip_if(self.v[x] == nn))
        } else if class == 0x4 {
            Ok(self.skip_if(self.v[x] != nn))
        } else if class == 0x5 && n == 0x0 {
            Ok(self.skip_if(self.v[x] == self.v[y]))
        } else if class == 0x6 {
            Ok(self.with_v(x, nn))
        } else if class == 0x7 {
            Ok(self.add_immediate(x, nn))
        } else if class == 0x8 && n == 0x0 {
            Ok(self.with_v(x, self.v[y]))
        } else if class == 0x8 && n == 0x1 {
            Ok(self.or_registers(x, y))
        } else if class == 0x8 && n == 0x2 {
            Ok(self.and_registers(x, y))
        } else if class == 0x8 && n == 0x3 {
            Ok(self.xor_registers(x, y))
        } else if class == 0x8 && n == 0x4 {
            Ok(self.add_registers(x, y))
        } else if class == 0x8 && n == 0x5 {
            Ok(self.subtract_registers(x, y))
        } else if class == 0x8 && n == 0x6 {
            Ok(self.shift_right(x))
        } else if class == 0x8 && n == 0x7 {
            Ok(self.subtract_reversed(x, y))
        } else if class == 0x8 && n == 0xE {
            Ok(self.shift_left(x))
        } else if class == 0x9 && n == 0x0 {
            Ok(self.skip_if(self.v[x] != self.v[y]))
        } else if class == 0xA {
            Ok(self.set_index(nnn))
        } else if class == 0xB {
            Ok(self.jump_offset(nnn))
        } else if class == 0xC {
            Ok(self.randomize(x, nn, rand))
        } else if class == 0xD {
            self.draw(x, y, n)
        } else if class == 0xE && nn == 0x9E {
            self.skip_if_key(x, true)
        } else if class == 0xE && nn == 0xA1 {
            self.skip_if_key(x, false)
        } else if class == 0xF && nn == 0x07 {
            Ok(self.with_v(x, self.dt))
        } else if class == 0xF && nn == 0x0A {
            Ok(self.wait_for_key(x))
        } else if class == 0xF && nn == 0x15 {
            Ok(self.set_delay(x))
        } else if class == 0xF && nn == 0x18 {
            Ok(self.set_sound(x))
        } else if class == 0xF && nn == 0x1E {
            Ok(self.add_index(x))
        } else if class == 0xF && nn == 0x29 {
            Ok(self.glyph_address(x))
        } else if class == 0xF && nn == 0x33 {
            self.store_bcd(x)
        } else if class == 0xF && nn == 0x55 {
            self.store_registers(x)
        } else if class == 0xF && nn == 0x65 {
            self.load_registers(x)
        } else {
            Err(StepError::InvalidOpcode)
        }
    }

    /// A suspended machine looks at the keypad: the lowest key that is down
    /// goes to the recorded register and the wait ends; with no key down
    /// nothing changes.
    pub open spec fn poll_key(self) -> Machine {
        match lowest_pressed(self.kp.keys) {
            Some(k) => Machine {
                v: self.v.update(self.kp.block_reg as int, k as u8),
                kp: KeypadView { block: false, ..self.kp },
                ..self
            },
            None => self,
        }
    }

    /// One step. A suspended machine polls the keypad and neither fetches
    /// nor moves `PC`. A running machine fetches the word at `PC`, moves
    /// `PC` past it and executes it. When the fetch fails the state is
    /// unchanged; when the instruction fails the state is as the fetch left
    /// it.
    pub open spec fn step(self, rand: u8) -> (Result<(), StepError>, Machine) {
        if self.kp.block {
            (Ok(()), self.poll_key())
        } else {
            match self.fetch() {
                Err(e) => (Err(e), self),
                Ok((opcode, fetched)) => match fetched.execute(opcode, rand) {
                    Ok(next) => (Ok(()), next),
                    Err(e) => (Err(e), fetched),
                },
            }
        }
    }

    /// Whether the next step draws a random byte: the machine is running
    /// and the word at `PC` is a `Cxnn` instruction.
    pub open spec fn next_is_random(self) -> bool {
        !self.kp.block && match self.fetch() {
            Ok((opcode, _)) => op_class(opcode) == 0xC,
            Err(_) => false,
        }
    }
}

/// Whether a handler that was specified by `expected` behaved so: on
/// success the state is the expected one, on failure the error is the
/// expected one and the state is untouched.
pub open spec fn conforms(
    expected: Result<Machine, StepError>,
    result: Result<(), StepError>,
    before: Machine,
    after: Machine,
) -> bool {
    match expected {
        Ok(next) => result == Ok::<(), StepError>(()) && after == next,
        Err(e) => result == Err::<(), StepError>(e) && after == before,
    }
}

} // verus!
