//! The instruction handlers, one per entry of the dispatch table.
//!
//! Register operands `x` and `y` are register indices, `n` is a nibble,
//! `nn` a byte and `nnn` a twelve-bit address. A handler that can fail
//! leaves the machine untouched when it does. A handler that sets the flag
//! register `VF` writes it last: where `x` names `VF` itself, the flag is
//! what remains.

use vstd::prelude::*;
use crate::emu::cpu::CPU;
use crate::emu::frame::FB_LEN;
use crate::emu::keypad::KEY_COUNT;
use crate::emu::machine::{
    conforms, StepError, FLAG_REG, MEM_SIZE, REG_COUNT, STACK_SIZE,
};
use crate::emu::random::random_byte;

verus! {

impl CPU {
    /// OP: Call machine code routine at NNN. Not emulated: always fails.
    pub fn op_0nnn(&mut self, _nnn: u16) -> (res: Result<(), StepError>)
        ensures
            res == Err::<(), StepError>(StepError::UnsupportedNativeCall),
            final(self)@ == old(self)@,
    {
        Err(StepError::UnsupportedNativeCall)
    }

    /// OP: Clears the screen
    pub fn op_00e0(&mut self)
        ensures
            final(self)@ == old(self)@.clear_screen(),
    {
        self.fb.data = [false; FB_LEN];
        self.fb.update = true;
        assert(self@.fb.pixels =~= old(self)@.clear_screen().fb.pixels);
    }

    /// OP: Returns from a subroutine
    pub fn op_00ee(&mut self) -> (res: Result<(), StepError>)
        requires
            old(self).sp < STACK_SIZE,
        ensures
            conforms(old(self)@.ret(), res, old(self)@, final(self)@),
    {
        if self.sp == 0 {
            return Err(StepError::StackUnderflow);
        }
        self.pc = self.stack[self.sp as usize];
        self.sp -= 1;
        Ok(())
    }

    /// OP: Jump to address NNN
    pub fn op_1nnn(&mut self, nnn: u16)
        ensures
            final(self)@ == old(self)@.jump(nnn),
    {
        self.pc = nnn;
    }

    /// OP: Calls subroutine at NNN
    pub fn op_2nnn(&mut self, nnn: u16) -> (res: Result<(), StepError>)
        ensures
            conforms(old(self)@.call(nnn), res, old(self)@, final(self)@),
    {
        if self.sp as usize + 1 >= STACK_SIZE {
            return Err(StepError::StackOverflow);
        }
        self.sp += 1;
        self.stack[self.sp as usize] = self.pc;
        self.pc = nnn;
        Ok(())
    }

    /// OP: Skips the next instruction if VX == NN
    pub fn op_3xnn(&mut self, x: usize, nn: u8)
        requires
            x < REG_COUNT,
        ensures
            final(self)@ == old(self)@.skip_if(old(self)@.v[x as int] == nn),
    {
        if self.v[x] == nn {
            self.pc = self.pc.wrapping_add(2);
        }
    }

    /// OP: Skips the next instruction if VX != NN
    pub fn op_4xnn(&mut self, x: usize, nn: u8)
        requires
            x < REG_COUNT,
        ensures
            final(self)@ == old(self)@.skip_if(old(self)@.v[x as int] != nn),
    {
        if self.v[x] != nn {
            self.pc = self.pc.wrapping_add(2);
        }
    }

    /// OP: Skips the next instruction if VX == VY
    pub fn op_5xy0(&mut self, x: usize, y: usize)
        requires
            x < REG_COUNT,
            y < REG_COUNT,
        ensures
            final(self)@ == old(self)@.skip_if(old(self)@.v[x as int] == old(self)@.v[y as int]),
    {
        if self.v[x] == self.v[y] {
            self.pc = self.pc.wrapping_add(2);
        }
    }

    /// OP: Set VX to NN
    pub fn op_6xnn(&mut self, x: usize, nn: u8)
        requires
            x < REG_COUNT,
        ensures
            final(self)@ == old(self)@.with_v(x as int, nn),
            final(self)@.v[x as int] == nn,
    {
        self.v[x] = nn;
    }

    /// OP: Add NN to VX
    pub fn op_7xnn(&mut self, x: usize, nn: u8)
        requires
            x < REG_COUNT,
        ensures
            final(self)@ == old(self)@.add_immediate(x as int, nn),
            final(self)@.v[x as int] == (old(self)@.v[x as int] + nn) % 256,
    {
        self.v[x] = self.v[x].wrapping_add(nn);
    }

    /// OP: Sets VX to VY
    pub fn op_8xy0(&mut self, x: usize, y: usize)
        requires
            x < REG_COUNT,
            y < REG_COUNT,
        ensures
            final(self)@ == old(self)@.with_v(x as int, old(self)@.v[y as int]),
    {
        self.v[x] = self.v[y];
    }

    /// OP: Sets VX to (VX OR VY)
    pub fn op_8xy1(&mut self, x: usize, y: usize)
        requires
            x < REG_COUNT,
            y < REG_COUNT,
        ensures
            final(self)@ == old(self)@.or_registers(x as int, y as int),
    {
        self.v[x] = self.v[x] | self.v[y];
        self.v[FLAG_REG] = 0;
    }

    /// OP: Sets VX to (VX AND VY)
    pub fn op_8xy2(&mut self, x: usize, y: usize)
        requires
            x < REG_COUNT,
            y < REG_COUNT,
        ensures
            final(self)@ == old(self)@.and_registers(x as int, y as int),
    {
        self.v[x] = self.v[x] & self.v[y];
        self.v[FLAG_REG] = 0;
    }

    /// OP: Sets VX to (VX XOR VY)
    pub fn op_8xy3(&mut self, x: usize, y: usize)
        requires
            x < REG_COUNT,
            y < REG_COUNT,
        ensures
            final(self)@ == old(self)@.xor_registers(x as int, y as int),
    {
        self.v[x] = self.v[x] ^ self.v[y];
        self.v[FLAG_REG] = 0;
    }

    /// OP: Adds VY to VX.
    ///     VF = carry
    pub fn op_8xy4(&mut self, x: usize, y: usize)
        requires
            x < REG_COUNT,
            y < REG_COUNT,
        ensures
            final(self)@ == old(self)@.add_registers(x as int, y as int),
    {
        let vx = self.v[x];
        let vy = self.v[y];
        let carry = vx as u16 + vy as u16 > 255;
        self.v[x] = vx.wrapping_add(vy);
        self.v[FLAG_REG] = if carry {
            1
        } else {
            0
        };
    }

    /// OP: Subtracts VY from VX
    ///     VF = NOT borrow
    pub fn op_8xy5(&mut self, x: usize, y: usize)
        requires
            x < REG_COUNT,
            y < REG_COUNT,
        ensures
            final(self)@ == old(self)@.subtract_registers(x as int, y as int),
    {
        let vx = self.v[x];
        let vy = self.v[y];
        self.v[x] = vx.wrapping_sub(vy);
        self.v[FLAG_REG] = if vx >= vy {
            1
        } else {
            0
        };
    }

    /// OP: Shifts VX right by 1
    ///     Stores least significant bit of VX in VF
    pub fn op_8xy6(&mut self, x: usize, _y: usize)
        requires
            x < REG_COUNT,
        ensures
            final(self)@ == old(self)@.shift_right(x as int),
    {
        let vx = self.v[x];
        assert(vx >> 1 == vx / 2 && vx & 1 == vx % 2) by (bit_vector);
        self.v[x] = vx >> 1;
        self.v[FLAG_REG] = vx & 1;
    }

    /// OP: Sets VX to VY - VX
    ///     VF = NOT borrow
    pub fn op_8xy7(&mut self, x: usize, y: usize)
        requires
            x < REG_COUNT,
            y < REG_COUNT,
        ensures
            final(self)@ == old(self)@.subtract_reversed(x as int, y as int),
    {
        let vx = self.v[x];
        let vy = self.v[y];
        self.v[x] = vy.wrapping_sub(vx);
        self.v[FLAG_REG] = if vy >= vx {
            1
        } else {
            0
        };
    }

    /// OP: Shifts VX left by 1
    ///     Stores most significant bit of VX in VF
    pub fn op_8xye(&mut self, x: usize, _y: usize)
        requires
            x < REG_COUNT,
        ensures
            final(self)@ == old(self)@.shift_left(x as int),
    {
        let vx = self.v[x];
        assert(vx << 1 == (vx as u16 * 2) % 256 && vx >> 7 == vx / 128) by (bit_vector);
        self.v[x] = vx << 1;
        self.v[FLAG_REG] = vx >> 7;
    }

    /// OP: Skips next instruction if VX != VY
    pub fn op_9xy0(&mut self, x: usize, y: usize)
        requires
            x < REG_COUNT,
            y < REG_COUNT,
        ensures
            final(self)@ == old(self)@.skip_if(old(self)@.v[x as int] != old(self)@.v[y as int]),
    {
        if self.v[x] != self.v[y] {
            self.pc = self.pc.wrapping_add(2);
        }
    }

    /// OP: Set index register to NNN
    pub fn op_annn(&mut self, nnn: u16)
        ensures
            final(self)@ == old(self)@.set_index(nnn),
    {
        self.i = nnn;
    }

    /// OP: Jump to address (NNN + V0)
    pub fn op_bnnn(&mut self, nnn: u16)
        requires
            nnn <= 0xFFF,
        ensures
            final(self)@ == old(self)@.jump_offset(nnn),
    {
        self.pc = self.v[0] as u16 + nnn;
    }

    /// OP: Set VX to (RNG AND NN). The byte is drawn here, so all that can
    /// be said is that some byte was masked.
    pub fn op_cxnn(&mut self, x: usize, nn: u8)
        requires
            x < REG_COUNT,
        ensures
            exists|rand: u8| final(self)@ == #[trigger] old(self)@.randomize(x as int, nn, rand),
    {
        let rand = random_byte();
        self.op_cxnn_with(x, nn, rand);
    }

    /// Set VX to (`rand` AND NN): what `Cxnn` does once its byte is drawn.
    pub fn op_cxnn_with(&mut self, x: usize, nn: u8, rand: u8)
        requires
            x < REG_COUNT,
        ensures
            final(self)@ == old(self)@.randomize(x as int, nn, rand),
            final(self)@.v[x as int] == rand & nn,
    {
        self.v[x] = rand & nn;
    }

    /// OP: Skips the next instruction if key in VX is pressed
    pub fn op_ex9e(&mut self, x: usize) -> (res: Result<(), StepError>)
        requires
            x < REG_COUNT,
        ensures
            conforms(old(self)@.skip_if_key(x as int, true), res, old(self)@, final(self)@),
    {
        let key_idx = self.v[x] as usize;
        if key_idx >= KEY_COUNT {
            return Err(StepError::AddressOutOfBounds);
        }
        if self.kp.state[key_idx] {
            self.pc = self.pc.wrapping_add(2);
        }
        Ok(())
    }

    /// OP: Skips the next instruction if key in VX is not pressed
    pub fn op_exa1(&mut self, x: usize) -> (res: Result<(), StepError>)
        requires
            x < REG_COUNT,
        ensures
            conforms(old(self)@.skip_if_key(x as int, false), res, old(self)@, final(self)@),
    {
        let key_idx = self.v[x] as usize;
        if key_idx >= KEY_COUNT {
            return Err(StepError::AddressOutOfBounds);
        }
        if !self.kp.state[key_idx] {
            self.pc = self.pc.wrapping_add(2);
        }
        Ok(())
    }

    /// OP: Sets VX to delay timer
    pub fn op_fx07(&mut self, x: usize)
        requires
            x < REG_COUNT,
        ensures
            final(self)@ == old(self)@.with_v(x as int, old(self)@.dt),
    {
        self.v[x] = self.dt;
    }

    /// OP: Wait for key press and store in VX [Blocking operation]
    pub fn op_fx0a(&mut self, x: usize)
        requires
            x < REG_COUNT,
        ensures
            final(self)@ == old(self)@.wait_for_key(x as int),
    {
        self.kp.block = true;
        self.kp.block_reg = x;
    }

    /// OP: Set delay timer to VX
    pub fn op_fx15(&mut self, x: usize)
        requires
            x < REG_COUNT,
        ensures
            final(self)@ == old(self)@.set_delay(x as int),
    {
        self.dt = self.v[x];
    }

    /// OP: Set sound timer to VX
    pub fn op_fx18(&mut self, x: usize)
        requires
            x < REG_COUNT,
        ensures
            final(self)@ == old(self)@.set_sound(x as int),
    {
        self.st = self.v[x];
    }

    /// OP: Adds VX to address register
    pub fn op_fx1e(&mut self, x: usize)
        requires
            x < REG_COUNT,
        ensures
            final(self)@ == old(self)@.add_index(x as int),
    {
        self.i = self.i.wrapping_add(self.v[x] as u16);
    }

    /// OP: Sets address register to location of sprite for character in VX
    //  These are font characters, and have a height of 5
    pub fn op_fx29(&mut self, x: usize)
        requires
            x < REG_COUNT,
        ensures
            final(self)@ == old(self)@.glyph_address(x as int),
    {
        self.i = self.v[x] as u16 * 5;
    }

    /// OP: Stores the binary-coded decimal representation of VX, with the most
    ///     significant of 3 digits at the address in mem[i], the middle digit
    ///     at mem[i+1], and the least significant digit at mem[i+2].
    pub fn op_fx33(&mut self, x: usize) -> (res: Result<(), StepError>)
        requires
            x < REG_COUNT,
        ensures
            conforms(old(self)@.store_bcd(x as int), res, old(self)@, final(self)@),
    {
        let i = self.i as usize;
        if i + 2 >= MEM_SIZE {
            return Err(StepError::AddressOutOfBounds);
        }
        let vx = self.v[x];
        self.mem[i] = vx / 100;
        self.mem[i + 1] = (vx / 10) % 10;
        self.mem[i + 2] = vx % 10;
        Ok(())
    }

    /// OP: Stores from V0 to VX in mem starting at address register
    ///     I is left unmodified
    pub fn op_fx55(&mut self, x: usize) -> (res: Result<(), StepError>)
        requires
            x < REG_COUNT,
        ensures
            conforms(old(self)@.store_registers(x as int), res, old(self)@, final(self)@),
    {
        let i = self.i as usize;
        if i + x >= MEM_SIZE {
            return Err(StepError::AddressOutOfBounds);
        }
        let mut idx: usize = 0;
        while idx <= x
            invariant
                idx <= x + 1,
                x < REG_COUNT,
                i == old(self).i,
                i + x < MEM_SIZE,
                forall|a: int|
                    0 <= a < MEM_SIZE ==> self.mem@[a] == if i <= a < i + idx {
                        old(self).v@[a - i]
                    } else {
                        old(self).mem@[a]
                    },
                self.v == old(self).v,
                self.stack == old(self).stack,
                self.dt == old(self).dt,
                self.st == old(self).st,
                self.i == old(self).i,
                self.pc == old(self).pc,
                self.sp == old(self).sp,
                self.kp == old(self).kp,
                self.fb == old(self).fb,
            decreases x + 1 - idx,
        {
            self.mem[i + idx] = self.v[idx];
            idx += 1;
        }
        assert(self@.mem =~= old(self)@.store_registers(x as int)->Ok_0.mem);
        Ok(())
    }

    /// OP: Fills from V0 to VX with values from mem, starting at address register
    ///     I is left unmodified
    pub fn op_fx65(&mut self, x: usize) -> (res: Result<(), StepError>)
        requires
            x < REG_COUNT,
        ensures
            conforms(old(self)@.load_registers(x as int), res, old(self)@, final(self)@),
    {
        let i = self.i as usize;
        if i + x >= MEM_SIZE {
            return Err(StepError::AddressOutOfBounds);
        }
        let mut idx: usize = 0;
        while idx <= x
            invariant
                idx <= x + 1,
                x < REG_COUNT,
                i == old(self).i,
                i + x < MEM_SIZE,
                forall|r: int|
                    0 <= r < REG_COUNT ==> self.v@[r] == if r < idx {
                        old(self).mem@[i + r]
                    } else {
                        old(self).v@[r]
                    },
                self.mem == old(self).mem,
                self.stack == old(self).stack,
                self.dt == old(self).dt,
                self.st == old(self).st,
                self.i == old(self).i,
                self.pc == old(self).pc,
                self.sp == old(self).sp,
                self.kp == old(self).kp,
                self.fb == old(self).fb,
            decreases x + 1 - idx,
        {
            self.v[idx] = self.mem[i + idx];
            idx += 1;
        }
        assert(self@.v =~= old(self)@.load_registers(x as int)->Ok_0.v);
        Ok(())
    }
}

} // verus!
