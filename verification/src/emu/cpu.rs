//! The executable machine: state in fixed-size arrays, and the
//! fetch-decode-execute engine that acts on it.

use vstd::prelude::*;
use crate::emu::font::{FONT, FONT_LEN};
use crate::emu::frame::Frame;
use crate::emu::keypad::Keypad;
use crate::emu::machine::{
    conforms, op_class, op_n, op_nn, op_nnn, op_x, op_y, word, Machine, StepError, MEM_SIZE,
    PROGRAM_START, REG_COUNT, ROM_SIZE, STACK_SIZE,
};

verus! {

/// The virtual machine.
#[derive(Debug)]
pub struct CPU {
    /// Registers
    pub v: [u8; REG_COUNT],
    /// Memory
    pub mem: [u8; MEM_SIZE],
    /// Stack
    pub stack: [u16; STACK_SIZE],
    /// Delay timer
    pub dt: u8,
    /// Sound timer
    pub st: u8,
    /// Address register
    pub i: u16,
    /// Program counter
    pub pc: u16,
    /// Stack pointer
    pub sp: u8,
    /// Keypad
    pub kp: Keypad,
    /// Frame
    pub fb: Frame,
}

impl View for CPU {
    type V = Machine;

    open spec fn view(&self) -> Machine {
        Machine {
            v: self.v@,
            mem: self.mem@,
            stack: self.stack@,
            dt: self.dt,
            st: self.st,
            i: self.i,
            pc: self.pc,
            sp: self.sp,
            kp: self.kp@,
            fb: self.fb@,
        }
    }
}

impl CPU {
    /// The state invariant of the machine, which every operation keeps:
    /// the stack pointer is at most 15 and the target register of a key
    /// wait is at most 15.
    pub open spec fn wf(&self) -> bool {
        self@.wf()
    }

    /// Whether the state invariant holds, for callers that write the
    /// public fields themselves.
    pub fn is_wf(&self) -> (ok: bool)
        ensures
            ok == self.wf(),
    {
        (self.sp as usize) < STACK_SIZE && self.kp.block_reg < REG_COUNT
    }

    /// A machine in its power-on state.
    pub fn initialize() -> (cpu: CPU)
        ensures
            cpu@ == Machine::initial(),
            cpu.wf(),
    {
        let mut cpu = CPU {
            v: [0; REG_COUNT],
            mem: [0; MEM_SIZE],
            stack: [0; STACK_SIZE],
            dt: 0,
            st: 0,
            i: 0,
            pc: 0,
            sp: 0,
            kp: Keypad::new(),
            fb: Frame::new(),
        };
        cpu.reset();
        cpu
    }

    /// Zero registers, stack, timers and `I`, reload the font, darken the
    /// screen, release every key and set `PC` to the program start. A
    /// pending key wait stays pending.
    pub fn reset(&mut self)
        ensures
            final(self)@ == old(self)@.reset(),
            old(self).wf() ==> final(self).wf(),
    {
        let mut mem = [0u8; MEM_SIZE];
        let mut a: usize = 0;
        while a < FONT_LEN
            invariant
                a <= FONT_LEN,
                forall|j: int| 0 <= j < a ==> mem@[j] == FONT@[j],
                forall|j: int| a <= j < MEM_SIZE ==> mem@[j] == 0,
            decreases FONT_LEN - a,
        {
            mem[a] = FONT[a];
            a += 1;
        }
        self.v = [0; REG_COUNT];
        self.mem = mem;
        self.stack = [0; STACK_SIZE];
        self.dt = 0;
        self.st = 0;
        self.i = 0;
        self.pc = PROGRAM_START;
        self.sp = 0;
        self.kp.reset();
        self.fb.reset();
        assert(self@.v =~= Machine::initial().v);
        assert(self@.mem =~= Machine::initial().mem);
        assert(self@.stack =~= Machine::initial().stack);
    }

    /// Copy a program into memory from the program start on. The rest of
    /// memory, the font included, keeps its contents.
    pub fn load(&mut self, rom: &[u8])
        requires
            rom@.len() <= ROM_SIZE,
        ensures
            final(self)@ == old(self)@.load(rom@),
            old(self).wf() ==> final(self).wf(),
    {
        let mut k: usize = 0;
        while k < rom.len()
            invariant
                k <= rom@.len() <= ROM_SIZE,
                forall|a: int|
                    0 <= a < MEM_SIZE ==> self.mem@[a] == if PROGRAM_START <= a < PROGRAM_START
                        + k {
                        rom@[a - PROGRAM_START]
                    } else {
                        old(self).mem@[a]
                    },
                self.v == old(self).v,
                self.stack == old(self).stack,
                self.dt == old(self).dt,
                self.st == old(self).st,
                self.i == old(self).i,
                self.pc == old(self).pc,
                self.sp == old(self).sp,
                self.kp == old(self).kp,
                self.fb == old(self).fb,
            decreases rom@.len() - k,
        {
            self.mem[PROGRAM_START as usize + k] = rom[k];
            k += 1;
        }
        assert(self@.mem =~= old(self)@.load(rom@).mem);
    }

    /// Progresses the sound and delay timers by 1, stopping at zero.
    pub fn tick(&mut self)
        ensures
            final(self)@ == old(self)@.tick(),
    {
        self.dt = self.dt.saturating_sub(1);
        self.st = self.st.saturating_sub(1);
    }

    /// Gets the current speaker state of the cpu: on while the sound timer
    /// is running.
    pub fn sound_state(&self) -> (on: bool)
        ensures
            on == (self@.st > 0),
    {
        self.st > 0
    }

    /// Fetches opcode, decodes and executes instruction; or, while a key
    /// wait is pending, looks for a key instead.
    ///
    /// A `Cxnn` instruction draws its random byte here, so for such a step
    /// the outcome is the modelled one for some byte; for every other step
    /// it is the modelled one whatever the byte.
    pub fn step(&mut self) -> (res: Result<(), StepError>)
        requires
            old(self).wf(),
        ensures
            final(self).wf(),
            exists|rand: u8| #[trigger] old(self)@.step(rand) == (res, final(self)@),
            !old(self)@.next_is_random() ==> forall|rand: u8| #[trigger]
                old(self)@.step(rand) == (res, final(self)@),
    {
        // Check if we need to block for keypad input first
        if self.kp.block {
            match self.kp.first_pressed() {
                Some(key_idx) => {
                    self.v[self.kp.block_reg] = key_idx as u8;
                    self.kp.block = false;
                },
                None => {},
            }
            assert(old(self)@.step(0) == (Ok::<(), StepError>(()), self@));
            Ok(())
        } else {
            let opcode = match self.fetch() {
                Ok(opcode) => opcode,
                Err(e) => {
                    assert(old(self)@.step(0) == (Err::<(), StepError>(e), self@));
                    return Err(e);
                },
            };
            let ghost fetched = self@;
            let res = self.decode_and_execute(opcode);
            proof {
                let rand = choose|rand: u8|
                    conforms(#[trigger] fetched.execute(opcode, rand), res, fetched, self@);
                assert(old(self)@.step(rand) == (res, self@));
                if !old(self)@.next_is_random() {
                    assert forall|rand: u8| #[trigger] old(self)@.step(rand) == (res, self@) by {}
                }
            }
            res
        }
    }

    /// Reads the instruction word at `PC`, high byte first, and moves `PC`
    /// past it.
    pub fn fetch(&mut self) -> (res: Result<u16, StepError>)
        ensures
            match res {
                Ok(opcode) => old(self)@.fetch() == Ok::<(u16, Machine), StepError>(
                    (opcode, final(self)@),
                ),
                Err(e) => old(self)@.fetch() == Err::<(u16, Machine), StepError>(e)
                    && final(self)@ == old(self)@,
            },
    {
        let pc = self.pc as usize;
        if pc + 1 >= MEM_SIZE {
            return Err(StepError::AddressOutOfBounds);
        }
        let hi = self.mem[pc];
        let lo = self.mem[pc + 1];
        let opcode = (hi as u16) << 8 | lo as u16;
        assert(opcode == word(hi, lo)) by (bit_vector)
            requires
                opcode == (hi as u16) << 8 | lo as u16,
        ;
        self.pc += 2;
        Ok(opcode)
    }

    /// Splits an instruction word into its fields and runs the handler
    /// that its pattern selects, the most specific pattern first.
    ///
    /// Only a `Cxnn` word depends on a random byte, which its handler
    /// draws: for such a word the outcome is the modelled one for some
    /// byte, for every other word it is the modelled one whatever the byte.
    #[verifier::rlimit(20)]
    pub fn decode_and_execute(&mut self, opcode: u16) -> (res: Result<(), StepError>)
        requires
            old(self).wf(),
        ensures
            final(self).wf(),
            exists|rand: u8|
                conforms(
                    #[trigger] old(self)@.execute(opcode, rand),
                    res,
                    old(self)@,
                    final(self)@,
                ),
            op_class(opcode) != 0xC ==> forall|rand: u8|
                conforms(
                    #[trigger] old(self)@.execute(opcode, rand),
                    res,
                    old(self)@,
                    final(self)@,
                ),
    {
        let op = (
            ((opcode & 0xF000) >> 12) as u8,
            ((opcode & 0x0F00) >> 8) as u8,
            ((opcode & 0x00F0) >> 4) as u8,
            (opcode & 0x000F) as u8,
        );

        let x = ((opcode & 0x0F00) >> 8) as usize;
        let y = ((opcode & 0x00F0) >> 4) as usize;
        let n = (opcode & 0x000F) as usize;
        let nn = (opcode & 0x00FF) as u8;
        let nnn = opcode & 0x0FFF;

        assert(op.0 == op_class(opcode) && x == op_x(opcode) && y == op_y(opcode) && n == op_n(
            opcode,
        ) && nn == op_nn(opcode) && nnn == op_nnn(opcode)) by {
            assert((opcode & 0xF000) >> 12 == opcode / 0x1000 && (opcode & 0x0F00) >> 8 == (opcode
                / 0x100) % 0x10 && (opcode & 0x00F0) >> 4 == (opcode / 0x10) % 0x10 && opcode
                & 0x000F == opcode % 0x10 && opcode & 0x00FF == opcode % 0x100 && opcode & 0x0FFF
                == opcode % 0x1000) by (bit_vector);
        }

        let res = match op {
            (0x0, 0x0, 0xE, 0x0) => {
                self.op_00e0();
                Ok(())
            },
            (0x0, 0x0, 0xE, 0xE) => self.op_00ee(),
            (0x0, _, _, _) => self.op_0nnn(nnn),
            (0x1, _, _, _) => {
                self.op_1nnn(nnn);
                Ok(())
            },
            (0x2, _, _, _) => self.op_2nnn(nnn),
            (0x3, _, _, _) => {
                self.op_3xnn(x, nn);
                Ok(())
            },
            (0x4, _, _, _) => {
                self.op_4xnn(x, nn);
                Ok(())
            },
            (0x5, _, _, 0x0) => {
                self.op_5xy0(x, y);
                Ok(())
            },
            (0x6, _, _, _) => {
                self.op_6xnn(x, nn);
                Ok(())
            },
            (0x7, _, _, _) => {
                self.op_7xnn(x, nn);
                Ok(())
            },
            (0x8, _, _, 0x0) => {
                self.op_8xy0(x, y);
                Ok(())
            },
            (0x8, _, _, 0x1) => {
                self.op_8xy1(x, y);
                Ok(())
            },
            (0x8, _, _, 0x2) => {
                self.op_8xy2(x, y);
                Ok(())
            },
            (0x8, _, _, 0x3) => {
                self.op_8xy3(x, y);
                Ok(())
            },
            (0x8, _, _, 0x4) => {
                self.op_8xy4(x, y);
                Ok(())
            },
            (0x8, _, _, 0x5) => {
                self.op_8xy5(x, y);
                Ok(())
            },
            (0x8, _, _, 0x6) => {
                self.op_8xy6(x, y);
                Ok(())
            },
            (0x8, _, _, 0x7) => {
                self.op_8xy7(x, y);
                Ok(())
            },
            (0x8, _, _, 0xE) => {
                self.op_8xye(x, y);
                Ok(())
            },
            (0x9, _, _, 0x0) => {
                self.op_9xy0(x, y);
                Ok(())
            },
            (0xA, _, _, _) => {
                self.op_annn(nnn);
                Ok(())
            },
            (0xB, _, _, _) => {
                self.op_bnnn(nnn);
                Ok(())
            },
            (0xC, _, _, _) => {
                self.op_cxnn(x, nn);
                Ok(())
            },
            (0xD, _, _, _) => self.op_dxyn(x, y, n),
            (0xE, _, 0x9, 0xE) => self.op_ex9e(x),
            (0xE, _, 0xA, 0x1) => self.op_exa1(x),
            (0xF, _, 0x0, 0x7) => {
                self.op_fx07(x);
                Ok(())
            },
            (0xF, _, 0x0, 0xA) => {
                self.op_fx0a(x);
                Ok(())
            },
            (0xF, _, 0x1, 0x5) => {
                self.op_fx15(x);
                Ok(())
            },
            (0xF, _, 0x1, 0x8) => {
                self.op_fx18(x);
                Ok(())
            },
            (0xF, _, 0x1, 0xE) => {
                self.op_fx1e(x);
                Ok(())
            },
            (0xF, _, 0x2, 0x9) => {
                self.op_fx29(x);
                Ok(())
            },
            (0xF, _, 0x3, 0x3) => self.op_fx33(x),
            (0xF, _, 0x5, 0x5) => self.op_fx55(x),
            (0xF, _, 0x6, 0x5) => self.op_fx65(x),
            _ => Err(StepError::InvalidOpcode),
        };
        proof {
            if op_class(opcode) == 0xC {
                let rand = choose|rand: u8|
                    self@ == #[trigger] old(self)@.randomize(x as int, nn, rand);
                assert(conforms(old(self)@.execute(opcode, rand), res, old(self)@, self@));
            } else {
                assert forall|rand: u8|
                    conforms(
                        #[trigger] old(self)@.execute(opcode, rand),
                        res,
                        old(self)@,
                        self@,
                    ) by {}
                assert(conforms(old(self)@.execute(opcode, 0), res, old(self)@, self@));
            }
        }
        res
    }
}

} // verus!
