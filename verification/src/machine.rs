//! The virtual machine: architectural state, construction, ROM loading,
//! keypad input, timers and the fetch half of the cycle.
//!
//! All state is owned exclusively by one [`VirtualMachine`] value.  Its ghost
//! model, [`MachineModel`], mirrors every field at the specification level;
//! each mutating operation's contract states the new model exactly in terms
//! of the old one.

use vstd::prelude::*;
use vstd::string::StringExecFns;

verus! {

/// Ghost mirror of the whole machine state, used by every contract.
#[verifier::ext_equal]
pub ghost struct MachineModel {
    /// Memory, `MEM_SIZE` bytes; the first 80 hold the font sprites.
    pub ram: Seq<u8>,
    /// General registers V0..VF, 16 bytes.
    pub v: Seq<u8>,
    /// Index register.
    pub i: u16,
    /// Delay timer.
    pub delay_timer: u8,
    /// Sound timer.
    pub sound_timer: u8,
    /// Program counter.
    pub pc: u16,
    /// Number of frames on the call stack, 0 (empty) through 16 (full).
    pub sp: u8,
    /// Return addresses; only the first `sp` entries are live.
    pub stack: Seq<u16>,
    /// Display pixels, row-major, each 0 or 1.
    pub display: Seq<u8>,
    /// Whether the display changed since the host last cleared this flag.
    pub display_updated: bool,
    /// Pressed state of the 16 keypad keys.
    pub keys: Seq<bool>,
    /// Whether the machine is blocked waiting for a key press.
    pub wait_for_key: bool,
    /// Register that receives the key once the wait resolves.
    pub wait_reg: u8,
    /// Whether a fatal condition permanently stopped the machine.
    pub halt: bool,
    /// Diagnostics log, append-only.
    pub log: Seq<char>,
}

impl MachineModel {
    /// Shape invariant of the state: fixed sizes, a boolean display,
    /// a stack pointer within capacity and a valid wait-target register.
    pub open spec fn wf(self) -> bool {
        &&& self.ram.len() == 4096
        &&& self.v.len() == 16
        &&& self.stack.len() == 16
        &&& self.display.len() == 2048
        &&& self.keys.len() == 16
        &&& self.sp <= 16
        &&& self.wait_reg < 16
        &&& forall|p: int|
            0 <= p < 2048 ==> (self.display[p] == 0 || self.display[p] == 1)
    }

    /// The big-endian instruction word at the program counter.
    pub open spec fn word_at(self) -> u16
        recommends
            self.wf(),
            self.pc <= 4094,
    {
        (self.ram[self.pc as int] * 256 + self.ram[self.pc as int + 1]) as u16
    }

    /// The state after appending one line to the diagnostics log.
    pub open spec fn log_line(self, msg: Seq<char>) -> Self {
        MachineModel { log: self.log + msg + "\n"@, ..self }
    }

    /// The state after a failed fetch: permanently halted, with the failure
    /// logged and nothing else changed.
    pub open spec fn fetch_fail(self) -> Self {
        MachineModel {
            halt: true,
            ..self.log_line("Out of bounds when getting instruction. Halted."@)
        }
    }

    /// The state after a ROM load: the ROM bytes, truncated to the
    /// `4096 - 0x200` bytes of program space, copied to address 0x200;
    /// everything else untouched.
    pub open spec fn load_rom(self, rom: Seq<u8>) -> Self {
        let len = if rom.len() < 3584 { rom.len() as int } else { 3584 };
        MachineModel {
            ram: Seq::new(
                4096,
                |a: int| if 512 <= a < 512 + len { rom[a - 512] } else { self.ram[a] },
            ),
            ..self
        }
    }

    /// The state after a key press: the key is marked pressed, and if the
    /// machine was waiting for a key, the key value lands in the wait-target
    /// register and the wait latch is released.
    pub open spec fn press_key(self, key: u8) -> Self {
        let pressed = MachineModel { keys: self.keys.update(key as int, true), ..self };
        if self.wait_for_key {
            MachineModel {
                v: pressed.v.update(self.wait_reg as int, key),
                wait_for_key: false,
                ..pressed
            }
        } else {
            pressed
        }
    }

    /// The state after a key release: only the pressed flag is cleared;
    /// a pending key wait is never affected.
    pub open spec fn release_key(self, key: u8) -> Self {
        MachineModel { keys: self.keys.update(key as int, false), ..self }
    }

    /// The state after one timer tick: each timer goes down by one,
    /// floored at zero.
    pub open spec fn decrement_timers(self) -> Self {
        MachineModel {
            delay_timer: if self.delay_timer > 0 {
                (self.delay_timer - 1) as u8
            } else {
                0
            },
            sound_timer: if self.sound_timer > 0 {
                (self.sound_timer - 1) as u8
            } else {
                0
            },
            ..self
        }
    }

    /// The built-in font: 16 glyphs of 5 bytes each.
    pub open spec fn font() -> Seq<u8> {
        seq![
            0xF0u8, 0x90, 0x90, 0x90, 0xF0,
            0x20, 0x60, 0x20, 0x20, 0x70,
            0xF0, 0x10, 0xF0, 0x80, 0xF0,
            0xF0, 0x10, 0xF0, 0x10, 0xF0,
            0x90, 0x90, 0xF0, 0x10, 0x10,
            0xF0, 0x80, 0xF0, 0x10, 0xF0,
            0xF0, 0x80, 0xF0, 0x90, 0xF0,
            0xF0, 0x10, 0x20, 0x40, 0x40,
            0xF0, 0x90, 0xF0, 0x90, 0xF0,
            0xF0, 0x90, 0xF0, 0x10, 0xF0,
            0xF0, 0x90, 0xF0, 0x90, 0x90,
            0xE0, 0x90, 0xE0, 0x90, 0xE0,
            0xF0, 0x80, 0x80, 0x80, 0xF0,
            0xE0, 0x90, 0x90, 0x90, 0xE0,
            0xF0, 0x80, 0xF0, 0x80, 0xF0,
            0xF0, 0x80, 0xF0, 0x80, 0x80,
        ]
    }

    /// The state of a freshly constructed machine: everything zeroed except
    /// the font sprites at the base of memory and the program counter at
    /// 0x200.
    pub open spec fn initial() -> Self {
        MachineModel {
            ram: Seq::new(4096, |a: int| if a < 80 { Self::font()[a] } else { 0u8 }),
            v: Seq::new(16, |j: int| 0u8),
            i: 0,
            delay_timer: 0,
            sound_timer: 0,
            pc: 0x200,
            sp: 0,
            stack: Seq::new(16, |j: int| 0u16),
            display: Seq::new(2048, |p: int| 0u8),
            display_updated: false,
            keys: Seq::new(16, |j: int| false),
            wait_for_key: false,
            wait_reg: 0,
            halt: false,
            log: Seq::empty(),
        }
    }
}

/// A CHIP-8 virtual machine.
///
/// The fields are public so that hosts and tests can inspect (and, for
/// tests, prepare) the state directly; all verified mutation goes through
/// the methods, whose contracts speak of the ghost view `self@`.
#[derive(Clone)]
pub struct VirtualMachine {
    /// Memory, `MEM_SIZE` bytes.
    pub ram: Vec<u8>,
    /// General registers V0..VF.
    pub v: Vec<u8>,
    /// Index register.
    pub i: u16,
    /// Delay timer.
    pub delay_timer: u8,
    /// Sound timer.
    pub sound_timer: u8,
    /// Program counter.
    pub pc: u16,
    /// Number of frames on the call stack.
    pub sp: u8,
    /// Return addresses.
    pub stack: Vec<u16>,
    /// Display pixels, row-major, each 0 or 1.
    pub display: Vec<u8>,
    /// Whether the display changed since the host last cleared the flag.
    pub display_updated: bool,
    /// Pressed state of the 16 keypad keys.
    pub keys: Vec<bool>,
    /// Whether the machine is blocked waiting for a key press.
    pub wait_for_key: bool,
    /// Register that receives the key once the wait resolves.
    pub wait_reg: u8,
    /// Whether a fatal condition permanently stopped the machine.
    pub halt: bool,
    /// Message log.
    pub log: String,
}

impl View for VirtualMachine {
    type V = MachineModel;

    open spec fn view(&self) -> MachineModel {
        MachineModel {
            ram: self.ram@,
            v: self.v@,
            i: self.i,
            delay_timer: self.delay_timer,
            sound_timer: self.sound_timer,
            pc: self.pc,
            sp: self.sp,
            stack: self.stack@,
            display: self.display@,
            display_updated: self.display_updated,
            keys: self.keys@,
            wait_for_key: self.wait_for_key,
            wait_reg: self.wait_reg,
            halt: self.halt,
            log: self.log@,
        }
    }
}

impl VirtualMachine {
    /// Constructs a new machine: memory zeroed except for the preloaded
    /// font sprites, program counter at 0x200, everything else zero, empty
    /// and not waiting.
    pub fn new() -> (r: VirtualMachine)
        ensures
            r@ == MachineModel::initial(),
            r@.wf(),
    {
        let mut ram: Vec<u8> = Vec::new();
        while ram.len() < 4096
            invariant
                ram@.len() <= 4096,
                forall|a: int| 0 <= a < ram@.len() ==> ram@[a] == 0u8,
            decreases 4096 - ram@.len(),
        {
            ram.push(0);
        }
        let font: Vec<u8> = font_sprites();
        let mut j: usize = 0;
        while j < 80
            invariant
                j <= 80,
                font@ == MachineModel::font(),
                ram@.len() == 4096,
                forall|a: int| 0 <= a < j ==> ram@[a] == MachineModel::font()[a],
                forall|a: int| j <= a < 4096 ==> ram@[a] == 0u8,
            decreases 80 - j,
        {
            ram[j] = font[j];
            j += 1;
        }
        let mut v: Vec<u8> = Vec::new();
        while v.len() < 16
            invariant
                v@.len() <= 16,
                forall|a: int| 0 <= a < v@.len() ==> v@[a] == 0u8,
            decreases 16 - v@.len(),
        {
            v.push(0);
        }
        let mut stack: Vec<u16> = Vec::new();
        while stack.len() < 16
            invariant
                stack@.len() <= 16,
                forall|a: int| 0 <= a < stack@.len() ==> stack@[a] == 0u16,
            decreases 16 - stack@.len(),
        {
            stack.push(0);
        }
        let mut display: Vec<u8> = Vec::new();
        while display.len() < 2048
            invariant
                display@.len() <= 2048,
                forall|a: int| 0 <= a < display@.len() ==> display@[a] == 0u8,
            decreases 2048 - display@.len(),
        {
            display.push(0);
        }
        let mut keys: Vec<bool> = Vec::new();
        while keys.len() < 16
            invariant
                keys@.len() <= 16,
                forall|a: int| 0 <= a < keys@.len() ==> keys@[a] == false,
            decreases 16 - keys@.len(),
        {
            keys.push(false);
        }
        let r = VirtualMachine {
            ram,
            v,
            i: 0,
            delay_timer: 0,
            sound_timer: 0,
            pc: 0x200,
            sp: 0,
            stack,
            display,
            display_updated: false,
            keys,
            wait_for_key: false,
            wait_reg: 0,
            halt: false,
            log: String::from_str(""),
        };
        proof {
            reveal_strlit("");
            assert(r@.ram =~= MachineModel::initial().ram);
            assert(r@.v =~= MachineModel::initial().v);
            assert(r@.stack =~= MachineModel::initial().stack);
            assert(r@.display =~= MachineModel::initial().display);
            assert(r@.keys =~= MachineModel::initial().keys);
            assert(r@.log =~= MachineModel::initial().log);
            assert(r@ =~= MachineModel::initial());
        }
        r
    }

    /// Loads a ROM into the machine at address 0x200, truncating it to the
    /// `4096 - 0x200` bytes of program space if it is longer.  No other
    /// state is touched; the caller constructs a fresh machine if a full
    /// reset is wanted.
    pub fn load_rom(&mut self, rom: &[u8])
        requires
            old(self)@.wf(),
        ensures
            final(self)@.wf(),
            final(self)@ == old(self)@.load_rom(rom@),
    {
        let ghost m0: MachineModel = self@;
        let max_len: usize = 3584;
        let len: usize = if rom.len() < max_len {
            rom.len()
        } else {
            max_len
        };
        let mut k: usize = 0;
        while k < len
            invariant
                m0.wf(),
                k <= len,
                len == if rom@.len() < 3584 { rom@.len() as int } else { 3584 },
                self@ == (MachineModel { ram: self@.ram, ..m0 }),
                self@.ram.len() == 4096,
                forall|a: int| 512 <= a < 512 + k ==> self@.ram[a] == rom@[a - 512],
                forall|a: int|
                    0 <= a < 4096 && !(512 <= a < 512 + k) ==> self@.ram[a] == m0.ram[a],
            decreases len - k,
        {
            self.ram[512 + k] = rom[k];
            k += 1;
        }
        proof {
            assert(self@.ram =~= m0.load_rom(rom@).ram);
            assert(self@ =~= m0.load_rom(rom@));
        }
    }

    /// Returns the instruction word that the program counter points to,
    /// without advancing.  A program counter at or beyond the last valid
    /// two-byte window is a fatal fetch failure: the machine halts
    /// permanently, logs the failure and the result is 0.
    pub fn get_ins(&mut self) -> (r: u16)
        requires
            old(self)@.wf(),
        ensures
            final(self)@.wf(),
            old(self)@.pc <= 4094 ==> final(self)@ == old(self)@ && r == old(self)@.word_at(),
            old(self)@.pc > 4094 ==> final(self)@ == old(self)@.fetch_fail() && r == 0,
    {
        if self.pc <= 4094 {
            let b1: u8 = self.ram[self.pc as usize];
            let b2: u8 = self.ram[self.pc as usize + 1];
            (b1 as u16) * 256 + (b2 as u16)
        } else {
            self.halt = true;
            self.log_msg("Out of bounds when getting instruction. Halted.");
            0
        }
    }

    /// Returns the value of the program counter.
    pub fn pc(&self) -> (r: u16)
        ensures
            r == self@.pc,
    {
        self.pc
    }

    /// Presses a key on the hexadecimal keypad; `key` must be in `0..=15`.
    /// If the machine is waiting for a key, the key value is written into
    /// the wait-target register and execution resumes.
    pub fn press_key(&mut self, key: u8)
        requires
            old(self)@.wf(),
            key <= 15,
        ensures
            final(self)@.wf(),
            final(self)@ == old(self)@.press_key(key),
    {
        self.keys[key as usize] = true;
        if self.wait_for_key {
            let vx: usize = self.wait_reg as usize;
            self.v[vx] = key;
            self.wait_for_key = false;
        }
    }

    /// Releases a key on the hexadecimal keypad; `key` must be in `0..=15`.
    /// Never affects a pending key wait.
    pub fn release_key(&mut self, key: u8)
        requires
            old(self)@.wf(),
            key <= 15,
        ensures
            final(self)@.wf(),
            final(self)@ == old(self)@.release_key(key),
    {
        self.keys[key as usize] = false;
    }

    /// Decrements the delay and sound timers by one each, floored at zero.
    /// The host should call this at a fixed 60 Hz cadence, independent of
    /// how many cycles it runs.
    pub fn decrement_timers(&mut self)
        requires
            old(self)@.wf(),
        ensures
            final(self)@.wf(),
            final(self)@ == old(self)@.decrement_timers(),
    {
        if self.delay_timer > 0 {
            self.delay_timer -= 1;
        }
        if self.sound_timer > 0 {
            self.sound_timer -= 1;
        }
    }

    /// Returns whether the display has been updated since the host last
    /// cleared the flag.
    pub fn display_updated(&self) -> (r: bool)
        ensures
            r == self@.display_updated,
    {
        self.display_updated
    }

    /// Returns the contents of the display, row-major, one byte per pixel.
    pub fn display(&self) -> (r: &Vec<u8>)
        ensures
            r@ == self@.display,
    {
        &self.display
    }

    /// Returns whether the machine is blocked waiting for a key press.
    pub fn waiting_for_key(&self) -> (r: bool)
        ensures
            r == self@.wait_for_key,
    {
        self.wait_for_key
    }

    /// Clears the display-updated flag; the host calls this after it has
    /// rendered the display.
    pub fn clear_du_flag(&mut self)
        requires
            old(self)@.wf(),
        ensures
            final(self)@.wf(),
            final(self)@ == (MachineModel { display_updated: false, ..old(self)@ }),
    {
        self.display_updated = false;
    }

    /// Appends one line to the diagnostics log; never used for control
    /// flow.
    pub(crate) fn log_msg(&mut self, msg: &str)
        ensures
            final(self)@ == old(self)@.log_line(msg@),
    {
        self.log.append(msg);
        self.log.append("\n");
    }
}

impl Default for VirtualMachine {
    /// Same as [`VirtualMachine::new`].
    fn default() -> (r: Self)
        ensures
            r@ == MachineModel::initial(),
            r@.wf(),
    {
        VirtualMachine::new()
    }
}

/// The built-in font sprites as bytes, 5 per glyph.
fn font_sprites() -> (r: Vec<u8>)
    ensures
        r@ == MachineModel::font(),
{
    let mut f: Vec<u8> = Vec::new();
    f.push(0xF0); f.push(0x90); f.push(0x90); f.push(0x90); f.push(0xF0);
    f.push(0x20); f.push(0x60); f.push(0x20); f.push(0x20); f.push(0x70);
    f.push(0xF0); f.push(0x10); f.push(0xF0); f.push(0x80); f.push(0xF0);
    f.push(0xF0); f.push(0x10); f.push(0xF0); f.push(0x10); f.push(0xF0);
    f.push(0x90); f.push(0x90); f.push(0xF0); f.push(0x10); f.push(0x10);
    f.push(0xF0); f.push(0x80); f.push(0xF0); f.push(0x10); f.push(0xF0);
    f.push(0xF0); f.push(0x80); f.push(0xF0); f.push(0x90); f.push(0xF0);
    f.push(0xF0); f.push(0x10); f.push(0x20); f.push(0x40); f.push(0x40);
    f.push(0xF0); f.push(0x90); f.push(0xF0); f.push(0x90); f.push(0xF0);
    f.push(0xF0); f.push(0x90); f.push(0xF0); f.push(0x10); f.push(0xF0);
    f.push(0xF0); f.push(0x90); f.push(0xF0); f.push(0x90); f.push(0x90);
    f.push(0xE0); f.push(0x90); f.push(0xE0); f.push(0x90); f.push(0xE0);
    f.push(0xF0); f.push(0x80); f.push(0x80); f.push(0x80); f.push(0xF0);
    f.push(0xE0); f.push(0x90); f.push(0x90); f.push(0x90); f.push(0xE0);
    f.push(0xF0); f.push(0x80); f.push(0xF0); f.push(0x80); f.push(0xF0);
    f.push(0xF0); f.push(0x80); f.push(0xF0); f.push(0x80); f.push(0x80);
    proof {
        assert(f@ =~= MachineModel::font());
    }
    f
}

} // verus!
