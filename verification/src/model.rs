//! A deterministic model engine and the construction entry point.
//!
//! The real instruction-level hardware simulation is an external
//! collaborator, out of this core's scope. The model engine realizes the
//! scheduler's narrow engine contract deterministically — a fixed cycle cost
//! per step, a blank frame at the hardware frame rate, a recorded operation
//! history — which is enough to drive, test and host the scheduling core.
//! Construction validates the ROM image the way the boundary demands: a
//! too-short image or a failed header-checksum integrity check yields no
//! engine at all.

use vstd::prelude::*;

use crate::engine::Engine;
use crate::engine::EngineOp;
use crate::events::KeypadKey;
use crate::FRAME_SIZE;

verus! {

/// Cycles the model engine charges for one step.
pub const MODEL_STEP_COST: u32 = 4;

/// Cycles between two rendered frames at the hardware frame rate.
pub const CYCLES_PER_FRAME: u32 = 70224;

/// Steps between two rendered frames of the model engine.
pub const MODEL_STEPS_PER_FRAME: u32 = CYCLES_PER_FRAME / MODEL_STEP_COST;

/// Bytes a ROM image must hold to contain the full cartridge header.
pub const ROM_HEADER_LEN: usize = 0x150;

/// First header byte covered by the header checksum.
pub const CHECKSUM_START: usize = 0x134;

/// Address of the stored header checksum; the summed range ends just below.
pub const CHECKSUM_ADDR: usize = 0x14D;

/// Number of keys on the keypad.
pub const KEY_COUNT: usize = 8;

/// Where the engine routes serial/text output.
#[derive(Clone, Copy, PartialEq, Eq, Structural, Debug)]
pub enum SerialMode {
    /// Serial data drives the printer peripheral emulation.
    Printer,
    /// Serial data is echoed as text output.
    Stdout,
    /// Serial data is discarded.
    Silent,
}

/// One checksum accumulation step: the header rule `acc - byte - 1`,
/// taken modulo 256.
pub open spec fn checksum_step(acc: int, byte: int) -> int {
    (acc + 255 - byte) % 256
}

/// The checksum accumulated over header bytes below position `i`.
pub open spec fn header_checksum_upto(rom: Seq<u8>, i: int) -> int
    decreases i,
{
    if i <= CHECKSUM_START as int {
        0
    } else {
        checksum_step(header_checksum_upto(rom, i - 1), rom[i - 1] as int)
    }
}

/// The checksum over the full summed header range.
pub open spec fn header_checksum(rom: Seq<u8>) -> int {
    header_checksum_upto(rom, CHECKSUM_ADDR as int)
}

/// When a ROM image is accepted: it holds a full header, and unless the
/// check is skipped, the computed header checksum matches the stored byte.
pub open spec fn rom_acceptable(rom: Seq<u8>, skip_checksum: bool) -> bool {
    &&& rom.len() >= ROM_HEADER_LEN
    &&& (skip_checksum || header_checksum(rom) == rom[CHECKSUM_ADDR as int] as int)
}

/// The serial routing the construction flags select: the printer wins, then
/// text output, else the data is discarded.
pub open spec fn spec_serial_mode(output_serial: bool, output_printer: bool) -> SerialMode {
    if output_printer {
        SerialMode::Printer
    } else if output_serial {
        SerialMode::Stdout
    } else {
        SerialMode::Silent
    }
}

/// The keypad slot a key occupies in the engine's key state.
pub open spec fn key_index(key: KeypadKey) -> int {
    match key {
        KeypadKey::A => 0,
        KeypadKey::B => 1,
        KeypadKey::Up => 2,
        KeypadKey::Down => 3,
        KeypadKey::Left => 4,
        KeypadKey::Right => 5,
        KeypadKey::Select => 6,
        KeypadKey::Start => 7,
    }
}

/// Computes the header checksum of a ROM image.
pub fn compute_header_checksum(rom: &Vec<u8>) -> (r: u8)
    requires
        rom@.len() >= ROM_HEADER_LEN,
    ensures
        r as int == header_checksum(rom@),
{
    let mut acc: u32 = 0;
    let mut i: usize = CHECKSUM_START;
    while i < CHECKSUM_ADDR
        invariant
            CHECKSUM_START <= i <= CHECKSUM_ADDR,
            rom@.len() >= ROM_HEADER_LEN,
            acc < 256,
            acc as int == header_checksum_upto(rom@, i as int),
        decreases CHECKSUM_ADDR - i,
    {
        acc = (acc + 255 - (rom[i] as u32)) % 256;
        i = i + 1;
    }
    acc as u8
}

/// A deterministic engine: every step costs `MODEL_STEP_COST` cycles, a
/// frame becomes ready every `MODEL_STEPS_PER_FRAME` steps, and every
/// operation applied to the engine is recorded in order.
pub struct ModelEngine {
    log: Vec<EngineOp>,
    step_cost: u32,
    steps_per_frame: u32,
    steps_until_frame: u32,
    frame_flag: bool,
    framebuffer: Vec<u8>,
    pressed: Vec<bool>,
    cgb_mode: bool,
    serial: SerialMode,
    savepath: Option<String>,
}

impl ModelEngine {
    /// Whether the engine emulates the later hardware generation.
    pub closed spec fn cgb(&self) -> bool {
        self.cgb_mode
    }

    /// The configured serial/text output routing.
    pub closed spec fn serial_mode(&self) -> SerialMode {
        self.serial
    }

    /// The pressed state of the eight keys, by keypad slot.
    pub closed spec fn key_state(&self) -> Seq<bool> {
        self.pressed@
    }

    /// Whether a rendered frame is ready and not yet collected.
    pub closed spec fn frame_pending(&self) -> bool {
        self.frame_flag
    }

    /// Steps left until the next frame becomes ready.
    pub closed spec fn frame_countdown(&self) -> u32 {
        self.steps_until_frame
    }

    /// The persisted-save path handed in at construction; persistence
    /// itself happens outside this core.
    pub closed spec fn save_path(&self) -> Option<String> {
        self.savepath
    }

    /// Builds a fresh engine with empty history, no frame pending and no
    /// key pressed.
    pub fn new(cgb_mode: bool, serial: SerialMode, savepath: Option<String>) -> (e: ModelEngine)
        ensures
            e.wf(),
            e.history() == Seq::<EngineOp>::empty(),
            e.step_bound() == MODEL_STEP_COST,
            e.cgb() == cgb_mode,
            e.serial_mode() == serial,
            !e.frame_pending(),
            e.frame_countdown() == MODEL_STEPS_PER_FRAME,
            forall|i: int| 0 <= i < KEY_COUNT ==> !(#[trigger] e.key_state()[i]),
            e.save_path() == savepath,
    {
        let mut framebuffer: Vec<u8> = Vec::new();
        let mut i: usize = 0;
        while i < FRAME_SIZE
            invariant
                i <= FRAME_SIZE,
                framebuffer@.len() == i,
            decreases FRAME_SIZE - i,
        {
            framebuffer.push(0);
            i = i + 1;
        }
        let mut pressed: Vec<bool> = Vec::new();
        let mut j: usize = 0;
        while j < KEY_COUNT
            invariant
                j <= KEY_COUNT,
                pressed@.len() == j,
                forall|k: int| 0 <= k < j ==> !(#[trigger] pressed@[k]),
            decreases KEY_COUNT - j,
        {
            pressed.push(false);
            j = j + 1;
        }
        ModelEngine {
            log: Vec::new(),
            step_cost: MODEL_STEP_COST,
            steps_per_frame: MODEL_STEPS_PER_FRAME,
            steps_until_frame: MODEL_STEPS_PER_FRAME,
            frame_flag: false,
            framebuffer,
            pressed,
            cgb_mode,
            serial,
            savepath,
        }
    }

    /// The recorded operation history, for hosts and tests.
    pub fn history_log(&self) -> (log: &Vec<EngineOp>)
        ensures
            log@ == self.history(),
    {
        &self.log
    }

    /// Whether a key is currently held down.
    pub fn key_is_pressed(&self, key: KeypadKey) -> (r: bool)
        requires
            self.wf(),
        ensures
            r == self.key_state()[key_index(key)],
    {
        let slot = key_slot(key);
        self.pressed[slot]
    }

    /// Whether the engine emulates the later hardware generation.
    pub fn is_cgb(&self) -> (r: bool)
        ensures
            r == self.cgb(),
    {
        self.cgb_mode
    }

    /// The configured serial/text output routing.
    pub fn serial_output(&self) -> (r: SerialMode)
        ensures
            r == self.serial_mode(),
    {
        self.serial
    }
}

/// The keypad slot a key occupies, as executable code.
pub fn key_slot(key: KeypadKey) -> (slot: usize)
    ensures
        slot == key_index(key),
        slot < KEY_COUNT,
{
    match key {
        KeypadKey::A => 0,
        KeypadKey::B => 1,
        KeypadKey::Up => 2,
        KeypadKey::Down => 3,
        KeypadKey::Left => 4,
        KeypadKey::Right => 5,
        KeypadKey::Select => 6,
        KeypadKey::Start => 7,
    }
}

impl Engine for ModelEngine {
    closed spec fn wf(&self) -> bool {
        &&& self.step_cost == MODEL_STEP_COST
        &&& self.steps_per_frame == MODEL_STEPS_PER_FRAME
        &&& 1 <= self.steps_until_frame <= self.steps_per_frame
        &&& self.framebuffer@.len() == FRAME_SIZE
        &&& self.pressed@.len() == KEY_COUNT
    }

    closed spec fn history(&self) -> Seq<EngineOp> {
        self.log@
    }

    closed spec fn step_bound(&self) -> u32 {
        self.step_cost
    }

    fn advance_cycles(&mut self) -> (c: u32)
        ensures
            c == MODEL_STEP_COST,
            final(self).frame_countdown() == if old(self).frame_countdown() == 1 {
                MODEL_STEPS_PER_FRAME
            } else {
                (old(self).frame_countdown() - 1) as u32
            },
            final(self).frame_pending() == (old(self).frame_countdown() == 1 || old(
                self,
            ).frame_pending()),
    {
        let c = self.step_cost;
        self.log.push(EngineOp::Advance(c));
        if self.steps_until_frame == 1 {
            self.frame_flag = true;
            self.steps_until_frame = self.steps_per_frame;
        } else {
            self.steps_until_frame = self.steps_until_frame - 1;
        }
        c
    }

    fn frame_ready(&mut self) -> (b: bool)
        ensures
            b == old(self).frame_pending(),
            !final(self).frame_pending(),
    {
        let b = self.frame_flag;
        self.frame_flag = false;
        b
    }

    fn snapshot_frame(&self) -> (frame: Vec<u8>) {
        let mut frame: Vec<u8> = Vec::new();
        let mut i: usize = 0;
        while i < self.framebuffer.len()
            invariant
                i <= self.framebuffer@.len(),
                frame@.len() == i,
            decreases self.framebuffer@.len() - i,
        {
            frame.push(self.framebuffer[i]);
            i = i + 1;
        }
        frame
    }

    fn apply_key(&mut self, key: KeypadKey, pressed: bool)
        ensures
            final(self).key_state() == old(self).key_state().update(key_index(key), pressed),
    {
        let slot = key_slot(key);
        self.pressed[slot] = pressed;
        self.log.push(EngineOp::Key(key, pressed));
    }

    fn resync_audio(&mut self) {
        self.log.push(EngineOp::Resync);
    }
}

/// Builds the engine a session will run, or nothing if the ROM image is
/// rejected: too short for a full header, or failing the header-checksum
/// integrity check unless that check is skipped. `classic_mode` selects the
/// earlier hardware generation, and the output flags route serial data to
/// the printer peripheral, to text output, or nowhere.
pub fn construct_cpu(
    romdata: Vec<u8>,
    savepath: Option<String>,
    classic_mode: bool,
    output_serial: bool,
    output_printer: bool,
    skip_checksum: bool,
) -> (r: Option<Box<ModelEngine>>)
    ensures
        r is Some <==> rom_acceptable(romdata@, skip_checksum),
        r is Some ==> (*r.unwrap()).wf(),
        r is Some ==> (*r.unwrap()).history() == Seq::<EngineOp>::empty(),
        r is Some ==> (*r.unwrap()).step_bound() == MODEL_STEP_COST,
        r is Some ==> (*r.unwrap()).cgb() == !classic_mode,
        r is Some ==> (*r.unwrap()).serial_mode() == spec_serial_mode(output_serial, output_printer),
        r is Some ==> !(*r.unwrap()).frame_pending(),
        r is Some ==> (*r.unwrap()).frame_countdown() == MODEL_STEPS_PER_FRAME,
{
    if romdata.len() < ROM_HEADER_LEN {
        return None;
    }
    if !skip_checksum {
        let sum = compute_header_checksum(&romdata);
        if sum != romdata[CHECKSUM_ADDR] {
            return None;
        }
    }
    let serial = if output_printer {
        SerialMode::Printer
    } else if output_serial {
        SerialMode::Stdout
    } else {
        SerialMode::Silent
    };
    Some(Box::new(ModelEngine::new(!classic_mode, serial, savepath)))
}

} // verus!
