//! Time-multiplexed driver for an 8-digit, 7-segment display behind a serial
//! shift register and a 3-line binary digit selector.
//!
//! The driver is a cyclic state machine.  For each digit it serializes the
//! eight bits of the digit's segment pattern one per call, latches the byte
//! while re-asserting the digit-select code, and then rests for the remainder
//! of the digit's share of the frame period.  Each call hands back the
//! output-line changes to perform, in order, and the minimum delay to honor
//! before the next call; the caller owns the real lines and the timer.

use vstd::prelude::*;

verus! {

/// Settle delay, in microseconds, after shifting one segment bit.
pub const READ_DELAY_MICROS: u64 = 5;

/// Settle delay, in microseconds, after the latch pulse.
pub const FRESH_DELAY_MICROS: u64 = 5;

/// Fixed per-digit overhead, in microseconds: eight bit shifts and one latch
/// pulse.
pub const OVERHEAD_MICROS: u64 = 8 * READ_DELAY_MICROS + FRESH_DELAY_MICROS;

/// The six output lines the driver steers.  `Sel0` is the least significant
/// digit-select line, `Sel2` the most significant.
#[derive(Debug, Clone, Copy, PartialEq, Eq, Structural)]
pub enum Line {
    /// Serial data into the shift register.
    Sdi,
    /// Shift clock of the shift register.
    SftClk,
    /// Latch clock: copies the shifted byte to the output stage.
    LchClk,
    /// Digit-select line, bit 0.
    Sel0,
    /// Digit-select line, bit 1.
    Sel1,
    /// Digit-select line, bit 2.
    Sel2,
}

/// One level change on one output line; `high` is the level to drive.
#[derive(Debug, Clone, Copy, PartialEq, Eq, Structural)]
pub struct PinAction {
    pub line: Line,
    pub high: bool,
}

/// A position 0..7, used both as a digit slot of the display and as a bit
/// index into a segment pattern.  The successor is cyclic: `W7` wraps to
/// `W0`.
#[derive(Debug, Clone, Copy, PartialEq, Eq, Structural)]
pub enum WS {
    W0,
    W1,
    W2,
    W3,
    W4,
    W5,
    W6,
    W7,
}

impl WS {
    /// The position as an integer 0..7.
    pub open spec fn as_int(self) -> int {
        match self {
            WS::W0 => 0,
            WS::W1 => 1,
            WS::W2 => 2,
            WS::W3 => 3,
            WS::W4 => 4,
            WS::W5 => 5,
            WS::W6 => 6,
            WS::W7 => 7,
        }
    }

    /// Cyclic successor.
    pub open spec fn spec_next(self) -> WS {
        match self {
            WS::W0 => WS::W1,
            WS::W1 => WS::W2,
            WS::W2 => WS::W3,
            WS::W3 => WS::W4,
            WS::W4 => WS::W5,
            WS::W5 => WS::W6,
            WS::W6 => WS::W7,
            WS::W7 => WS::W0,
        }
    }

    /// Cyclic successor: `W7` wraps back to `W0`.
    pub fn next(self) -> (r: WS)
        ensures
            r == self.spec_next(),
            r.as_int() == (self.as_int() + 1) % 8,
    {
        match self {
            WS::W0 => WS::W1,
            WS::W1 => WS::W2,
            WS::W2 => WS::W3,
            WS::W3 => WS::W4,
            WS::W4 => WS::W5,
            WS::W5 => WS::W6,
            WS::W6 => WS::W7,
            WS::W7 => WS::W0,
        }
    }

    /// The position as an index.
    pub fn index(self) -> (r: u8)
        ensures
            r == self.as_int(),
    {
        match self {
            WS::W0 => 0,
            WS::W1 => 1,
            WS::W2 => 2,
            WS::W3 => 3,
            WS::W4 => 4,
            WS::W5 => 5,
            WS::W6 => 6,
            WS::W7 => 7,
        }
    }
}

/// The cyclic successor closes an exact 8-cycle: eight steps from any
/// position lead back to it.
pub proof fn lemma_ws_cycle(w: WS)
    ensures
        w.spec_next().spec_next().spec_next().spec_next().spec_next().spec_next().spec_next().spec_next()
            == w,
{
}

/// Refresh phase of the driver.  `Read(b)` shifts bit `b` of the current
/// digit's pattern; `Fresh` latches the shifted byte onto the selected
/// digit; `Freshed` is the settled illumination window that ends the digit's
/// turn.
#[derive(Debug, Clone, Copy, PartialEq, Eq, Structural)]
pub enum State {
    Read(WS),
    Fresh,
    Freshed,
}

impl State {
    /// Successor phase: eight `Read` steps, then `Fresh`, then `Freshed`,
    /// then around again.
    pub open spec fn spec_next(self) -> State {
        match self {
            State::Read(WS::W7) => State::Fresh,
            State::Fresh => State::Freshed,
            State::Freshed => State::Read(WS::W0),
            State::Read(ws) => State::Read(ws.spec_next()),
        }
    }

    /// Successor phase.
    pub fn next(self) -> (r: State)
        ensures
            r == self.spec_next(),
    {
        match self {
            State::Read(WS::W7) => State::Fresh,
            State::Fresh => State::Freshed,
            State::Freshed => State::Read(WS::W0),
            State::Read(ws) => State::Read(ws.next()),
        }
    }
}

/// Segment patterns for the symbol set: the hexadecimal digits 0-F, a bare
/// decimal point, a blank, and then the digits again with the decimal point
/// added.  Bit 0 of a pattern is the decimal point, bits 7 down to 1 are
/// segments A through G.  The values are the masks the panel's shift
/// register expects and must stay bit-exact.
pub open spec fn spec_glyph(sym: int) -> u8 {
    if sym == 0 {
        0xfc
    } else if sym == 1 {
        0x60
    } else if sym == 2 {
        0xda
    } else if sym == 3 {
        0xf2
    } else if sym == 4 {
        0x66
    } else if sym == 5 {
        0xb6
    } else if sym == 6 {
        0xbe
    } else if sym == 7 {
        0xe0
    } else if sym == 8 {
        0xfe
    } else if sym == 9 {
        0xf6
    } else if sym == 10 {
        0xee
    } else if sym == 11 {
        0x3e
    } else if sym == 12 {
        0x9c
    } else if sym == 13 {
        0x7a
    } else if sym == 14 {
        0x9e
    } else if sym == 15 {
        0x8e
    } else if sym == 16 {
        0x01
    } else if sym == 17 {
        0x00
    } else if sym == 18 {
        0xfd
    } else if sym == 19 {
        0x61
    } else if sym == 20 {
        0xdb
    } else if sym == 21 {
        0xf3
    } else if sym == 22 {
        0x67
    } else if sym == 23 {
        0xb7
    } else if sym == 24 {
        0xbf
    } else if sym == 25 {
        0xe1
    } else if sym == 26 {
        0xff
    } else if sym == 27 {
        0xf7
    } else if sym == 28 {
        0xef
    } else if sym == 29 {
        0x3f
    } else if sym == 30 {
        0x9d
    } else if sym == 31 {
        0x7b
    } else if sym == 32 {
        0x9f
    } else if sym == 33 {
        0x8f
    } else {
        0x00
    }
}

/// Number of symbols in the glyph table.
pub const GLYPH_COUNT: usize = 34;

/// Segment pattern of symbol `sym`.  The lookup is a pure function of the
/// index: the same index always yields the same fixed pattern.
pub fn glyph(sym: usize) -> (r: u8)
    requires
        sym < GLYPH_COUNT,
    ensures
        r == spec_glyph(sym as int),
{
    match sym {
        0 => 0xfc,
        1 => 0x60,
        2 => 0xda,
        3 => 0xf2,
        4 => 0x66,
        5 => 0xb6,
        6 => 0xbe,
        7 => 0xe0,
        8 => 0xfe,
        9 => 0xf6,
        10 => 0xee,
        11 => 0x3e,
        12 => 0x9c,
        13 => 0x7a,
        14 => 0x9e,
        15 => 0x8e,
        16 => 0x01,
        17 => 0x00,
        18 => 0xfd,
        19 => 0x61,
        20 => 0xdb,
        21 => 0xf3,
        22 => 0x67,
        23 => 0xb7,
        24 => 0xbf,
        25 => 0xe1,
        26 => 0xff,
        27 => 0xf7,
        28 => 0xef,
        29 => 0x3f,
        30 => 0x9d,
        31 => 0x7b,
        32 => 0x9f,
        33 => 0x8f,
        _ => 0x00,
    }
}

/// Whether bit `ds` of pattern `num` is set.
pub open spec fn seg_bit(num: u8, ds: int) -> bool {
    (num >> (ds as u8)) & 0x01 == 1
}

/// Digit-select code of slot `w`: the slot index in binary on the three
/// select lines, as (bit 2, bit 1, bit 0).
pub open spec fn spec_select_code(w: WS) -> (bool, bool, bool) {
    match w {
        WS::W0 => (false, false, false),
        WS::W1 => (false, false, true),
        WS::W2 => (false, true, false),
        WS::W3 => (false, true, true),
        WS::W4 => (true, false, false),
        WS::W5 => (true, false, true),
        WS::W6 => (true, true, false),
        WS::W7 => (true, true, true),
    }
}

/// The line changes of one bit-shift step: pulse the shift clock high, drive
/// the data line to bit `ds` of `num`, drop the shift clock.
pub open spec fn read_actions(num: u8, ds: int) -> Seq<PinAction> {
    seq![
        (PinAction { line: Line::SftClk, high: true }),
        (PinAction { line: Line::Sdi, high: seg_bit(num, ds) }),
        (PinAction { line: Line::SftClk, high: false }),
    ]
}

/// The line changes that re-assert the select code of slot `w`, least
/// significant select line first.
pub open spec fn select_actions(w: WS) -> Seq<PinAction> {
    seq![
        (PinAction { line: Line::Sel0, high: spec_select_code(w).2 }),
        (PinAction { line: Line::Sel1, high: spec_select_code(w).1 }),
        (PinAction { line: Line::Sel2, high: spec_select_code(w).0 }),
    ]
}

/// The line changes of the latch step for slot `w`: shift clock high, the
/// select code of `w`, latch clock high.
pub open spec fn fresh_actions(w: WS) -> Seq<PinAction> {
    seq![(PinAction { line: Line::SftClk, high: true })] + select_actions(w)
        + seq![(PinAction { line: Line::LchClk, high: true })]
}

/// The line changes of the settled step: drop the latch clock, ending the
/// digit's illumination window.
pub open spec fn freshed_actions() -> Seq<PinAction> {
    seq![(PinAction { line: Line::LchClk, high: false })]
}

/// The display driver: the currently selected digit slot, the refresh
/// phase, and the pre-computed settled delay (the configured frame share
/// minus the fixed overhead).
pub struct Segments {
    /// Remainder of the per-digit period spent settled, in microseconds.
    pub fresh_sprt: u64,
    /// The digit slot currently selected.
    pub ws: WS,
    /// The refresh phase the next call will act under.
    pub state: State,
}

impl Segments {
    /// A driver for a per-digit refresh period of `fresh_frq` microseconds,
    /// which must cover the fixed shift-and-latch overhead.  The first call
    /// acts under `Freshed`, so it selects digit 0 cleanly.
    pub fn new(fresh_frq: u64) -> (r: Segments)
        requires
            fresh_frq >= OVERHEAD_MICROS,
        ensures
            r.fresh_sprt == fresh_frq - OVERHEAD_MICROS,
            r.ws == WS::W0,
            r.state == State::Freshed,
    {
        Segments { fresh_sprt: fresh_frq - OVERHEAD_MICROS, ws: WS::W0, state: State::Freshed }
    }

    /// The refresh phase the next `state_exe` call will act under.
    pub fn current_state(&self) -> (r: &State)
        ensures
            *r == self.state,
    {
        &self.state
    }

    /// Delay returned by `state_exe` in the current phase.
    pub open spec fn spec_exe_delay(self) -> u64 {
        match self.state {
            State::Read(_) => READ_DELAY_MICROS,
            State::Fresh => FRESH_DELAY_MICROS,
            State::Freshed => self.fresh_sprt,
        }
    }

    /// Line changes performed by `state_exe` in the current phase, given the
    /// symbols assigned to the eight digit slots.
    pub open spec fn spec_exe_actions(self, numbers: Seq<usize>) -> Seq<PinAction> {
        match self.state {
            State::Read(ds) => read_actions(
                spec_glyph(numbers[self.ws.as_int()] as int),
                ds.as_int(),
            ),
            State::Fresh => fresh_actions(self.ws),
            State::Freshed => freshed_actions(),
        }
    }

    /// The state after one phase transition: the phase advances to its
    /// successor, and the digit slot advances exactly when the transition
    /// leaves `Freshed`.
    pub open spec fn spec_trans(self) -> Segments {
        Segments {
            fresh_sprt: self.fresh_sprt,
            ws: if self.state is Freshed {
                self.ws.spec_next()
            } else {
                self.ws
            },
            state: self.state.spec_next(),
        }
    }

    /// One bit-shift step: pulse the shift clock and drive the data line to
    /// bit `ds` of the pattern `num`.
    pub fn read(&self, num: u8, ds: u8) -> (r: (Vec<PinAction>, u64))
        requires
            ds < 8,
        ensures
            r.0@ == read_actions(num, ds as int),
            r.1 == READ_DELAY_MICROS,
    {
        let mut acts: Vec<PinAction> = Vec::new();
        acts.push(PinAction { line: Line::SftClk, high: true });
        acts.push(PinAction { line: Line::Sdi, high: (num >> ds) & 0x01 == 1 });
        acts.push(PinAction { line: Line::SftClk, high: false });
        proof {
            assert(acts@ =~= read_actions(num, ds as int));
        }
        (acts, READ_DELAY_MICROS)
    }

    /// The changes that drive the three select lines to the code of slot
    /// `idx`.
    pub fn select(&self, idx: WS) -> (r: Vec<PinAction>)
        ensures
            r@ == select_actions(idx),
    {
        let (st2, st1, st0) = match idx {
            WS::W0 => (false, false, false),
            WS::W1 => (false, false, true),
            WS::W2 => (false, true, false),
            WS::W3 => (false, true, true),
            WS::W4 => (true, false, false),
            WS::W5 => (true, false, true),
            WS::W6 => (true, true, false),
            WS::W7 => (true, true, true),
        };
        let mut acts: Vec<PinAction> = Vec::new();
        acts.push(PinAction { line: Line::Sel0, high: st0 });
        acts.push(PinAction { line: Line::Sel1, high: st1 });
        acts.push(PinAction { line: Line::Sel2, high: st2 });
        proof {
            assert(acts@ =~= select_actions(idx));
        }
        acts
    }

    /// The latch step: raise the shift clock, re-assert the current slot's
    /// select code, and raise the latch clock, illuminating the slot.
    pub fn fresh(&self) -> (r: (Vec<PinAction>, u64))
        ensures
            r.0@ == fresh_actions(self.ws),
            r.1 == FRESH_DELAY_MICROS,
    {
        let mut acts: Vec<PinAction> = Vec::new();
        acts.push(PinAction { line: Line::SftClk, high: true });
        let mut sel = self.select(self.ws);
        acts.append(&mut sel);
        acts.push(PinAction { line: Line::LchClk, high: true });
        proof {
            assert(acts@ =~= fresh_actions(self.ws));
        }
        (acts, FRESH_DELAY_MICROS)
    }

    /// The settled step: drop the latch clock and rest for the pre-computed
    /// remainder of the digit's period.
    pub fn freshed(&self) -> (r: (Vec<PinAction>, u64))
        ensures
            r.0@ == freshed_actions(),
            r.1 == self.fresh_sprt,
    {
        let mut acts: Vec<PinAction> = Vec::new();
        acts.push(PinAction { line: Line::LchClk, high: false });
        proof {
            assert(acts@ =~= freshed_actions());
        }
        (acts, self.fresh_sprt)
    }

    /// Act under the current phase: hand back the line changes to perform,
    /// in order, and the minimum delay to honor before the next call.
    /// `numbers` assigns a symbol of the glyph table to each digit slot.
    pub fn state_exe(&self, numbers: &[usize; 8]) -> (r: (Vec<PinAction>, u64))
        requires
            forall|i: int| 0 <= i < 8 ==> numbers[i] < GLYPH_COUNT,
        ensures
            r.0@ == self.spec_exe_actions(numbers@),
            r.1 == self.spec_exe_delay(),
    {
        match self.state {
            State::Read(ds) => {
                let idx = self.ws.index();
                self.read(glyph(numbers[idx as usize]), ds.index())
            },
            State::Fresh => self.fresh(),
            State::Freshed => self.freshed(),
        }
    }

    /// Advance to the next refresh phase.  The digit slot rotates to its
    /// cyclic successor exactly on the transition out of `Freshed`, so a
    /// digit stays selected through its own latch pulse and illumination
    /// window.
    pub fn state_trans(&mut self)
        ensures
            *final(self) == old(self).spec_trans(),
    {
        if self.state == State::Freshed {
            self.ws = self.ws.next();
        }
        self.state = self.state.next();
    }

    /// The state after `n` phase transitions.
    pub open spec fn spec_trans_n(self, n: nat) -> Segments
        decreases n,
    {
        if n == 0 {
            self
        } else {
            self.spec_trans().spec_trans_n((n - 1) as nat)
        }
    }

    /// Sum of the delays `state_exe` returns over the next `n` phases,
    /// transitions interleaved.
    pub open spec fn spec_delay_sum(self, n: nat) -> int
        decreases n,
    {
        if n == 0 {
            0
        } else {
            self.spec_exe_delay() + self.spec_trans().spec_delay_sum((n - 1) as nat)
        }
    }
}

/// From `Freshed`, the ten phases of one digit frame run in exactly this
/// order: `Read(W0)` through `Read(W7)`, then `Fresh`, then `Freshed` again;
/// and the digit slot advances exactly once, on the very first transition,
/// out of `Freshed`.
pub proof fn lemma_frame_cycle(s: Segments)
    requires
        s.state is Freshed,
    ensures
        s.spec_trans_n(1) == (Segments { state: State::Read(WS::W0), ws: s.ws.spec_next(), fresh_sprt: s.fresh_sprt }),
        s.spec_trans_n(2) == (Segments { state: State::Read(WS::W1), ws: s.ws.spec_next(), fresh_sprt: s.fresh_sprt }),
        s.spec_trans_n(3) == (Segments { state: State::Read(WS::W2), ws: s.ws.spec_next(), fresh_sprt: s.fresh_sprt }),
        s.spec_trans_n(4) == (Segments { state: State::Read(WS::W3), ws: s.ws.spec_next(), fresh_sprt: s.fresh_sprt }),
        s.spec_trans_n(5) == (Segments { state: State::Read(WS::W4), ws: s.ws.spec_next(), fresh_sprt: s.fresh_sprt }),
        s.spec_trans_n(6) == (Segments { state: State::Read(WS::W5), ws: s.ws.spec_next(), fresh_sprt: s.fresh_sprt }),
        s.spec_trans_n(7) == (Segments { state: State::Read(WS::W6), ws: s.ws.spec_next(), fresh_sprt: s.fresh_sprt }),
        s.spec_trans_n(8) == (Segments { state: State::Read(WS::W7), ws: s.ws.spec_next(), fresh_sprt: s.fresh_sprt }),
        s.spec_trans_n(9) == (Segments { state: State::Fresh, ws: s.ws.spec_next(), fresh_sprt: s.fresh_sprt }),
        s.spec_trans_n(10) == (Segments { state: State::Freshed, ws: s.ws.spec_next(), fresh_sprt: s.fresh_sprt }),
{
    reveal_with_fuel(Segments::spec_trans_n, 11);
}

/// Round trip of the frame budget: over one digit frame — the settled rest,
/// the eight bit shifts, and the latch pulse — the delays `state_exe`
/// returns add up exactly to the per-digit period the driver was built with.
pub proof fn lemma_frame_budget(s: Segments, fresh_frq: u64)
    requires
        s.state is Freshed,
        fresh_frq >= OVERHEAD_MICROS,
        s.fresh_sprt == fresh_frq - OVERHEAD_MICROS,
    ensures
        s.spec_delay_sum(10) == fresh_frq,
{
    reveal_with_fuel(Segments::spec_delay_sum, 11);
    reveal_with_fuel(Segments::spec_trans_n, 11);
}

} // verus!
