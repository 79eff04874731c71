//! Debounced push-button scanner.
//!
//! Four buttons sit on pull-up, active-low input lines.  The scanner is
//! called once per scheduling tick with the four sampled levels and reports
//! at most one newly confirmed key per physical press: a press is latched on
//! the tick that first samples its line low (after the caller-side debounce
//! pause of [`DEBOUNCE_MICROS`]), and no further press is reported until the
//! latched key's line reads high again.

use vstd::prelude::*;

verus! {

/// Debounce settle pause, in microseconds, that the caller applies on the
/// tick that detects a new press, before acting on the reported key.
pub const DEBOUNCE_MICROS: u64 = 50;

/// The four physical buttons, in priority order: on simultaneous presses the
/// earliest variant wins.
#[derive(Debug, Clone, Copy, PartialEq, Eq, Structural)]
pub enum Key {
    S2,
    S3,
    S4,
    S5,
}

/// The sampled level of `k`'s input line; `true` is high, which on the
/// pull-up wiring means released.
pub open spec fn key_level(k: Key, s2: bool, s3: bool, s4: bool, s5: bool) -> bool {
    match k {
        Key::S2 => s2,
        Key::S3 => s3,
        Key::S4 => s4,
        Key::S5 => s5,
    }
}

/// The first asserted (low) line in priority order S2, S3, S4, S5, if any.
pub open spec fn first_pressed(s2: bool, s3: bool, s4: bool, s5: bool) -> Option<Key> {
    if !s2 {
        Some(Key::S2)
    } else if !s3 {
        Some(Key::S3)
    } else if !s4 {
        Some(Key::S4)
    } else if !s5 {
        Some(Key::S5)
    } else {
        None
    }
}

/// Scanner state: at most one key is latched as currently pressed, and a new
/// press cannot be reported until the latched one has been released.
pub struct Keys {
    /// The key whose press has been reported and not yet seen released.
    pub pressed: Option<Key>,
}

impl Keys {
    /// A scanner with no press latched.
    pub fn new() -> (r: Keys)
        ensures
            r.pressed is None,
    {
        Keys { pressed: None }
    }

    /// One scheduling tick.  `s2`..`s5` are the levels just sampled from the
    /// four input lines (`true` = high = released).
    ///
    /// While a key is latched, its own line alone is watched: a high reading
    /// clears the latch, and nothing is reported either way.  With no key
    /// latched, the first low line in priority order is latched and reported;
    /// the caller then honors the debounce pause of [`DEBOUNCE_MICROS`].
    pub fn scan(&mut self, s2: bool, s3: bool, s4: bool, s5: bool) -> (r: Option<Key>)
        ensures
            old(self).pressed matches Some(k) ==> {
                &&& r is None
                &&& final(self).pressed == (if key_level(k, s2, s3, s4, s5) {
                    None::<Key>
                } else {
                    old(self).pressed
                })
            },
            old(self).pressed is None ==> {
                &&& r == first_pressed(s2, s3, s4, s5)
                &&& final(self).pressed == first_pressed(s2, s3, s4, s5)
            },
    {
        match self.pressed {
            Some(pressed_key) => {
                let released = match pressed_key {
                    Key::S2 => s2,
                    Key::S3 => s3,
                    Key::S4 => s4,
                    Key::S5 => s5,
                };
                if released {
                    self.pressed = None;
                }
                None
            },
            None => {
                self.pressed = if !s2 {
                    Some(Key::S2)
                } else if !s3 {
                    Some(Key::S3)
                } else if !s4 {
                    Some(Key::S4)
                } else if !s5 {
                    Some(Key::S5)
                } else {
                    None
                };
                self.pressed
            },
        }
    }
}

} // verus!
