use liquidled_testrs::segments::{
    glyph, Line, PinAction, Segments, State, FRESH_DELAY_MICROS, GLYPH_COUNT, OVERHEAD_MICROS,
    READ_DELAY_MICROS, WS,
};

const ALL_SLOTS: [WS; 8] = [
    WS::W0,
    WS::W1,
    WS::W2,
    WS::W3,
    WS::W4,
    WS::W5,
    WS::W6,
    WS::W7,
];

#[test]
fn glyph_table_is_bit_exact() {
    let expected: [u8; 34] = [
        0xfc, 0x60, 0xda, 0xf2, 0x66, 0xb6, 0xbe, 0xe0, 0xfe, 0xf6, 0xee, 0x3e, 0x9c, 0x7a, 0x9e,
        0x8e, 0x01, 0x00, 0xfd, 0x61, 0xdb, 0xf3, 0x67, 0xb7, 0xbf, 0xe1, 0xff, 0xf7, 0xef, 0x3f,
        0x9d, 0x7b, 0x9f, 0x8f,
    ];
    assert_eq!(GLYPH_COUNT, expected.len());
    for (sym, want) in expected.iter().enumerate() {
        assert_eq!(glyph(sym), *want);
    }
}

#[test]
fn glyph_lookup_is_pure() {
    for sym in 0..GLYPH_COUNT {
        let first = glyph(sym);
        for other in 0..GLYPH_COUNT {
            glyph(other);
        }
        assert_eq!(glyph(sym), first);
    }
}

#[test]
fn slot_successor_closes_an_eight_cycle() {
    for start in ALL_SLOTS {
        let mut w = start;
        for step in 1..=8u32 {
            w = w.next();
            if step < 8 {
                assert_ne!(w, start);
            }
        }
        assert_eq!(w, start);
    }
}

#[test]
fn slot_indices_count_in_order() {
    let mut w = WS::W0;
    for want in 0..8u8 {
        assert_eq!(w.index(), want);
        w = w.next();
    }
    assert_eq!(w, WS::W0);
}

#[test]
fn phase_successor_walks_read_fresh_freshed() {
    assert_eq!(State::Read(WS::W0).next(), State::Read(WS::W1));
    assert_eq!(State::Read(WS::W6).next(), State::Read(WS::W7));
    assert_eq!(State::Read(WS::W7).next(), State::Fresh);
    assert_eq!(State::Fresh.next(), State::Freshed);
    assert_eq!(State::Freshed.next(), State::Read(WS::W0));
}

#[test]
fn new_driver_starts_settled_on_slot_zero() {
    let s = Segments::new(2000);
    assert_eq!(*s.current_state(), State::Freshed);
    assert_eq!(s.ws, WS::W0);
    assert_eq!(s.fresh_sprt, 2000 - OVERHEAD_MICROS);
}

#[test]
fn one_frame_runs_the_exact_phase_sequence() {
    let mut s = Segments::new(2000);
    assert_eq!(s.state, State::Freshed);
    let slot_before = s.ws;

    s.state_trans();
    assert_eq!(s.state, State::Read(WS::W0));
    let slot_of_frame = s.ws;
    assert_eq!(slot_of_frame, slot_before.next());

    for expected_bit in ALL_SLOTS.iter().skip(1) {
        s.state_trans();
        assert_eq!(s.state, State::Read(*expected_bit));
        assert_eq!(s.ws, slot_of_frame);
    }
    s.state_trans();
    assert_eq!(s.state, State::Fresh);
    assert_eq!(s.ws, slot_of_frame);
    s.state_trans();
    assert_eq!(s.state, State::Freshed);
    assert_eq!(s.ws, slot_of_frame);
}

#[test]
fn frame_delays_add_up_to_the_configured_period() {
    let period: u64 = 2000;
    let mut s = Segments::new(period);
    let numbers: [usize; 8] = [18, 0, 0, 0, 0, 0, 0, 0];
    let mut total: u64 = 0;
    for _ in 0..10 {
        let (_, delay) = s.state_exe(&numbers);
        total += delay;
        s.state_trans();
    }
    assert_eq!(total, period);
    assert_eq!(s.state, State::Freshed);
}

#[test]
fn serialized_bits_follow_the_glyph_pattern() {
    let mut s = Segments::new(2000);
    // Slot 1 will be the first slot refreshed; give it symbol 5 (0xb6).
    let numbers: [usize; 8] = [0, 5, 0, 0, 0, 0, 0, 0];
    let pattern: u8 = 0xb6;

    s.state_trans();
    assert_eq!(s.ws, WS::W1);
    for bit in 0..8u8 {
        assert_eq!(s.state, State::Read(ALL_SLOTS[bit as usize]));
        let (actions, delay) = s.state_exe(&numbers);
        assert_eq!(delay, READ_DELAY_MICROS);
        assert_eq!(actions.len(), 3);
        assert_eq!(
            actions[0],
            PinAction {
                line: Line::SftClk,
                high: true
            }
        );
        assert_eq!(
            actions[1],
            PinAction {
                line: Line::Sdi,
                high: (pattern >> bit) & 1 == 1
            }
        );
        assert_eq!(
            actions[2],
            PinAction {
                line: Line::SftClk,
                high: false
            }
        );
        s.state_trans();
    }
}

#[test]
fn latch_step_reasserts_the_select_code() {
    let mut s = Segments::new(2000);
    let numbers: [usize; 8] = [0; 8];
    // Walk to the Fresh phase of the first refreshed slot (slot 1).
    for _ in 0..9 {
        s.state_trans();
    }
    assert_eq!(s.state, State::Fresh);
    let (actions, delay) = s.state_exe(&numbers);
    assert_eq!(delay, FRESH_DELAY_MICROS);
    assert_eq!(actions.len(), 5);
    assert_eq!(
        actions[0],
        PinAction {
            line: Line::SftClk,
            high: true
        }
    );
    // Slot 1: binary code 001, least significant select line first.
    assert_eq!(
        actions[1],
        PinAction {
            line: Line::Sel0,
            high: true
        }
    );
    assert_eq!(
        actions[2],
        PinAction {
            line: Line::Sel1,
            high: false
        }
    );
    assert_eq!(
        actions[3],
        PinAction {
            line: Line::Sel2,
            high: false
        }
    );
    assert_eq!(
        actions[4],
        PinAction {
            line: Line::LchClk,
            high: true
        }
    );
}

#[test]
fn select_codes_count_in_binary() {
    let s = Segments::new(2000);
    for (i, w) in ALL_SLOTS.iter().enumerate() {
        let actions = s.select(*w);
        assert_eq!(actions.len(), 3);
        assert_eq!(
            actions[0],
            PinAction {
                line: Line::Sel0,
                high: i & 1 != 0
            }
        );
        assert_eq!(
            actions[1],
            PinAction {
                line: Line::Sel1,
                high: i & 2 != 0
            }
        );
        assert_eq!(
            actions[2],
            PinAction {
                line: Line::Sel2,
                high: i & 4 != 0
            }
        );
    }
}

#[test]
fn settled_step_drops_the_latch_and_rests() {
    let s = Segments::new(150);
    let numbers: [usize; 8] = [0; 8];
    assert_eq!(s.state, State::Freshed);
    let (actions, delay) = s.state_exe(&numbers);
    assert_eq!(delay, 150 - OVERHEAD_MICROS);
    assert_eq!(actions.len(), 1);
    assert_eq!(
        actions[0],
        PinAction {
            line: Line::LchClk,
            high: false
        }
    );
}

#[test]
fn smallest_period_leaves_no_settled_rest() {
    let s = Segments::new(OVERHEAD_MICROS);
    assert_eq!(s.fresh_sprt, 0);
    let (_, delay) = s.freshed();
    assert_eq!(delay, 0);
}

#[test]
fn read_extracts_each_bit() {
    let s = Segments::new(2000);
    let pattern: u8 = 0x8e;
    for bit in 0..8u8 {
        let (actions, _) = s.read(pattern, bit);
        assert_eq!(
            actions[1],
            PinAction {
                line: Line::Sdi,
                high: (pattern >> bit) & 1 == 1
            }
        );
    }
}
