use whitesynth::audio_drivers::pipe::{Pipe, SampleEndian};
use whitesynth::consts::manufacturers;
use whitesynth::soundbank::bytes::{
    copy_range, push_u16, push_u32, push_u64, read_i16, read_u16, read_u32, read_u64, to_signed16,
    to_signed8, to_unsigned16, to_unsigned8,
};
use whitesynth::soundbank::container::{
    id_is, is_small, same_id, ChunkTree, LIST_ID, MAX_DATA_LEN, RIFF_ID,
};
use whitesynth::soundbank::text::text_of;
use whitesynth::soundbank::wsbk::consts::{artc_dest, artc_src, artc_transform};
use whitesynth::soundbank::wsbk::fourcc;
use whitesynth::soundbank::wsbk::Articulator;
use whitesynth::synth::articulator::{
    decode_transform, routing, source_range, AriculationValues, ArticulationUnit, Curve,
    SourceRange,
};
use whitesynth::synth::effects::envelope::{level_rule, Latch, LevelRule, StageFacts};
use whitesynth::synth::effects::ring_buffer::{RingBuffer, MAX_INTERVAL_SEC};
use whitesynth::synth::envelope::{Adjust, EnvelopeMode, EnvelopeStatus, TickFacts};
use whitesynth::synth::settings::clamp_device_id;
use whitesynth::synth::vendors::VendorId;
use whitesynth::util::slice2array;
use whitesynth::synth::{
    decode_midi_message, sysex_handler, sysex_vendor, FXType, MidiEvent, SysexHandler,
};

fn facts(delay_over: bool, peak: bool, hold_over: bool, sustain: bool, silent: bool) -> TickFacts {
    TickFacts {
        delay_over,
        peak_reached: peak,
        hold_over,
        sustain_reached: sustain,
        silent,
    }
}

#[test]
fn ring_starts_read_at_zero_written_in_the_middle() {
    let ring = RingBuffer::new(48000, 0.0f64);
    assert_eq!(MAX_INTERVAL_SEC, 4);
    assert_eq!(ring.capacity(), 192000);
    assert_eq!(ring.read_index(), 0);
    assert_eq!(ring.write_index(), 96000);
    assert_eq!(ring.read(0), 0.0);
    assert_eq!(ring.read(191999), 0.0);
}

#[test]
fn ring_interval_is_kept_by_every_step() {
    let mut ring = RingBuffer::new(2, 0i32);
    assert_eq!(ring.capacity(), 8);
    ring.set_interval(3);
    for step in 0..20usize {
        assert_eq!(ring.read_index(), step % 8);
        assert_eq!((ring.write_index() + 8 - ring.read_index()) % 8, 3);
        ring.next();
    }
    ring.set_interval(8 + 5);
    assert_eq!((ring.write_index() + 8 - ring.read_index()) % 8, 5);
}

#[test]
fn ring_interval_is_at_least_one() {
    let mut ring = RingBuffer::new(2, 0u8);
    ring.set_interval(0);
    assert_eq!(ring.write_index(), 1);
    ring.set_interval(16);
    assert_eq!(ring.write_index(), 1);
    for _ in 0..7 {
        ring.next();
    }
    assert_eq!(ring.read_index(), 7);
    assert_eq!(ring.write_index(), 0);
}

#[test]
fn ring_hands_back_what_was_written_an_interval_ago() {
    let mut ring = RingBuffer::new(1, 0u32);
    ring.set_interval(3);
    let mut out = Vec::new();
    for value in 1..=10u32 {
        out.push(ring.read(0));
        ring.write(value);
        ring.next();
    }
    assert_eq!(out, vec![0, 0, 0, 1, 2, 3, 4, 5, 6, 7]);
    assert_eq!(ring.read(1), 9);
    assert_eq!(ring.read(4 + 1), 9);
    assert_eq!(ring.read(usize::MAX), 7);
}

#[test]
fn envelope_runs_through_its_states_in_order() {
    let none = facts(false, false, false, false, false);
    let mut status = EnvelopeStatus::Waiting;
    assert_eq!(status.tick(&facts(true, true, true, true, true)), (status, Adjust::Keep));
    assert!(status.is_parked());
    status = status.attack();
    assert_eq!(status, EnvelopeStatus::Delay);
    assert!(!status.is_parked());
    assert_eq!(status.tick(&none), (EnvelopeStatus::Delay, Adjust::Keep));
    assert_eq!(status.tick(&facts(true, false, false, false, false)), (EnvelopeStatus::Attack, Adjust::Rise));
    status = EnvelopeStatus::Attack;
    assert_eq!(status.tick(&facts(true, false, true, true, false)), (EnvelopeStatus::Attack, Adjust::Keep));
    assert_eq!(status.tick(&facts(true, true, false, false, false)), (EnvelopeStatus::Hold, Adjust::HoldPeak));
    status = EnvelopeStatus::Hold;
    assert_eq!(status.tick(&facts(true, true, false, false, false)), (EnvelopeStatus::Hold, Adjust::Keep));
    assert_eq!(status.tick(&facts(true, true, true, false, false)), (EnvelopeStatus::Decay, Adjust::Fall));
    status = EnvelopeStatus::Decay;
    assert_eq!(status.tick(&facts(true, false, true, false, false)), (EnvelopeStatus::Decay, Adjust::Keep));
    assert_eq!(status.tick(&facts(true, false, true, true, false)), (EnvelopeStatus::Sustain, Adjust::HoldSustain));
    status = EnvelopeStatus::Sustain;
    assert_eq!(status.tick(&facts(true, true, true, true, true)), (EnvelopeStatus::Sustain, Adjust::Keep));
    status = status.release();
    assert_eq!(status, EnvelopeStatus::Released);
    assert_eq!(status.tick(&facts(true, false, true, true, false)), (EnvelopeStatus::Released, Adjust::Keep));
    assert_eq!(status.tick(&facts(true, false, true, true, true)), (EnvelopeStatus::Finished, Adjust::Silence));
    status = EnvelopeStatus::Finished;
    assert!(status.is_parked());
    assert_eq!(status.tick(&facts(true, true, true, true, true)), (status, Adjust::Keep));
    assert_eq!(status.attack(), EnvelopeStatus::Delay);
    assert_eq!(EnvelopeStatus::Decay.reset(), EnvelopeStatus::Waiting);
    assert_eq!(EnvelopeStatus::Waiting.release(), EnvelopeStatus::Released);
}

#[test]
fn envelope_of_no_length_sustains_after_four_ticks() {
    // All times are zero and the sustain level is one: every comparison of
    // time and level holds at once, and still there is one change a tick.
    let all = facts(true, true, true, true, false);
    let mut status = EnvelopeStatus::Waiting.attack();
    let mut seen = Vec::new();
    for _ in 0..5 {
        status = status.tick(&all).0;
        seen.push(status);
    }
    assert_eq!(
        seen,
        vec![
            EnvelopeStatus::Attack,
            EnvelopeStatus::Hold,
            EnvelopeStatus::Decay,
            EnvelopeStatus::Sustain,
            EnvelopeStatus::Sustain
        ]
    );
    assert!(EnvelopeMode::Normal != EnvelopeMode::DLS);
}

#[test]
fn effect_envelope_rules() {
    let mut f = StageFacts {
        no_attack: false,
        no_decay: false,
        within_attack: true,
        past_attack: false,
        within_hold: true,
        past_hold: false,
        within_decay: true,
    };
    assert_eq!(level_rule(&f), LevelRule::AttackRamp);
    f.within_attack = false;
    f.past_attack = true;
    assert_eq!(level_rule(&f), LevelRule::Peak);
    f.within_hold = false;
    f.past_hold = true;
    assert_eq!(level_rule(&f), LevelRule::DecayRamp);
    f.within_decay = false;
    assert_eq!(level_rule(&f), LevelRule::Sustain);
    f.no_decay = true;
    assert_eq!(level_rule(&f), LevelRule::Peak);
    f.within_attack = true;
    f.no_attack = true;
    assert_eq!(level_rule(&f), LevelRule::Peak);
    f.no_decay = false;
    f.within_decay = true;
    assert_eq!(level_rule(&f), LevelRule::DecayRamp);
}

#[test]
fn effect_envelope_triggers_act_once() {
    let mut latch = Latch::new();
    assert!(latch.released);
    assert!(!latch.ended);
    assert!(!latch.release());
    latch.end();
    assert!(latch.ended);
    assert!(latch.attack());
    assert!(!latch.released);
    assert!(!latch.ended);
    assert!(!latch.attack());
    assert!(latch.release());
    assert!(latch.released);
    assert!(!latch.release());
}

#[test]
fn midi_messages_are_decoded() {
    assert_eq!(
        decode_midi_message(&[0x93, 60, 100]),
        Some(MidiEvent::NoteOn { channel: 3, note: 60, velocity: 100 })
    );
    assert_eq!(
        decode_midi_message(&[0x93, 60, 0]),
        Some(MidiEvent::NoteOff { channel: 3, note: 60, velocity: 0 })
    );
    assert_eq!(
        decode_midi_message(&[0x8f, 1, 2]),
        Some(MidiEvent::NoteOff { channel: 15, note: 1, velocity: 2 })
    );
    assert_eq!(
        decode_midi_message(&[0xa0, 5, 6]),
        Some(MidiEvent::NoteAftertouch { channel: 0, note: 5, pressure: 6 })
    );
    assert_eq!(
        decode_midi_message(&[0xb1, 7, 127]),
        Some(MidiEvent::ControlChange { channel: 1, cc: 7, val: 127 })
    );
    assert_eq!(
        decode_midi_message(&[0xc2, 40]),
        Some(MidiEvent::ProgramChange { channel: 2, program_no: 40 })
    );
    assert_eq!(
        decode_midi_message(&[0xd9, 33, 1, 2]),
        Some(MidiEvent::ChannelAftertouch { channel: 9, pressure: 33 })
    );
    assert_eq!(
        decode_midi_message(&[0xe4, 0x7f, 0x7f]),
        Some(MidiEvent::PitchBend { channel: 4, offset: 16383 })
    );
    assert_eq!(
        decode_midi_message(&[0xe4, 0x00, 0x40]),
        Some(MidiEvent::PitchBend { channel: 4, offset: 8192 })
    );
    assert_eq!(decode_midi_message(&[0x40, 1, 2]), Some(MidiEvent::Nothing));
    assert_eq!(decode_midi_message(&[0xf8]), Some(MidiEvent::Nothing));
    assert_eq!(decode_midi_message(&[]), None);
    assert_eq!(decode_midi_message(&[0x90, 1]), None);
    assert_eq!(decode_midi_message(&[0xc0]), None);
}

#[test]
fn sysex_messages_name_their_vendor() {
    assert_eq!(
        decode_midi_message(&[0xf0, 0x41, 0x10]),
        Some(MidiEvent::Sysex { vendor: VendorId::Standard(0x41) })
    );
    assert_eq!(
        decode_midi_message(&[0xf0, 0x00, 0x34, 0x0f]),
        Some(MidiEvent::Sysex { vendor: VendorId::Extended(0x34, 0x0f) })
    );
    assert_eq!(decode_midi_message(&[0xf0, 0x00, 0x34]), None);
    assert_eq!(decode_midi_message(&[0xf0]), None);
    assert_eq!(sysex_vendor(&[0xf0, 0x7e]), Some(VendorId::Standard(0x7e)));
    assert_eq!(sysex_handler(VendorId::std_non_realtime()), SysexHandler::GmNonRealtime);
    assert_eq!(sysex_handler(VendorId::std_realtime()), SysexHandler::GmRealtime);
    assert_eq!(sysex_handler(VendorId::roland()), SysexHandler::Gs);
    assert_eq!(sysex_handler(VendorId::yj()), SysexHandler::Wsn);
    assert_eq!(sysex_handler(VendorId::std_dev()), SysexHandler::Wsn);
    assert_eq!(sysex_handler(VendorId::Standard(0x43)), SysexHandler::Unknown);
    assert_eq!(sysex_handler(VendorId::Extended(0x7e, 0)), SysexHandler::Unknown);
    assert_eq!(FXType(1, 2, 3), FXType(1, 2, 3));
    assert_eq!(manufacturers::ROLAND, [0x41, 0, 0]);
    assert_eq!(manufacturers::WHITESYNTH, manufacturers::STD_DEV);
    assert_eq!(manufacturers::STD_NON_REALTIME[0], 0x7e);
    assert_eq!(manufacturers::STD_REALTIME[0], 0x7f);
}

#[test]
fn device_ids_stop_at_126() {
    assert_eq!(clamp_device_id(0), 0);
    assert_eq!(clamp_device_id(0x10), 0x10);
    assert_eq!(clamp_device_id(126), 126);
    assert_eq!(clamp_device_id(127), 126);
    assert_eq!(clamp_device_id(255), 126);
}

#[test]
fn source_identifiers() {
    assert_eq!(artc_src::midi_cc(7), 0x0001_0007);
    assert_eq!(artc_src::midi_rpn(1, 2), 0x0002_0102);
    assert_eq!(artc_src::midi_nrpn(0x7f, 0x7f), 0x0004_7f7f);
    assert!(artc_src::is_midi_cc(0x0001_0000));
    assert!(artc_src::is_midi_cc(0x0001_ffff));
    assert!(!artc_src::is_midi_cc(0x0002_0000));
    assert!(!artc_src::is_midi_cc(0x0000_ffff));
    assert!(artc_src::is_midi_rpn(artc_src::midi_rpn(0, 0)));
    assert!(!artc_src::is_midi_rpn(artc_src::midi_nrpn(0, 0)));
    assert!(artc_src::is_midi_nrpn(0x0004_1234));
    assert!(!artc_src::is_midi_nrpn(0x0005_0000));
    assert_eq!(artc_src::midi_rpn(0x0100_0000, 0), artc_src::MIDI_RPN);
    assert_eq!(artc_dest::GAIN, 1);
    assert_eq!(artc_dest::HPF_Q, 0x0601);
    assert_eq!(fourcc::WSBK, *b"wsbk");
    assert_eq!(fourcc::PRSH, *b"prsh");
    assert_eq!(fourcc::INSH, *b"insh");
    assert_eq!(RIFF_ID, *b"RIFF");
    assert_eq!(LIST_ID, *b"LIST");
}

#[test]
fn transform_bytes() {
    assert!(artc_transform::is_inverted(0x10));
    assert!(artc_transform::is_inverted(0x1f));
    assert!(artc_transform::is_inverted(0x13));
    assert!(artc_transform::is_inverted(0x31));
    assert!(artc_transform::is_inverted(0x30));
    assert!(artc_transform::is_inverted(0x50));
    assert!(!artc_transform::is_inverted(0x20));
    assert!(!artc_transform::is_inverted(0x21));
    assert!(!artc_transform::is_inverted(0x00));
    assert!(!artc_transform::is_inverted(0x0f));
    assert!(artc_transform::is_bipolar(0x20));
    assert!(artc_transform::is_bipolar(0x23));
    assert!(artc_transform::is_bipolar(0x30));
    assert!(artc_transform::is_bipolar(0x31));
    assert!(artc_transform::is_bipolar(0xa0));
    assert!(!artc_transform::is_bipolar(0x13));
    assert!(!artc_transform::is_bipolar(0x10));
    assert!(!artc_transform::is_bipolar(0x00));
    assert!(!artc_transform::is_bipolar(0x4f));
    assert_eq!(artc_transform::curve(0x23), artc_transform::SWITCH);
    let t = decode_transform(0x12);
    assert_eq!(t.curve, Some(Curve::Convex));
    assert!(t.inverted);
    assert!(!t.bipolar);
    let t = decode_transform(0x21);
    assert_eq!(t.curve, Some(Curve::Concave));
    assert!(!t.inverted);
    assert!(t.bipolar);
    let t = decode_transform(0x30);
    assert_eq!(t.curve, Some(Curve::Linear));
    assert!(t.inverted && t.bipolar);
    let t = decode_transform(0x31);
    assert_eq!(t.curve, Some(Curve::Concave));
    assert!(t.inverted && t.bipolar);
    let t = decode_transform(0x02);
    assert!(!t.inverted && !t.bipolar);
    assert_eq!(decode_transform(0x03).curve, Some(Curve::Switch));
    assert_eq!(decode_transform(0x04).curve, None);
}

#[test]
fn source_ranges() {
    assert_eq!(source_range(artc_src::PITCH_WHEEL), Some(SourceRange::Wheel));
    assert_eq!(source_range(artc_src::NOTE_ON_VELOCITY), Some(SourceRange::Midi));
    assert_eq!(source_range(artc_src::NOTE_NUMBER), Some(SourceRange::Midi));
    assert_eq!(source_range(artc_src::NOTE_AFTERTOUCH), Some(SourceRange::Midi));
    assert_eq!(source_range(artc_src::CHANNEL_AFTERTOUCH), Some(SourceRange::Midi));
    assert_eq!(source_range(artc_src::midi_cc(64)), Some(SourceRange::Midi));
    assert_eq!(source_range(artc_src::VOLUME_ENV), Some(SourceRange::Unit));
    assert_eq!(source_range(artc_src::MODULATION_ENV), Some(SourceRange::Unit));
    assert_eq!(source_range(artc_src::MODULATION_LFO), Some(SourceRange::Bipolar));
    assert_eq!(source_range(artc_src::VIBRATO_LFO), Some(SourceRange::Bipolar));
    assert_eq!(source_range(artc_src::NONE), None);
    assert_eq!(source_range(artc_src::midi_rpn(0, 1)), None);
    let r = routing(&Articulator {
        src: artc_src::PITCH_WHEEL,
        src_transform: 0x20,
        control: artc_src::midi_cc(1),
        control_transform: 0x13,
        destination: artc_dest::PITCH,
        main_transform: 0x00,
        scale_bits: 0,
    });
    assert_eq!(r.src_range, Some(SourceRange::Wheel));
    assert!(r.src_transform.bipolar);
    assert_eq!(r.control_range, Some(SourceRange::Midi));
    assert!(r.control_transform.inverted);
    assert_eq!(r.control_transform.curve, Some(Curve::Switch));
    assert_eq!(r.main_transform.curve, Some(Curve::Linear));
}

#[test]
fn articulation_values_at_rest() {
    let mut v = AriculationValues::new();
    assert_eq!(v.gain, 0);
    assert_eq!(v.pitch, 0);
    assert_eq!(v.pan, 0);
    assert_eq!(v.reverb_send_coeff, 10000);
    assert_eq!(v.chorus_send_coeff, 10000);
    assert_eq!(v.modulation_lfo_freq, 0);
    assert_eq!(v.modulation_lfo_start_delay, i32::MIN);
    assert_eq!(v.vibrato_lfo_start_delay, i32::MIN);
    assert_eq!(v.volume_env_attack, i32::MIN);
    assert_eq!(v.volume_env_sustain, 10000);
    assert_eq!(v.modulation_env_release, i32::MIN);
    assert_eq!(v.modulation_env_sustain, 10000);
    assert_eq!(v.lpf_cutoff, 143000);
    assert_eq!(v.lpf_q, 0);
    assert_eq!(v.hpf_cutoff, i32::MIN);
    assert_eq!(v.hpf_q, 0);
    let before = v;
    ArticulationUnit::process(&mut v);
    assert_eq!(v, before);
}

#[test]
fn pipe_frames() {
    let little = Pipe::new(SampleEndian::Little);
    let big = Pipe::new(SampleEndian::Big);
    assert!(little.get_is_realtime());
    assert_eq!(little.endian(), SampleEndian::Little);
    let left = 0.5f32.to_bits();
    let right = (-1.0f32).to_bits();
    let mut expected = 0.5f32.to_le_bytes().to_vec();
    expected.extend_from_slice(&(-1.0f32).to_le_bytes());
    assert_eq!(little.frame_bytes(left, right).to_vec(), expected);
    let mut expected = 0.5f32.to_be_bytes().to_vec();
    expected.extend_from_slice(&(-1.0f32).to_be_bytes());
    assert_eq!(big.frame_bytes(left, right).to_vec(), expected);
    assert_eq!(little.frame_bytes(0x01020304, 0), [4, 3, 2, 1, 0, 0, 0, 0]);
    assert_eq!(big.frame_bytes(0x01020304, 0xa0b0c0d0), [1, 2, 3, 4, 0xa0, 0xb0, 0xc0, 0xd0]);
}

#[test]
fn little_endian_numbers() {
    let data = [0xffu8, 0x34, 0x12, 0x78, 0x56, 0xfe, 0xff, 0xff, 0x7f, 0x80];
    assert_eq!(read_u16(&data, 1), 0x1234);
    assert_eq!(read_u32(&data, 1), 0x56781234);
    assert_eq!(read_i16(&data, 5), -2);
    assert_eq!(read_u64(&data, 1), u64::from_le_bytes([0x34, 0x12, 0x78, 0x56, 0xfe, 0xff, 0xff, 0x7f]));
    assert_eq!(to_signed8(0x80), -128);
    assert_eq!(to_signed8(0x7f), 127);
    assert_eq!(to_unsigned8(-1), 255);
    assert_eq!(to_signed16(0xffff), -1);
    assert_eq!(to_unsigned16(-32768), 0x8000);
    let mut out = vec![9u8];
    push_u16(&mut out, 0x0102);
    push_u32(&mut out, 0x03040506);
    push_u64(&mut out, 0x0708090a0b0c0d0e);
    assert_eq!(out, vec![9, 2, 1, 6, 5, 4, 3, 0x0e, 0x0d, 0x0c, 0x0b, 0x0a, 9, 8, 7]);
    assert_eq!(copy_range(&data, 2, 5), vec![0x12, 0x78, 0x56]);
    assert_eq!(copy_range(&data, 4, 4), Vec::<u8>::new());
}

#[test]
fn first_two_bytes() {
    assert_eq!(slice2array(&[7, 8, 9]), [7, 8]);
    assert_eq!(slice2array(&[1, 2]), [1, 2]);
}

#[test]
fn text_is_valid_utf8_or_nothing() {
    assert_eq!(text_of(b"plain".to_vec()), Some("plain".to_string()));
    assert_eq!(text_of("ö€𝄞".as_bytes().to_vec()), Some("ö€𝄞".to_string()));
    assert_eq!(text_of(vec![]), Some(String::new()));
    assert_eq!(text_of(vec![0x80]), None);
    assert_eq!(text_of(vec![0xed, 0xa0, 0x80]), None);
    assert_eq!(text_of(vec![0xc0, 0xaf]), None);
    assert_eq!(text_of(vec![0xe2, 0x82]), None);
}

#[test]
fn chunks_of_ordinary_length_are_small() {
    assert_eq!(MAX_DATA_LEN, u32::MAX as u64 - 9);
    let leaf = ChunkTree::Data { id: *b"smdt", data: vec![1, 2, 3] };
    assert!(is_small(&leaf));
    let empty = ChunkTree::Children { id: LIST_ID, ty: *b"smls", children: vec![] };
    assert!(is_small(&empty));
    let nested = ChunkTree::Children {
        id: RIFF_ID,
        ty: *b"wsbk",
        children: vec![
            ChunkTree::Children { id: LIST_ID, ty: *b"smls", children: vec![leaf] },
            ChunkTree::Data { id: *b"name", data: vec![] },
        ],
    };
    assert!(is_small(&nested));
}

#[test]
fn identifiers_are_compared_byte_by_byte() {
    assert!(id_is(b"smpl", b's', b'm', b'p', b'l'));
    assert!(!id_is(b"smpl", b's', b'm', b'p', b'L'));
    assert!(!id_is(b"Smpl", b's', b'm', b'p', b'l'));
    assert!(same_id(&fourcc::SMPL, b"smpl"));
    assert!(!same_id(&fourcc::SMPL, &fourcc::SMLS));
}
