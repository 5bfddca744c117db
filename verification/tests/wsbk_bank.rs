use std::collections::HashMap;
use std::sync::Arc;
use whitesynth::soundbank::wsbk::{
    Articulator, Instrument, LoopType, Preset, PresetType, Region, Sample, SampleType, WsbkError,
    WSBK,
};

fn chunk(id: &[u8; 4], data: &[u8]) -> Vec<u8> {
    let mut out = id.to_vec();
    out.extend_from_slice(&(data.len() as u32).to_le_bytes());
    out.extend_from_slice(data);
    if data.len() % 2 != 0 {
        out.push(0);
    }
    out
}

fn list(id: &[u8; 4], ty: &[u8; 4], kids: &[Vec<u8>]) -> Vec<u8> {
    let mut body = ty.to_vec();
    for kid in kids {
        body.extend_from_slice(kid);
    }
    chunk(id, &body)
}

fn smhd(depth: u16, rate: u32, ty: u8, ls: u32, le: u32, lt: u8, key: u8, cent: u8) -> Vec<u8> {
    let mut out = depth.to_le_bytes().to_vec();
    out.extend_from_slice(&rate.to_le_bytes());
    out.push(ty);
    out.extend_from_slice(&ls.to_le_bytes());
    out.extend_from_slice(&le.to_le_bytes());
    out.push(lt);
    out.push(key);
    out.push(cent);
    out
}

fn artc_record(a: &Articulator) -> Vec<u8> {
    let mut out = a.src.to_le_bytes().to_vec();
    out.push(a.src_transform);
    out.extend_from_slice(&a.control.to_le_bytes());
    out.push(a.control_transform);
    out.extend_from_slice(&a.destination.to_le_bytes());
    out.push(a.main_transform);
    out.extend_from_slice(&a.scale_bits.to_le_bytes());
    out
}

fn artc(all: &[Articulator]) -> Vec<u8> {
    let mut out = (all.len() as u32).to_le_bytes().to_vec();
    for a in all {
        out.extend_from_slice(&artc_record(a));
    }
    out
}

fn rgnh(keys: (u8, u8), vels: (u8, u8), target: u32) -> Vec<u8> {
    let mut out = vec![keys.0, keys.1, vels.0, vels.1];
    out.extend_from_slice(&target.to_le_bytes());
    out
}

fn velocity_to_gain() -> Articulator {
    Articulator {
        src: 0x0002,
        src_transform: 0x11,
        control: 0x0001_0007,
        control_transform: 0x00,
        destination: 0x0001,
        main_transform: 0x20,
        scale_bits: 1.5f64.to_bits(),
    }
}

fn wheel_to_pitch() -> Articulator {
    Articulator {
        src: 0x0001,
        src_transform: 0x20,
        control: 0,
        control_transform: 0,
        destination: 0x0002,
        main_transform: 0,
        scale_bits: (-2400.0f64).to_bits(),
    }
}

fn small_bank() -> WSBK {
    let mut sample = Sample::new("abc");
    sample.bit_depth = 16;
    sample.sample_rate = 44100;
    sample.sample_type = SampleType::Mono;
    sample.loop_start = 2;
    sample.loop_end = 0x01020304;
    sample.loop_type = LoopType::UntilReleased;
    sample.base_key = 69;
    sample.cent_correction = -5;
    sample.data = Arc::new(vec![1, 2, 3]);
    let region = Region {
        key_range: (10, 20),
        velocity_range: (30, 40),
        target_index: 7,
        generators: HashMap::new(),
        articulators: vec![velocity_to_gain(), wheel_to_pitch()],
    };
    let plain = Region {
        key_range: (0, 127),
        velocity_range: (0, 127),
        target_index: 0,
        generators: HashMap::new(),
        articulators: vec![],
    };
    WSBK {
        samples: vec![sample],
        instruments: vec![Instrument { name: "Piano".to_string(), regions: vec![region] }],
        presets: vec![Preset {
            name: "Kit".to_string(),
            program_no: 0x0102,
            bank_msb: 120,
            bank_lsb: 3,
            type_flag: PresetType::Drum,
            regions: vec![plain],
        }],
    }
}

fn small_bank_bytes() -> Vec<u8> {
    list(
        b"RIFF",
        b"wsbk",
        &[
            list(
                b"LIST",
                b"smls",
                &[list(
                    b"LIST",
                    b"smpl",
                    &[
                        chunk(b"name", b"abc"),
                        chunk(b"smhd", &smhd(16, 44100, 0, 2, 0x01020304, 2, 69, 0xfb)),
                        chunk(b"smdt", &[1, 2, 3]),
                    ],
                )],
            ),
            list(
                b"LIST",
                b"lins",
                &[list(
                    b"LIST",
                    b"inst",
                    &[
                        chunk(b"name", b"Piano"),
                        list(
                            b"LIST",
                            b"lrgn",
                            &[list(
                                b"LIST",
                                b"rgni",
                                &[
                                    chunk(b"rgnh", &rgnh((10, 20), (30, 40), 7)),
                                    chunk(b"artc", &artc(&[velocity_to_gain(), wheel_to_pitch()])),
                                ],
                            )],
                        ),
                    ],
                )],
            ),
            list(
                b"LIST",
                b"lprs",
                &[list(
                    b"LIST",
                    b"prst",
                    &[
                        chunk(b"name", b"Kit"),
                        chunk(b"prsh", &[0x02, 0x01, 120, 3, 1]),
                        list(
                            b"LIST",
                            b"lrgn",
                            &[list(
                                b"LIST",
                                b"rgni",
                                &[chunk(b"rgnh", &rgnh((0, 127), (0, 127), 0)), chunk(b"artc", &artc(&[]))],
                            )],
                        ),
                    ],
                )],
            ),
        ],
    )
}

fn in_smpl(kids: &[Vec<u8>]) -> Vec<u8> {
    list(b"RIFF", b"wsbk", &[list(b"LIST", b"smls", &[list(b"LIST", b"smpl", kids)])])
}

fn in_rgni(kids: &[Vec<u8>]) -> Vec<u8> {
    list(
        b"RIFF",
        b"wsbk",
        &[list(
            b"LIST",
            b"lins",
            &[list(b"LIST", b"inst", &[list(b"LIST", b"lrgn", &[list(b"LIST", b"rgni", kids)])])],
        )],
    )
}

fn in_prst(kids: &[Vec<u8>]) -> Vec<u8> {
    list(b"RIFF", b"wsbk", &[list(b"LIST", b"lprs", &[list(b"LIST", b"prst", kids)])])
}

fn error_of(res: Result<WSBK, WsbkError>) -> WsbkError {
    match res {
        Ok(_) => panic!("the bank was accepted"),
        Err(e) => e,
    }
}

#[test]
fn empty_bank_is_three_empty_lists() {
    let bytes = WSBK::new().write().unwrap();
    let mut expected = b"RIFF".to_vec();
    expected.extend_from_slice(&[40, 0, 0, 0]);
    expected.extend_from_slice(b"wsbk");
    for ty in [b"smls", b"lins", b"lprs"] {
        expected.extend_from_slice(b"LIST");
        expected.extend_from_slice(&[4, 0, 0, 0]);
        expected.extend_from_slice(ty);
    }
    assert_eq!(bytes, expected);
}

#[test]
fn small_bank_is_written_chunk_by_chunk() {
    assert_eq!(small_bank().write().unwrap(), small_bank_bytes());
}

#[test]
fn written_chunks_are_padded_to_even_lengths() {
    let bytes = small_bank().write().unwrap();
    assert_eq!(bytes.len() % 2, 0);
    let at = bytes.windows(4).position(|w| w == b"name").unwrap();
    assert_eq!(&bytes[at..at + 12], &[b'n', b'a', b'm', b'e', 3, 0, 0, 0, b'a', b'b', b'c', 0]);
}

#[test]
fn small_wsbk_bank_is_read() {
    let bank = WSBK::read(&small_bank_bytes()).unwrap();
    assert_eq!(bank.samples.len(), 1);
    let sample = &bank.samples[0];
    assert_eq!(sample.name, "abc");
    assert_eq!(sample.bit_depth, 16);
    assert_eq!(sample.sample_rate, 44100);
    assert_eq!(sample.sample_type, SampleType::Mono);
    assert_eq!(sample.loop_start, 2);
    assert_eq!(sample.loop_end, 0x01020304);
    assert_eq!(sample.loop_type, LoopType::UntilReleased);
    assert_eq!(sample.base_key, 69);
    assert_eq!(sample.cent_correction, -5);
    assert_eq!(*sample.data, vec![1, 2, 3]);

    assert_eq!(bank.instruments.len(), 1);
    let piano = &bank.instruments[0];
    assert_eq!(piano.name, "Piano");
    assert_eq!(piano.regions.len(), 1);
    let region = &piano.regions[0];
    assert_eq!(region.key_range, (10, 20));
    assert_eq!(region.velocity_range, (30, 40));
    assert_eq!(region.target_index, 7);
    assert!(region.generators.is_empty());
    assert_eq!(region.articulators, vec![velocity_to_gain(), wheel_to_pitch()]);
    assert_eq!(f64::from_bits(region.articulators[0].scale_bits), 1.5);
    assert_eq!(f64::from_bits(region.articulators[1].scale_bits), -2400.0);

    assert_eq!(bank.presets.len(), 1);
    let kit = &bank.presets[0];
    assert_eq!(kit.name, "Kit");
    assert_eq!(kit.program_no, 0x0102);
    assert_eq!(kit.bank_msb, 120);
    assert_eq!(kit.bank_lsb, 3);
    assert_eq!(kit.type_flag, PresetType::Drum);
    assert_eq!(kit.regions.len(), 1);
    assert_eq!(kit.regions[0].key_range, (0, 127));
    assert!(kit.regions[0].articulators.is_empty());
}

#[test]
fn what_is_written_is_read_back() {
    let bytes = small_bank().write().unwrap();
    let again = WSBK::read(&bytes).unwrap().write().unwrap();
    assert_eq!(bytes, again);
}

#[test]
fn new_sample_holds_nothing() {
    let sample = Sample::new("Lead");
    assert_eq!(sample.name, "Lead");
    assert_eq!(sample.bit_depth, 32);
    assert_eq!(sample.sample_rate, 48000);
    assert_eq!(sample.sample_type, SampleType::Stereo);
    assert_eq!(sample.loop_start, 0);
    assert_eq!(sample.loop_end, 0);
    assert_eq!(sample.loop_type, LoopType::NoLoop);
    assert_eq!(sample.base_key, 60);
    assert_eq!(sample.cent_correction, 0);
    assert!(sample.data.is_empty());
}

#[test]
fn type_bytes_go_both_ways() {
    assert_eq!(SampleType::from_byte(0), Ok(SampleType::Mono));
    assert_eq!(SampleType::from_byte(1), Ok(SampleType::Stereo));
    assert_eq!(SampleType::from_byte(2), Err(WsbkError::InvalidSampleType));
    assert_eq!(SampleType::Mono.as_byte(), 0);
    assert_eq!(SampleType::Stereo.as_byte(), 1);
    assert_eq!(LoopType::from_byte(0), Ok(LoopType::NoLoop));
    assert_eq!(LoopType::from_byte(1), Ok(LoopType::Infinite));
    assert_eq!(LoopType::from_byte(2), Ok(LoopType::UntilReleased));
    assert_eq!(LoopType::from_byte(3), Err(WsbkError::InvalidLoopType));
    assert_eq!(LoopType::UntilReleased.as_byte(), 2);
    assert_eq!(PresetType::from_byte(0), Ok(PresetType::Melodic));
    assert_eq!(PresetType::from_byte(1), Ok(PresetType::Drum));
    assert_eq!(PresetType::from_byte(255), Err(WsbkError::InvalidPresetType));
    assert_eq!(PresetType::Drum.as_byte(), 1);
}

#[test]
fn names_add_up_and_later_headers_win() {
    let bytes = in_smpl(&[
        chunk(b"name", b"ab"),
        chunk(b"smhd", &smhd(8, 1, 1, 0, 0, 0, 1, 1)),
        chunk(b"smdt", &[9]),
        chunk(b"name", b"cd"),
        chunk(b"smhd", &smhd(24, 96000, 0, 5, 6, 1, 72, 0x7f)),
        chunk(b"smdt", &[7, 8]),
        chunk(b"junk", &[0xff]),
    ]);
    let bank = WSBK::read(&bytes).unwrap();
    let sample = &bank.samples[0];
    assert_eq!(sample.name, "abcd");
    assert_eq!(sample.bit_depth, 24);
    assert_eq!(sample.sample_rate, 96000);
    assert_eq!(sample.sample_type, SampleType::Mono);
    assert_eq!(sample.loop_type, LoopType::Infinite);
    assert_eq!(sample.base_key, 72);
    assert_eq!(sample.cent_correction, 127);
    assert_eq!(*sample.data, vec![7, 8]);
}

#[test]
fn lists_of_other_types_are_passed_over() {
    let bytes = list(
        b"RIFF",
        b"wsbk",
        &[
            list(b"LIST", b"else", &[chunk(b"name", &[0xff])]),
            list(b"LIST", b"smls", &[list(b"LIST", b"nope", &[chunk(b"name", &[0xff])])]),
            list(b"LIST", b"smls", &[list(b"LIST", b"smpl", &[chunk(b"name", b"x")])]),
            list(b"LIST", b"smls", &[list(b"LIST", b"smpl", &[chunk(b"name", b"y")])]),
        ],
    );
    let bank = WSBK::read(&bytes).unwrap();
    assert_eq!(bank.samples.len(), 2);
    assert_eq!(bank.samples[0].name, "x");
    assert_eq!(bank.samples[1].name, "y");
    assert_eq!(bank.samples[1].bit_depth, 32);
}

#[test]
fn regions_start_wide_open() {
    let bank = WSBK::read(&in_rgni(&[])).unwrap();
    let region = &bank.instruments[0].regions[0];
    assert_eq!(region.key_range, (0, 127));
    assert_eq!(region.velocity_range, (0, 127));
    assert_eq!(region.target_index, 0);
    assert!(region.articulators.is_empty());
    assert_eq!(bank.instruments[0].name, "");
}

#[test]
fn articulators_of_several_chunks_add_up() {
    let mut long = artc(&[wheel_to_pitch()]);
    long.extend_from_slice(&[1, 2, 3]);
    let bank = WSBK::read(&in_rgni(&[
        chunk(b"artc", &artc(&[velocity_to_gain()])),
        chunk(b"artc", &long),
    ]))
    .unwrap();
    assert_eq!(
        bank.instruments[0].regions[0].articulators,
        vec![velocity_to_gain(), wheel_to_pitch()]
    );
}

#[test]
fn a_list_ends_four_bytes_before_its_length_says() {
    // The list of samples says that it is four bytes longer than it is, and
    // nothing follows it: the walk stops at the end all the same.
    let sample = list(b"LIST", b"smpl", &[chunk(b"name", b"ab")]);
    assert_eq!(sample.len(), 22);
    let mut samples = b"LIST".to_vec();
    samples.extend_from_slice(&30u32.to_le_bytes());
    samples.extend_from_slice(b"smls");
    samples.extend_from_slice(&sample);
    let mut bytes = b"RIFF".to_vec();
    bytes.extend_from_slice(&(4 + samples.len() as u32).to_le_bytes());
    bytes.extend_from_slice(b"wsbk");
    bytes.extend_from_slice(&samples);
    assert_eq!(bytes.len(), 46);
    let bank = WSBK::read(&bytes).unwrap();
    assert_eq!(bank.samples.len(), 1);
    assert_eq!(bank.samples[0].name, "ab");

    // One byte more, and the walk looks for a chunk behind the end.
    let mut longer = bytes.clone();
    longer[16] = 31;
    assert_eq!(error_of(WSBK::read(&longer)), WsbkError::Io);
}

#[test]
fn a_list_that_says_too_little_loses_its_last_chunks() {
    let first = list(b"LIST", b"smpl", &[chunk(b"name", b"ab")]);
    let second = list(b"LIST", b"smpl", &[chunk(b"name", b"cd")]);
    let mut samples = b"LIST".to_vec();
    samples.extend_from_slice(&(4 + first.len() as u32).to_le_bytes());
    samples.extend_from_slice(b"smls");
    samples.extend_from_slice(&first);
    samples.extend_from_slice(&second);
    let mut bytes = b"RIFF".to_vec();
    bytes.extend_from_slice(&(4 + 8 + 4 + first.len() as u32).to_le_bytes());
    bytes.extend_from_slice(b"wsbk");
    bytes.extend_from_slice(&samples);
    let bank = WSBK::read(&bytes).unwrap();
    assert_eq!(bank.samples.len(), 1);
    assert_eq!(bank.samples[0].name, "ab");
}

#[test]
fn a_chunk_that_starts_before_the_end_is_taken_in_whole() {
    // The list of samples says that it ends inside its second sample. The
    // sample starts before that end, so it is read, and whole.
    let first = list(b"LIST", b"smpl", &[chunk(b"name", b"ab")]);
    let second = list(b"LIST", b"smpl", &[chunk(b"name", b"cd")]);
    let mut samples = b"LIST".to_vec();
    samples.extend_from_slice(&(4 + first.len() as u32 + 8).to_le_bytes());
    samples.extend_from_slice(b"smls");
    samples.extend_from_slice(&first);
    let inner = samples.len();
    samples.extend_from_slice(&second);
    let mut bytes = b"RIFF".to_vec();
    bytes.extend_from_slice(&(4 + samples.len() as u32).to_le_bytes());
    bytes.extend_from_slice(b"wsbk");
    bytes.extend_from_slice(&samples);
    assert_eq!(inner, 34);
    let bank = WSBK::read(&bytes).unwrap();
    let names: Vec<&str> = bank.samples.iter().map(|s| s.name.as_str()).collect();
    assert_eq!(names, vec!["ab", "cd"]);
}

#[test]
fn container_must_be_a_bank() {
    assert_eq!(error_of(WSBK::read(&list(b"RIFF", b"sfbk", &[]))), WsbkError::InvalidRiffType);
    assert_eq!(error_of(WSBK::read(b"RIFF\x04\x00\x00\x00wsb")), WsbkError::Io);
    assert_eq!(error_of(WSBK::read(&[])), WsbkError::Io);
    assert!(WSBK::read(&list(b"RIFF", b"wsbk", &[])).unwrap().samples.is_empty());
}

#[test]
fn truncated_bank_is_an_io_error() {
    let bytes = small_bank_bytes();
    assert_eq!(error_of(WSBK::read(&bytes[..bytes.len() - 2])), WsbkError::Io);
    assert_eq!(error_of(WSBK::read(&bytes[..40])), WsbkError::Io);
}

#[test]
fn sample_header_is_checked() {
    let short = chunk(b"smhd", &smhd(16, 1, 0, 0, 0, 0, 0, 0)[..17]);
    assert_eq!(error_of(WSBK::read(&in_smpl(&[short]))), WsbkError::InvalidSampleHeaderLength);
    let bad_type = chunk(b"smhd", &smhd(16, 1, 2, 0, 0, 0, 0, 0));
    assert_eq!(error_of(WSBK::read(&in_smpl(&[bad_type]))), WsbkError::InvalidSampleType);
    let bad_loop = chunk(b"smhd", &smhd(16, 1, 1, 0, 0, 3, 0, 0));
    assert_eq!(error_of(WSBK::read(&in_smpl(&[bad_loop]))), WsbkError::InvalidLoopType);
    let both = chunk(b"smhd", &smhd(16, 1, 9, 0, 0, 9, 0, 0));
    assert_eq!(error_of(WSBK::read(&in_smpl(&[both]))), WsbkError::InvalidSampleType);
}

#[test]
fn region_header_is_checked() {
    let short = chunk(b"rgnh", &[0, 127, 0, 127, 0, 0, 0]);
    assert_eq!(error_of(WSBK::read(&in_rgni(&[short]))), WsbkError::InvalidRegionHeaderLength);
    let long = chunk(b"rgnh", &[1, 2, 3, 4, 5, 0, 0, 0, 9, 9]);
    let bank = WSBK::read(&in_rgni(&[long])).unwrap();
    assert_eq!(bank.instruments[0].regions[0].key_range, (1, 2));
    assert_eq!(bank.instruments[0].regions[0].target_index, 5);
}

#[test]
fn preset_header_is_checked() {
    let short = chunk(b"prsh", &[0, 0, 0, 0]);
    assert_eq!(error_of(WSBK::read(&in_prst(&[short]))), WsbkError::InvalidPresetHeaderLength);
    let bad = chunk(b"prsh", &[0, 0, 0, 0, 2]);
    assert_eq!(error_of(WSBK::read(&in_prst(&[bad]))), WsbkError::InvalidPresetType);
    let bank = WSBK::read(&in_prst(&[])).unwrap();
    assert_eq!(bank.presets[0].type_flag, PresetType::Melodic);
    assert_eq!(bank.presets[0].program_no, 0);
}

#[test]
fn names_must_be_utf8() {
    assert_eq!(error_of(WSBK::read(&in_smpl(&[chunk(b"name", &[0xc3])]))), WsbkError::InvalidUtf8);
    assert_eq!(error_of(WSBK::read(&in_prst(&[chunk(b"name", &[0xff])]))), WsbkError::InvalidUtf8);
    let bank = WSBK::read(&in_smpl(&[chunk(b"name", "é♪".as_bytes())])).unwrap();
    assert_eq!(bank.samples[0].name, "é♪");
}

#[test]
fn articulators_must_be_whole() {
    let mut cut = artc(&[velocity_to_gain(), wheel_to_pitch()]);
    cut.pop();
    assert_eq!(error_of(WSBK::read(&in_rgni(&[chunk(b"artc", &cut)]))), WsbkError::Io);
    assert_eq!(error_of(WSBK::read(&in_rgni(&[chunk(b"artc", &[1, 0, 0])]))), WsbkError::Io);
    assert_eq!(
        Articulator::parse_artc(&[0xff, 0xff, 0xff, 0xff]).unwrap_err(),
        WsbkError::Io
    );
    assert_eq!(Articulator::parse_artc(&[0, 0, 0, 0, 5]).unwrap(), vec![]);
}

#[test]
fn errors_have_messages() {
    assert_eq!(WsbkError::InvalidRiffType.to_string(), "Invalid RIFF file type");
    assert_eq!(WsbkError::InvalidSampleType.to_string(), "Invalid sample type");
    assert_eq!(WsbkError::InvalidLoopType.to_string(), "Invalid loop type");
    assert_eq!(WsbkError::InvalidPresetType.to_string(), "Invalid preset type");
    assert_eq!(
        WsbkError::InvalidSampleHeaderLength.to_string(),
        "Invalid sample header(smhd) length"
    );
    assert_eq!(
        WsbkError::InvalidRegionHeaderLength.to_string(),
        "Invalid region header(rgnh) length"
    );
    assert_eq!(
        WsbkError::InvalidPresetHeaderLength.to_string(),
        "Invalid preset header(prsh) length"
    );
    assert_eq!(WsbkError::TooBig.to_string(), "Data too big");
}
