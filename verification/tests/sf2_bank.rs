use whitesynth::soundbank::sf2::gather::gather;
use whitesynth::soundbank::sf2::gen_ids;
use whitesynth::soundbank::sf2::structure::{SF2Generator, SF2GeneratorAmount, SF2Zone};
use whitesynth::soundbank::sf2::tables::{
    parse_bags, parse_generators, parse_modulators, parse_sample_headers, read_name,
};
use whitesynth::soundbank::sf2::{samples_from, SF2Error, SF2ErrorKind, SF2Table, SF2};

fn chunk(id: &[u8; 4], data: &[u8]) -> Vec<u8> {
    let mut out = id.to_vec();
    out.extend_from_slice(&(data.len() as u32).to_le_bytes());
    out.extend_from_slice(data);
    if data.len() % 2 != 0 {
        out.push(0);
    }
    out
}

fn list(id: &[u8; 4], ty: &[u8; 4], kids: &[Vec<u8>]) -> Vec<u8> {
    let mut body = ty.to_vec();
    for kid in kids {
        body.extend_from_slice(kid);
    }
    chunk(id, &body)
}

fn name20(name: &str) -> Vec<u8> {
    let mut out = name.as_bytes().to_vec();
    out.resize(20, 0);
    out
}

fn shdr_record(name: &str, start: u32, end: u32, ls: u32, le: u32, rate: u32, key: u8, corr: u8) -> Vec<u8> {
    let mut out = name20(name);
    out.extend_from_slice(&start.to_le_bytes());
    out.extend_from_slice(&end.to_le_bytes());
    out.extend_from_slice(&ls.to_le_bytes());
    out.extend_from_slice(&le.to_le_bytes());
    out.extend_from_slice(&rate.to_le_bytes());
    out.push(key);
    out.push(corr);
    out.extend_from_slice(&7u16.to_le_bytes());
    out.extend_from_slice(&1u16.to_le_bytes());
    out
}

fn inst_record(name: &str, bag: u16) -> Vec<u8> {
    let mut out = name20(name);
    out.extend_from_slice(&bag.to_le_bytes());
    out
}

fn phdr_record(name: &str, program: u16, bank: u16, bag: u16) -> Vec<u8> {
    let mut out = name20(name);
    out.extend_from_slice(&program.to_le_bytes());
    out.extend_from_slice(&bank.to_le_bytes());
    out.extend_from_slice(&bag.to_le_bytes());
    out.extend_from_slice(&0x11223344u32.to_le_bytes());
    out.extend_from_slice(&0x55667788u32.to_le_bytes());
    out.extend_from_slice(&0x99aabbccu32.to_le_bytes());
    out
}

fn bag(gen: u16, modulator: u16) -> Vec<u8> {
    let mut out = gen.to_le_bytes().to_vec();
    out.extend_from_slice(&modulator.to_le_bytes());
    out
}

fn gen(op: u16, lo: u8, hi: u8) -> Vec<u8> {
    let mut out = op.to_le_bytes().to_vec();
    out.push(lo);
    out.push(hi);
    out
}

fn modulator(src: u16, dest: u16, amount: i16, amount_src: u16, trans: u16) -> Vec<u8> {
    let mut out = src.to_le_bytes().to_vec();
    out.extend_from_slice(&dest.to_le_bytes());
    out.extend_from_slice(&amount.to_le_bytes());
    out.extend_from_slice(&amount_src.to_le_bytes());
    out.extend_from_slice(&trans.to_le_bytes());
    out
}

struct Parts {
    info: Vec<Vec<u8>>,
    sdta: Vec<Vec<u8>>,
    shdr: Vec<u8>,
    inst: Vec<u8>,
    ibag: Vec<u8>,
    imod: Vec<u8>,
    igen: Vec<u8>,
    phdr: Vec<u8>,
    pbag: Vec<u8>,
    pmod: Vec<u8>,
    pgen: Vec<u8>,
}

fn small_parts() -> Parts {
    Parts {
        info: vec![
            chunk(b"ifil", &[2, 0, 1, 0]),
            chunk(b"INAM", b"Small"),
            chunk(b"INAM", b" bank"),
            chunk(b"iver", &[3, 0, 4, 1]),
            chunk(b"ICOP", b"none"),
            chunk(b"xxxx", &[0xff, 0xff]),
        ],
        sdta: vec![chunk(b"smpl", &[1, 0, 0xff, 0xff, 0, 0x80, 0x34, 0x12])],
        shdr: [
            shdr_record("Sine", 0, 4, 1, 3, 44100, 60, 0xfd),
            shdr_record("EOS", 0, 0, 0, 0, 0, 0, 0),
        ]
        .concat(),
        inst: [inst_record("Piano", 0), inst_record("EOI", 1)].concat(),
        ibag: [bag(0, 0), bag(2, 0)].concat(),
        imod: modulator(0, 0, 0, 0, 0),
        igen: [gen(43, 0, 127), gen(53, 0, 0), gen(0, 0, 0)].concat(),
        phdr: [phdr_record("Grand", 5, 128, 0), phdr_record("EOP", 0, 0, 1)].concat(),
        pbag: [bag(0, 0), bag(1, 1)].concat(),
        pmod: [modulator(2, 48, -960, 0, 0), modulator(0, 0, 0, 0, 0)].concat(),
        pgen: [gen(41, 0, 0), gen(0, 0, 0)].concat(),
    }
}

fn file_of(parts: &Parts) -> Vec<u8> {
    list(
        b"RIFF",
        b"sfbk",
        &[
            list(b"LIST", b"INFO", &parts.info),
            list(b"LIST", b"sdta", &parts.sdta),
            list(
                b"LIST",
                b"pdta",
                &[
                    chunk(b"phdr", &parts.phdr),
                    chunk(b"pbag", &parts.pbag),
                    chunk(b"pmod", &parts.pmod),
                    chunk(b"pgen", &parts.pgen),
                    chunk(b"inst", &parts.inst),
                    chunk(b"ibag", &parts.ibag),
                    chunk(b"imod", &parts.imod),
                    chunk(b"igen", &parts.igen),
                    chunk(b"shdr", &parts.shdr),
                ],
            ),
        ],
    )
}

fn kind_of(res: Result<SF2, SF2Error>) -> SF2ErrorKind {
    match res {
        Ok(_) => panic!("the bank was accepted"),
        Err(e) => e.kind(),
    }
}

#[test]
fn small_sf2_bank_is_read() {
    let bank = SF2::new(&file_of(&small_parts())).unwrap();
    assert_eq!(bank.info.sf_version, [2, 1]);
    assert_eq!(bank.info.rom_version, [3, 260]);
    assert_eq!(bank.info.bank_name, "Small bank");
    assert_eq!(bank.info.copyright, "none");
    assert_eq!(bank.info.comments, "");
    assert_eq!(bank.info.target_sound_engine, "");

    assert_eq!(bank.sample_headers.len(), 2);
    let sine = &bank.sample_headers[0];
    assert_eq!(sine.index, 0);
    assert_eq!(sine.name, "Sine");
    assert_eq!(sine.smpl_start, 0);
    assert_eq!(sine.smpl_end, 4);
    assert_eq!(sine.loop_start, 1);
    assert_eq!(sine.loop_end, 3);
    assert_eq!(sine.sample_rate, 44100);
    assert_eq!(sine.base_key, 60);
    assert_eq!(sine.correction, -3);
    assert_eq!(sine.linked_sample_index, 7);
    assert_eq!(sine.sample_type, 1);
    assert_eq!(bank.sample_headers[1].name, "EOS");
    assert_eq!(bank.sample_headers[1].index, 1);

    assert_eq!(*bank.sample_data, vec![1, -1, -32768, 0x1234]);
}

#[test]
fn small_bank_instruments_get_their_zones() {
    let bank = SF2::new(&file_of(&small_parts())).unwrap();
    assert_eq!(bank.instruments.len(), 2);
    let piano = &bank.instruments[0];
    assert_eq!(piano.name, "Piano");
    assert_eq!(piano.ibag_index, 0);
    assert_eq!(piano.zones.len(), 1);
    let zone = &piano.zones[0];
    assert_eq!(zone.generators.len(), 2);
    assert_eq!(zone.generators[0].operator, gen_ids::KEY_RANGE);
    assert_eq!(zone.generators[0].amount.get_u8_array(), [0, 127]);
    assert_eq!(zone.generators[1].operator, gen_ids::SAMPLE_ID);
    assert_eq!(zone.modulators.len(), 0);
    assert_eq!(zone.target_sample_index, Some(0));
    assert_eq!(zone.target_instrument_index, None);
    assert_eq!(zone.get_gen(gen_ids::KEY_RANGE).unwrap().get_u16(), 127 * 256);
    assert_eq!(zone.get_gen(gen_ids::SAMPLE_ID).unwrap().get_u16(), 0);
    assert!(zone.get_gen(gen_ids::PAN).is_none());

    let last = &bank.instruments[1];
    assert_eq!(last.name, "EOI");
    assert_eq!(last.ibag_index, 1);
    assert_eq!(last.zones.len(), 1);
    assert_eq!(last.zones[0].generators.len(), 1);
    assert_eq!(last.zones[0].generators[0].operator, 0);
    assert_eq!(last.zones[0].modulators.len(), 1);
    assert_eq!(last.zones[0].target_sample_index, None);
}

#[test]
fn small_bank_presets_get_their_zones() {
    let bank = SF2::new(&file_of(&small_parts())).unwrap();
    assert_eq!(bank.presets.len(), 2);
    let grand = &bank.presets[0];
    assert_eq!(grand.name, "Grand");
    assert_eq!(grand.program_no, 5);
    assert_eq!(grand.bank, 128);
    assert_eq!(grand.pbag_index, 0);
    assert_eq!(grand.library, 0x11223344);
    assert_eq!(grand.genre, 0x55667788);
    assert_eq!(grand.morph, 0x99aabbcc);
    assert_eq!(grand.zones.len(), 1);
    let zone = &grand.zones[0];
    assert_eq!(zone.generators.len(), 1);
    assert_eq!(zone.generators[0].operator, gen_ids::INSTRUMENT);
    assert_eq!(zone.target_instrument_index, Some(0));
    assert_eq!(zone.target_sample_index, None);
    assert_eq!(zone.modulators.len(), 1);
    assert_eq!(zone.modulators[0].src_operator, 2);
    assert_eq!(zone.modulators[0].dest_operator, 48);
    assert_eq!(zone.modulators[0].mod_amount, -960);

    let last = &bank.presets[1];
    assert_eq!(last.name, "EOP");
    assert_eq!(last.zones.len(), 1);
    assert_eq!(last.zones[0].generators.len(), 1);
    assert_eq!(last.zones[0].modulators.len(), 1);
    assert_eq!(last.zones[0].modulators[0].mod_amount, 0);
}

#[test]
fn last_target_generator_wins() {
    let mut parts = small_parts();
    parts.igen = [gen(53, 4, 0), gen(53, 9, 1), gen(0, 0, 0)].concat();
    let bank = SF2::new(&file_of(&parts)).unwrap();
    let zone = &bank.instruments[0].zones[0];
    assert_eq!(zone.target_sample_index, Some(265));
    assert_eq!(zone.get_gen(gen_ids::SAMPLE_ID).unwrap().get_u16(), 265);
}

#[test]
fn owner_without_bags_has_no_zone() {
    let mut parts = small_parts();
    parts.inst = [inst_record("A", 0), inst_record("B", 0), inst_record("EOI", 1)].concat();
    let bank = SF2::new(&file_of(&parts)).unwrap();
    assert_eq!(bank.instruments[0].zones.len(), 0);
    assert_eq!(bank.instruments[1].zones.len(), 1);
    assert_eq!(bank.instruments[2].zones.len(), 1);
}

#[test]
fn the_later_smpl_chunk_is_the_one_read() {
    let mut parts = small_parts();
    parts.sdta = vec![chunk(b"smpl", &[9, 9]), chunk(b"sm24", &[1]), chunk(b"smpl", &[2, 0, 3, 0])];
    let bank = SF2::new(&file_of(&parts)).unwrap();
    assert_eq!(*bank.sample_data, vec![2, 3]);
}

#[test]
fn a_later_table_replaces_an_earlier_one() {
    let parts = small_parts();
    let file = list(
        b"RIFF",
        b"sfbk",
        &[
            list(b"LIST", b"sdta", &parts.sdta),
            list(
                b"LIST",
                b"pdta",
                &[
                    chunk(b"shdr", &shdr_record("First", 0, 0, 0, 0, 0, 0, 0)),
                    chunk(b"shdr", &parts.shdr),
                ],
            ),
        ],
    );
    let bank = SF2::new(&file).unwrap();
    assert_eq!(bank.sample_headers.len(), 2);
    assert_eq!(bank.sample_headers[0].name, "Sine");
    assert_eq!(bank.instruments.len(), 0);
    assert_eq!(bank.presets.len(), 0);
}

#[test]
fn truncated_container_is_an_io_error() {
    let file = file_of(&small_parts());
    assert_eq!(kind_of(SF2::new(&file[..file.len() - 3])), SF2ErrorKind::Io);
    assert_eq!(kind_of(SF2::new(&file[..7])), SF2ErrorKind::Io);
    assert_eq!(kind_of(SF2::new(&[])), SF2ErrorKind::Io);
}

#[test]
fn list_type_must_be_text() {
    let file = list(b"RIFF", b"sfbk", &[list(b"LIST", &[0xff, 0xfe, 0xfd, 0xfc], &[])]);
    assert_eq!(kind_of(SF2::new(&file)), SF2ErrorKind::InvalidChunkId);
}

#[test]
fn chunk_id_must_be_text_in_known_lists() {
    let bad = chunk(&[0xff, 0xff, 0xff, 0xff], &[]);
    let in_info = list(b"RIFF", b"sfbk", &[list(b"LIST", b"INFO", &[bad.clone()])]);
    assert_eq!(kind_of(SF2::new(&in_info)), SF2ErrorKind::InvalidChunkId);
    let in_other = list(b"RIFF", b"sfbk", &[list(b"LIST", b"else", &[bad])]);
    assert_eq!(kind_of(SF2::new(&in_other)), SF2ErrorKind::NoSampleChunk);
}

#[test]
fn chunk_id_must_be_text_in_tables_and_sample_data() {
    let mut parts = small_parts();
    parts.sdta = vec![chunk(&[0x80, 0x80, 0x80, 0x80], &[])];
    assert_eq!(kind_of(SF2::new(&file_of(&parts))), SF2ErrorKind::InvalidChunkId);
    let parts = small_parts();
    let file = list(
        b"RIFF",
        b"sfbk",
        &[
            list(b"LIST", b"sdta", &parts.sdta),
            list(b"LIST", b"pdta", &[chunk(&[b's', b'h', b'd', 0xff], &parts.shdr)]),
        ],
    );
    assert_eq!(kind_of(SF2::new(&file)), SF2ErrorKind::InvalidChunkId);
}

#[test]
fn a_chunk_that_ends_behind_the_data_fails_only_when_it_is_read() {
    fn with_last_info_chunk(id: &[u8; 4]) -> Vec<u8> {
        let parts = small_parts();
        let mut info = b"LIST".to_vec();
        info.extend_from_slice(&12u32.to_le_bytes());
        info.extend_from_slice(b"INFO");
        info.extend_from_slice(id);
        info.extend_from_slice(&100u32.to_le_bytes());
        let sdta = list(b"LIST", b"sdta", &parts.sdta);
        let mut file = b"RIFF".to_vec();
        file.extend_from_slice(&((4 + sdta.len() + info.len()) as u32).to_le_bytes());
        file.extend_from_slice(b"sfbk");
        file.extend_from_slice(&sdta);
        file.extend_from_slice(&info);
        file
    }
    assert_eq!(kind_of(SF2::new(&with_last_info_chunk(b"ICMT"))), SF2ErrorKind::Io);
    let mut huge = with_last_info_chunk(b"ICMT");
    let at = huge.len() - 4;
    huge[at..].copy_from_slice(&u32::MAX.to_le_bytes());
    assert_eq!(kind_of(SF2::new(&huge)), SF2ErrorKind::Io);
    assert_eq!(kind_of(SF2::new(&with_last_info_chunk(b"ifil"))), SF2ErrorKind::Io);
    let bank = SF2::new(&with_last_info_chunk(b"zzzz")).unwrap();
    assert_eq!(bank.info.comments, "");
    assert_eq!(*bank.sample_data, vec![1, -1, -32768, 0x1234]);
}

#[test]
fn info_text_must_be_utf8() {
    let mut parts = small_parts();
    parts.info = vec![chunk(b"INAM", &[0x41, 0xff])];
    assert_eq!(kind_of(SF2::new(&file_of(&parts))), SF2ErrorKind::InvalidUtf8);
}

#[test]
fn version_needs_four_bytes() {
    let mut parts = small_parts();
    parts.info = vec![chunk(b"ifil", &[2, 0, 1])];
    assert_eq!(kind_of(SF2::new(&file_of(&parts))), SF2ErrorKind::TruncatedVersion);
}

#[test]
fn table_lengths_are_checked() {
    let mut parts = small_parts();
    parts.shdr.push(0);
    assert_eq!(kind_of(SF2::new(&file_of(&parts))), SF2ErrorKind::InvalidLength(SF2Table::Shdr));
    let mut parts = small_parts();
    parts.igen.pop();
    assert_eq!(kind_of(SF2::new(&file_of(&parts))), SF2ErrorKind::InvalidLength(SF2Table::Igen));
    let mut parts = small_parts();
    parts.pmod.push(1);
    assert_eq!(kind_of(SF2::new(&file_of(&parts))), SF2ErrorKind::InvalidLength(SF2Table::Pmod));
    let mut parts = small_parts();
    parts.phdr.truncate(37);
    assert_eq!(kind_of(SF2::new(&file_of(&parts))), SF2ErrorKind::InvalidLength(SF2Table::Phdr));
    let mut parts = small_parts();
    parts.inst.push(0);
    assert_eq!(kind_of(SF2::new(&file_of(&parts))), SF2ErrorKind::InvalidLength(SF2Table::Inst));
    let mut parts = small_parts();
    parts.ibag.push(0);
    assert_eq!(kind_of(SF2::new(&file_of(&parts))), SF2ErrorKind::InvalidLength(SF2Table::Ibag));
    let mut parts = small_parts();
    parts.imod.push(0);
    assert_eq!(kind_of(SF2::new(&file_of(&parts))), SF2ErrorKind::InvalidLength(SF2Table::Imod));
    let mut parts = small_parts();
    parts.pbag.push(0);
    assert_eq!(kind_of(SF2::new(&file_of(&parts))), SF2ErrorKind::InvalidLength(SF2Table::Pbag));
    let mut parts = small_parts();
    parts.pgen.push(0);
    assert_eq!(kind_of(SF2::new(&file_of(&parts))), SF2ErrorKind::InvalidLength(SF2Table::Pgen));
}

#[test]
fn a_name_may_not_start_with_zero() {
    let mut parts = small_parts();
    parts.shdr = shdr_record("", 0, 0, 0, 0, 0, 0, 0);
    assert_eq!(kind_of(SF2::new(&file_of(&parts))), SF2ErrorKind::EmptyName);
}

#[test]
fn a_name_must_be_utf8() {
    let mut parts = small_parts();
    parts.inst[0] = 0xff;
    assert_eq!(kind_of(SF2::new(&file_of(&parts))), SF2ErrorKind::InvalidUtf8);
}

#[test]
fn bags_need_generators_and_modulators() {
    let mut parts = small_parts();
    parts.igen = vec![];
    assert_eq!(kind_of(SF2::new(&file_of(&parts))), SF2ErrorKind::EmptyTable);
    let mut parts = small_parts();
    parts.pmod = vec![];
    assert_eq!(kind_of(SF2::new(&file_of(&parts))), SF2ErrorKind::EmptyTable);
}

#[test]
fn owners_need_bags() {
    let mut parts = small_parts();
    parts.ibag = vec![];
    assert_eq!(kind_of(SF2::new(&file_of(&parts))), SF2ErrorKind::IndexOutOfRange);
    let mut parts = small_parts();
    parts.ibag = vec![];
    parts.inst = inst_record("Only", 0);
    assert_eq!(kind_of(SF2::new(&file_of(&parts))), SF2ErrorKind::EmptyTable);
}

#[test]
fn indices_must_stay_inside_their_tables() {
    let mut parts = small_parts();
    parts.inst = [inst_record("Piano", 0), inst_record("EOI", 9)].concat();
    assert_eq!(kind_of(SF2::new(&file_of(&parts))), SF2ErrorKind::IndexOutOfRange);
    let mut parts = small_parts();
    parts.pbag = [bag(0, 0), bag(7, 1)].concat();
    assert_eq!(kind_of(SF2::new(&file_of(&parts))), SF2ErrorKind::IndexOutOfRange);
}

#[test]
fn sample_data_are_needed_and_whole() {
    let mut parts = small_parts();
    parts.sdta = vec![];
    assert_eq!(kind_of(SF2::new(&file_of(&parts))), SF2ErrorKind::NoSampleChunk);
    let mut parts = small_parts();
    parts.sdta = vec![chunk(b"smpl", &[1, 2, 3])];
    assert_eq!(kind_of(SF2::new(&file_of(&parts))), SF2ErrorKind::OddSampleData);
}

#[test]
fn the_first_failure_is_reported() {
    let mut parts = small_parts();
    parts.sdta = vec![];
    parts.shdr = shdr_record("", 0, 0, 0, 0, 0, 0, 0);
    parts.pgen = vec![];
    assert_eq!(kind_of(SF2::new(&file_of(&parts))), SF2ErrorKind::EmptyName);
}

#[test]
fn errors_carry_their_messages() {
    assert_eq!(SF2Error::of_kind(SF2ErrorKind::NoSampleChunk).to_string(), "No smpl chunk");
    assert_eq!(
        SF2Error::of_kind(SF2ErrorKind::InvalidLength(SF2Table::Shdr)).to_string(),
        "invalid length of chunk 'shdr'"
    );
    assert_eq!(
        SF2Error::of_kind(SF2ErrorKind::InvalidLength(SF2Table::Pgen)).to_string(),
        "invalid length of chunk 'pgen'"
    );
    let e = SF2Error::new("something else");
    assert_eq!(e.kind(), SF2ErrorKind::Other);
    assert_eq!(e.to_string(), "something else");
    assert_eq!(SF2Error::new_box("boxed").to_string(), "boxed");
}

#[test]
fn walk_gathers_tables_and_texts() {
    let all = gather(&file_of(&small_parts())).unwrap();
    assert_eq!(all.tables.len(), 9);
    assert_eq!(all.tables[0], small_parts().shdr);
    assert_eq!(all.tables[1], small_parts().inst);
    assert_eq!(all.tables[8], small_parts().pgen);
    assert_eq!(all.info.bank_name, "Small bank");
    assert!(all.smpl.is_some());
}

#[test]
fn names_end_at_the_first_zero() {
    let mut field = name20("Flute");
    assert_eq!(read_name(&field, 0).unwrap(), "Flute");
    field[2] = 0;
    assert_eq!(read_name(&field, 0).unwrap(), "Fl");
    let full = [b'a'; 20];
    assert_eq!(read_name(&full, 0).unwrap(), "a");
    let mut shifted = vec![0xffu8; 3];
    shifted.extend_from_slice(&name20("Oboe"));
    assert_eq!(read_name(&shifted, 3).unwrap(), "Oboe");
    assert_eq!(read_name(&name20(""), 0).unwrap_err().kind(), SF2ErrorKind::EmptyName);
    let mut bad = name20("x");
    bad[1] = 0x80;
    assert_eq!(read_name(&bad, 0).unwrap_err().kind(), SF2ErrorKind::InvalidUtf8);
}

#[test]
fn sample_headers_skip_a_trailing_part() {
    let mut shdr = small_parts().shdr;
    shdr.extend_from_slice(&[1, 2, 3]);
    let headers = parse_sample_headers(&shdr).unwrap();
    assert_eq!(headers.len(), 2);
    assert_eq!(headers[0].name, "Sine");
}

#[test]
fn generators_and_modulators_are_read_in_order() {
    let gens = parse_generators(&[gen(17, 0x9c, 0xff), gen(8, 0x10, 0x27)].concat());
    assert_eq!(gens.len(), 2);
    assert_eq!(gens[0].operator, gen_ids::PAN);
    assert_eq!(gens[0].amount.get_i16(), -100);
    assert_eq!(gens[0].amount.get_u16(), 65436);
    assert_eq!(gens[1].operator, gen_ids::INITIAL_FILTER_FC);
    assert_eq!(gens[1].amount.get_i16(), 10000);
    let mods = parse_modulators(&modulator(0x0502, 48, -1, 7, 9));
    assert_eq!(mods.len(), 1);
    assert_eq!(mods[0].src_operator, 0x0502);
    assert_eq!(mods[0].dest_operator, 48);
    assert_eq!(mods[0].mod_amount, -1);
    assert_eq!(mods[0].amount_src_operator, 7);
    assert_eq!(mods[0].mod_trans_operator, 9);
}

#[test]
fn bag_ranges_end_before_the_next_bag() {
    let bags = parse_bags(&[bag(0, 0), bag(3, 0), bag(3, 2), bag(5, 2)].concat(), 6, 3).unwrap();
    assert_eq!(bags.len(), 4);
    assert!(bags[0].is_generator);
    assert_eq!((bags[0].generator_start, bags[0].generator_end), (0, 2));
    assert!(!bags[0].is_modulator);
    assert_eq!(bags[0].modulator_end, 0);
    assert!(!bags[1].is_generator);
    assert_eq!(bags[1].generator_end, 0);
    assert!(bags[1].is_modulator);
    assert_eq!((bags[1].modulator_start, bags[1].modulator_end), (0, 1));
    assert!(bags[2].is_generator);
    assert_eq!((bags[2].generator_start, bags[2].generator_end), (3, 4));
    assert!(!bags[2].is_modulator);
    assert!(bags[3].is_generator);
    assert_eq!((bags[3].generator_start, bags[3].generator_end), (5, 5));
    assert!(bags[3].is_modulator);
    assert_eq!((bags[3].modulator_start, bags[3].modulator_end), (2, 2));
    assert_eq!(parse_bags(&bag(0, 0), 0, 1).unwrap_err().kind(), SF2ErrorKind::EmptyTable);
    assert_eq!(parse_bags(&[], 0, 0).unwrap().len(), 0);
    let wide = parse_bags(&bag(0, 0), 65537 + 4, 1).unwrap();
    assert_eq!(wide[0].generator_end, 4);
}

#[test]
fn samples_are_little_endian_pairs() {
    assert_eq!(samples_from(&[0x00, 0x80, 0xff, 0x7f, 0xfe, 0xff, 5]), vec![-32768, 32767, -2]);
    assert_eq!(samples_from(&[]), Vec::<i16>::new());
}

#[test]
fn generator_amount_keeps_three_readings() {
    let mut amount = SF2GeneratorAmount::new([0x34, 0x12]);
    assert_eq!(amount.get_u16(), 0x1234);
    assert_eq!(amount.get_i16(), 0x1234);
    assert_eq!(amount.get_u8_array(), [0x34, 0x12]);
    amount.set_i16(-2);
    assert_eq!(amount.get_u16(), 0xfffe);
    assert_eq!(amount.get_i16(), -2);
    assert_eq!(amount.get_u8_array(), [0xfe, 0xff]);
    amount.set_u16(0x8000);
    assert_eq!(amount.get_i16(), -32768);
    assert_eq!(amount.get_u8_array(), [0x00, 0x80]);
    amount.set_u8_array([1, 2]);
    assert_eq!(amount.get_u16(), 513);
    assert_eq!(amount.get_i16(), 513);
}

#[test]
fn zone_lookup_follows_the_generators() {
    let mut zone = SF2Zone::new();
    assert!(zone.generators.is_empty());
    assert!(zone.modulators.is_empty());
    assert!(zone.get_gen(1).is_none());
    zone.generators.push(SF2Generator { operator: 5, amount: SF2GeneratorAmount::new([1, 0]) });
    zone.generators.push(SF2Generator { operator: 6, amount: SF2GeneratorAmount::new([2, 0]) });
    zone.generators.push(SF2Generator { operator: 5, amount: SF2GeneratorAmount::new([3, 0]) });
    assert!(zone.get_gen(5).is_none());
    zone.update_generators_lookup();
    assert_eq!(zone.get_gen(5).unwrap().get_u16(), 3);
    assert_eq!(zone.get_gen(6).unwrap().get_u16(), 2);
    assert!(zone.get_gen(7).is_none());
    zone.generators.clear();
    zone.update_generators_lookup();
    assert_eq!(zone.get_gen(6).unwrap().get_u16(), 2);
}

#[test]
fn conversion_carries_nothing_over_yet() {
    let bank = SF2::new(&file_of(&small_parts())).unwrap();
    let own = bank.to_wsbk();
    assert!(own.samples.is_empty());
    assert!(own.instruments.is_empty());
    assert!(own.presets.is_empty());
}
