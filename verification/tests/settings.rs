use whitesynth::synth::settings::SynthCreateSettings;
use whitesynth::util::midi::get_initial_cc;
use whitesynth::util::{unwrap_result_iter, VecIter};

#[test]
fn create_settings_start_with_defaults() {
    let settings = SynthCreateSettings::new();
    assert_eq!(settings.max_worker_threads(), 1);
    assert_eq!(settings.min_note_length(), 10);
    assert_eq!(settings.polyphony(), 384);
    assert_eq!(settings.render_buffer_size(), 128);
}

#[test]
fn create_settings_are_clamped() {
    let mut settings = SynthCreateSettings::new();
    settings.set_min_note_length(0);
    assert_eq!(settings.min_note_length(), 1);
    settings.set_min_note_length(70000);
    assert_eq!(settings.min_note_length(), 65535);
    settings.set_polyphony(0);
    assert_eq!(settings.polyphony(), 1);
    settings.set_polyphony(100000);
    assert_eq!(settings.polyphony(), 65535);
    settings.set_render_buffer_size(4096);
    assert_eq!(settings.render_buffer_size(), 2048);
    settings.set_render_buffer_size(0);
    assert_eq!(settings.render_buffer_size(), 1);
    settings.set_render_buffer_size(256);
    assert_eq!(settings.render_buffer_size(), 256);
}

#[test]
fn worker_threads_are_at_least_one() {
    let mut settings = SynthCreateSettings::new();
    settings.set_max_worker_threads(8);
    assert_eq!(settings.max_worker_threads(), 8);
    settings.set_max_worker_threads(0);
    assert_eq!(settings.max_worker_threads(), 1);
    settings.set_max_worker_threads(1);
    assert_eq!(settings.max_worker_threads(), 1);
    settings.set_max_worker_threads(usize::MAX);
    assert_eq!(settings.max_worker_threads(), usize::MAX);
    assert_eq!(settings.min_note_length(), 10);
    assert_eq!(settings.polyphony(), 384);
    assert_eq!(settings.render_buffer_size(), 128);
}

#[test]
fn initial_controllers() {
    let cc = get_initial_cc();
    assert_eq!(cc[7], 100);
    assert_eq!(cc[10], 64);
    assert_eq!(cc[11], 127);
    assert_eq!(cc[0x47], 64);
    assert_eq!(cc[0x4f], 64);
    assert_eq!(cc[0x50], 0);
    assert_eq!(cc[0x51], 64);
    assert_eq!(cc[0x5b], 20);
    assert_eq!(cc[0], 0);
    assert_eq!(cc[127], 0);
    assert_eq!(cc.iter().filter(|v| **v == 64).count(), 11);
}

#[test]
fn vec_iter_hands_out_from_the_front() {
    let mut it = VecIter::new(vec![1, 2, 3]);
    assert_eq!(it.next(), Some(1));
    assert_eq!(it.next(), Some(2));
    assert_eq!(it.next(), Some(3));
    assert_eq!(it.next(), None);
    assert_eq!(it.next(), None);
}

#[test]
fn unwrap_result_iter_collects_or_stops() {
    let good: Vec<Result<u8, String>> = vec![Ok(1), Ok(2)];
    let out = unwrap_result_iter(good.into_iter()).unwrap();
    assert_eq!(out.into_vec(), vec![1, 2]);
    let bad: Vec<Result<u8, String>> =
        vec![Ok(1), Err("first".to_string()), Ok(3), Err("second".to_string())];
    match unwrap_result_iter(bad.into_iter()) {
        Ok(_) => panic!("a failure was passed over"),
        Err(e) => assert_eq!(e, "first"),
    }
}
