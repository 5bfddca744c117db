//! MIDI controllers and their values at rest.

pub mod cc_ids;
pub mod cc_ids_i;

use vstd::prelude::*;

verus! {

/// The value at rest of controller `no`: 100 for the channel volume, 127
/// for the expression, 20 for the reverb send level, 64 for the pan, for
/// the sound controllers 2 to 10 and for the high-pass cutoff, and 0 for
/// every other controller.
pub open spec fn initial_cc_value(no: int) -> u8 {
    if no == cc_ids_i::CHANNEL_VOLUME {
        100
    } else if no == cc_ids_i::EXPRESSION {
        127
    } else if no == cc_ids_i::REVERB_SEND_LEVEL {
        20
    } else if no == cc_ids_i::PAN || (cc_ids_i::SOUND_CONTROLLER_2 <= no
        <= cc_ids_i::SOUND_CONTROLLER_10) || no == cc_ids_i::HPF_CUTOFF_FREQUENCY {
        64
    } else {
        0
    }
}

/// The values at rest of all 128 controllers.
pub fn get_initial_cc() -> (cc_values: [u8; 128])
    ensures
        forall|no: int| 0 <= no < 128 ==> #[trigger] cc_values@[no] == initial_cc_value(no),
{
    let mut cc_values: [u8; 128] = [0; 128];
    cc_values[cc_ids_i::CHANNEL_VOLUME] = 100;
    cc_values[cc_ids_i::PAN] = 64;
    cc_values[cc_ids_i::EXPRESSION] = 127;
    cc_values[cc_ids_i::TIMBRE_HARMONIC_INTENS] = 64;
    cc_values[cc_ids_i::RELEASE_TIME] = 64;
    cc_values[cc_ids_i::ATTACK_TIME] = 64;
    cc_values[cc_ids_i::LPF_CUTOFF_FREQUENCY] = 64;
    cc_values[cc_ids_i::DECAY_TIME] = 64;
    cc_values[cc_ids_i::VIBRATO_RATE] = 64;
    cc_values[cc_ids_i::VIBRATO_DEPTH] = 64;
    cc_values[cc_ids_i::VIBRATO_DELAY] = 64;
    cc_values[cc_ids_i::SUSTAIN_LEVEL] = 64;
    cc_values[cc_ids_i::HPF_CUTOFF_FREQUENCY] = 64;
    cc_values[cc_ids_i::REVERB_SEND_LEVEL] = 20;
    cc_values
}

} // verus!
