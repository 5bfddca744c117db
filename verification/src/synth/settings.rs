//! Settings of the synthesizer.

use vstd::prelude::*;

verus! {

/// Settings that are fixed when a synthesizer is made.
pub struct SynthCreateSettings {
    pub(crate) max_worker_threads: usize,
    pub(crate) min_note_length: i32,
    pub(crate) polyphony: usize,
    pub(crate) render_buffer_size: usize,
}

/// `val` held between `lo` and `hi`.
pub open spec fn clamp(val: int, lo: int, hi: int) -> int {
    if val < lo {
        lo
    } else if val > hi {
        hi
    } else {
        val
    }
}

impl Default for SynthCreateSettings {
    fn default() -> (res: Self)
        ensures
            res.is_default(),
    {
        Self { max_worker_threads: 1, min_note_length: 10, polyphony: 384, render_buffer_size: 128 }
    }
}

impl SynthCreateSettings {
    pub closed spec fn spec_max_worker_threads(&self) -> usize {
        self.max_worker_threads
    }

    pub closed spec fn spec_min_note_length(&self) -> i32 {
        self.min_note_length
    }

    pub closed spec fn spec_polyphony(&self) -> usize {
        self.polyphony
    }

    pub closed spec fn spec_render_buffer_size(&self) -> usize {
        self.render_buffer_size
    }

    /// One worker thread, notes of at least 10 ms, 384 voices, render buffers
    /// of 128 samples.
    pub open spec fn is_default(&self) -> bool {
        &&& self.max_worker_threads() == 1
        &&& self.min_note_length() == 10
        &&& self.polyphony() == 384
        &&& self.render_buffer_size() == 128
    }

    /// The default settings.
    pub fn new() -> (res: Self)
        ensures
            res.is_default(),
    {
        Self { max_worker_threads: 1, min_note_length: 10, polyphony: 384, render_buffer_size: 128 }
    }

    /// Sets the number of worker threads, which is at least one.
    pub fn set_max_worker_threads(&mut self, val: usize)
        ensures
            final(self).max_worker_threads() == (if val < 1 { 1 } else { val }),
            final(self).min_note_length() == old(self).min_note_length(),
            final(self).polyphony() == old(self).polyphony(),
            final(self).render_buffer_size() == old(self).render_buffer_size(),
    {
        self.max_worker_threads = if val < 1 { 1 } else { val };
    }

    /// Sets the shortest note length in milliseconds, held in `1..=65535`.
    pub fn set_min_note_length(&mut self, val: i32)
        ensures
            final(self).min_note_length() == clamp(val as int, 1, 65535),
            final(self).max_worker_threads() == old(self).max_worker_threads(),
            final(self).polyphony() == old(self).polyphony(),
            final(self).render_buffer_size() == old(self).render_buffer_size(),
    {
        self.min_note_length = if val < 1 { 1 } else if val > 65535 { 65535 } else { val };
    }

    /// Sets the number of simultaneous voices, held in `1..=65535`.
    pub fn set_polyphony(&mut self, val: usize)
        ensures
            final(self).polyphony() == clamp(val as int, 1, 65535),
            final(self).max_worker_threads() == old(self).max_worker_threads(),
            final(self).min_note_length() == old(self).min_note_length(),
            final(self).render_buffer_size() == old(self).render_buffer_size(),
    {
        self.polyphony = if val < 1 { 1 } else if val > 65535 { 65535 } else { val };
    }

    /// Sets the number of samples rendered at once, held in `1..=2048`.
    pub fn set_render_buffer_size(&mut self, val: usize)
        ensures
            final(self).render_buffer_size() == clamp(val as int, 1, 2048),
            final(self).max_worker_threads() == old(self).max_worker_threads(),
            final(self).min_note_length() == old(self).min_note_length(),
            final(self).polyphony() == old(self).polyphony(),
    {
        self.render_buffer_size = if val < 1 { 1 } else if val > 2048 { 2048 } else { val };
    }

    #[verifier::when_used_as_spec(spec_max_worker_threads)]
    pub fn max_worker_threads(&self) -> (res: usize)
        ensures
            res == self.max_worker_threads(),
    {
        self.max_worker_threads
    }

    #[verifier::when_used_as_spec(spec_min_note_length)]
    pub fn min_note_length(&self) -> (res: i32)
        ensures
            res == self.min_note_length(),
    {
        self.min_note_length
    }

    #[verifier::when_used_as_spec(spec_polyphony)]
    pub fn polyphony(&self) -> (res: usize)
        ensures
            res == self.polyphony(),
    {
        self.polyphony
    }

    #[verifier::when_used_as_spec(spec_render_buffer_size)]
    pub fn render_buffer_size(&self) -> (res: usize)
        ensures
            res == self.render_buffer_size(),
    {
        self.render_buffer_size
    }
}

/// The highest device identifier of a synthesizer. The next one, 127, means
/// every device.
pub const MAX_DEVICE_ID: u8 = 126;

/// A device identifier held in `0..=126`.
pub fn clamp_device_id(id: u8) -> (res: u8)
    ensures
        res == clamp(id as int, 0, 126),
{
    if id > MAX_DEVICE_ID {
        MAX_DEVICE_ID
    } else {
        id
    }
}

/// A clamped setting lies in its range, and a value in the range is kept.
pub proof fn lemma_clamp_in_range(val: int, lo: int, hi: int)
    requires
        lo <= hi,
    ensures
        lo <= clamp(val, lo, hi) <= hi,
        lo <= val <= hi ==> clamp(val, lo, hi) == val,
{
}

} // verus!
