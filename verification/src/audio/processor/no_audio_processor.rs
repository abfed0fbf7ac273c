//! The front end that does nothing: what is fed in comes out unchanged.

use vstd::prelude::*;

use crate::audio::processor::audio_processor::AudioProcessor;

verus! {

/// The length of the slice of audio asked for with each feed, in
/// milliseconds.
pub const FEED_DURATION_MS: u32 = 30;

/// The pass-through front end.
pub struct NoAudioProcessor {
    input_sample_rate: u32,
    is_running: bool,
}

/// The number of samples in 30 ms at `sample_rate` samples per second.
pub open spec fn spec_feed_size(sample_rate: u32) -> int {
    30 * sample_rate / 1000
}

impl NoAudioProcessor {
    /// The sample rate of the input, in samples per second.
    pub closed spec fn spec_sample_rate(&self) -> u32 {
        self.input_sample_rate
    }

    /// Whether the front end is running.
    pub closed spec fn running(&self) -> bool {
        self.is_running
    }

    /// A front end for input at `sample_rate` samples per second. It is not
    /// running yet.
    pub fn new(sample_rate: u32) -> (processor: Self)
        ensures
            processor.spec_sample_rate() == sample_rate,
            !processor.running(),
    {
        NoAudioProcessor { input_sample_rate: sample_rate, is_running: false }
    }

    /// The sample rate of the input, in samples per second.
    pub fn sample_rate(&self) -> (sample_rate: u32)
        ensures
            sample_rate == self.spec_sample_rate(),
    {
        self.input_sample_rate
    }
}

impl AudioProcessor for NoAudioProcessor {
    /// There is nothing to prepare: nothing changes.
    fn initialize(&mut self)
        ensures
            final(self).spec_sample_rate() == old(self).spec_sample_rate(),
            final(self).running() == old(self).running(),
    {
    }

    /// While running, hands the samples fed in straight out again. A front
    /// end that is not running emits nothing.
    fn feed(&mut self, data: &[i16]) -> (frame: Option<Vec<i16>>)
        ensures
            final(self).spec_sample_rate() == old(self).spec_sample_rate(),
            final(self).running() == old(self).running(),
            old(self).running() ==> (frame matches Some(samples) && samples@ == data@),
            !old(self).running() ==> frame is None,
    {
        if !self.is_running {
            return None;
        }
        let mut samples: Vec<i16> = Vec::new();
        let mut i: usize = 0;
        while i < data.len()
            invariant
                i <= data.len(),
                samples@ == data@.take(i as int),
            decreases data.len() - i,
        {
            samples.push(data[i]);
            assert(samples@ =~= data@.take(i as int + 1));
            i += 1;
        }
        assert(data@.take(i as int) =~= data@);
        Some(samples)
    }

    fn start(&mut self)
        ensures
            final(self).spec_sample_rate() == old(self).spec_sample_rate(),
            final(self).running(),
    {
        self.is_running = true;
    }

    fn stop(&mut self)
        ensures
            final(self).spec_sample_rate() == old(self).spec_sample_rate(),
            !final(self).running(),
    {
        self.is_running = false;
    }

    fn is_running(&self) -> (running: bool)
        ensures
            running == self.running(),
    {
        self.is_running
    }

    /// 30 ms worth of samples.
    fn get_feed_size(&self) -> (size: usize)
        ensures
            size == spec_feed_size(self.spec_sample_rate()),
    {
        let samples: u64 = 30u64 * (self.input_sample_rate as u64) / 1000u64;
        samples as usize
    }

    /// There is no echo cancellation to switch: nothing changes.
    fn enable_device_aec(&mut self, enable: bool)
        ensures
            final(self).spec_sample_rate() == old(self).spec_sample_rate(),
            final(self).running() == old(self).running(),
    {
        let _ = enable;
    }
}

} // verus!
