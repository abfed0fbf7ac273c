//! What every front end offers to the capture loop.

use vstd::prelude::*;

verus! {

/// A front end between the microphone and the encoder. Samples are fed in;
/// frames come out, but only while the front end is running.
pub trait AudioProcessor {
    /// Prepares the front end for use.
    fn initialize(&mut self);

    /// Takes captured samples in. Returns the frame that they complete, if
    /// they complete one.
    fn feed(&mut self, data: &[i16]) -> Option<Vec<i16>>;

    fn start(&mut self);

    fn stop(&mut self);

    fn is_running(&self) -> bool;

    /// The number of samples that the front end wants with each `feed`;
    /// 0 if it wants none at the moment.
    fn get_feed_size(&self) -> usize;

    /// Switches echo cancellation on the device on or off.
    fn enable_device_aec(&mut self, enable: bool);
}

} // verus!
