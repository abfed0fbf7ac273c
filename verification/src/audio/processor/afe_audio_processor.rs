//! The decisions of the front end that runs voice processing: the layout of
//! its input, what it reports when the speaker starts or stops talking, and
//! what it does with each block that the processing hands back.

use vstd::prelude::*;

verus! {

/// What the voice-activity detector says of one block.
#[derive(Copy, Clone, Debug, PartialEq, Eq, Structural)]
pub enum VadState {
    Silence,
    Speech,
    /// Any other report of the detector.
    Unknown,
}

/// What to do when echo cancellation is switched.
#[derive(Copy, Clone, Debug, PartialEq, Eq, Structural)]
pub enum AecAction {
    /// Switch voice-activity detection off and echo cancellation on.
    EnableAec,
    /// Switch echo cancellation off and voice-activity detection on.
    EnableVad,
    /// Echo cancellation was asked for on a device that has none: report
    /// it and change nothing.
    Unsupported,
}

/// What to do with one block that the processing handed back.
#[derive(Copy, Clone, Debug, PartialEq, Eq, Structural)]
pub struct FetchOutcome {
    /// The change of voice activity to report: `Some(true)` when speech
    /// begins, `Some(false)` when it ends.
    pub vad_event: Option<bool>,
    /// Whether the block's samples go out as a frame.
    pub emit: bool,
}

/// The running state that the processing task and the control thread share.
#[derive(Copy, Clone, Debug, PartialEq, Eq, Structural)]
pub struct ProcessorState {
    pub is_running: bool,
    pub is_speaking: bool,
}

/// The number of microphone channels among `input_channels` channels of
/// which `reference_channels` carry the playback reference.
pub open spec fn microphone_channels(input_channels: usize, reference_channels: usize) -> nat {
    if input_channels >= reference_channels {
        (input_channels - reference_channels) as nat
    } else {
        0
    }
}

/// The input layout: an `M` for every microphone channel, then an `R` for
/// every reference channel.
pub open spec fn spec_input_format(input_channels: usize, input_reference: bool) -> Seq<char> {
    let refs: usize = if input_reference {
        1
    } else {
        0
    };
    Seq::new(microphone_channels(input_channels, refs), |i: int| 'M') + Seq::new(
        refs as nat,
        |i: int| 'R',
    )
}

/// The change of voice activity that a block with `vad_state` amounts to
/// for a speaker who was talking (`is_speaking`) or not.
pub open spec fn spec_vad_event(is_speaking: bool, vad_state: VadState) -> Option<bool> {
    if vad_state == VadState::Speech && !is_speaking {
        Some(true)
    } else if vad_state == VadState::Silence && is_speaking {
        Some(false)
    } else {
        None
    }
}

/// The layout string for a codec with `input_channels` input channels, one
/// of which is the playback reference if `input_reference` is set.
pub fn input_format(input_channels: usize, input_reference: bool) -> (format: String)
    ensures
        format@ == spec_input_format(input_channels, input_reference),
{
    let refs: usize = if input_reference {
        1
    } else {
        0
    };
    let mics: usize = if input_channels >= refs {
        input_channels - refs
    } else {
        0
    };
    let mut format = String::new();
    let mut i: usize = 0;
    proof {
        reveal_strlit("M");
        reveal_strlit("R");
    }
    while i < mics
        invariant
            i <= mics,
            "M"@ == seq!['M'],
            format@ == Seq::new(i as nat, |k: int| 'M'),
        decreases mics - i,
    {
        format.append("M");
        assert(format@ =~= Seq::new((i + 1) as nat, |k: int| 'M'));
        i += 1;
    }
    if input_reference {
        format.append("R");
    }
    assert(format@ =~= spec_input_format(input_channels, input_reference));
    format
}

/// The number of samples to feed at once: the processing's chunk size for
/// one channel, times the channels. `None` if that does not fit.
pub fn feed_size(chunk_size: usize, input_channels: usize) -> (size: Option<usize>)
    ensures
        size is Some <==> chunk_size * input_channels <= usize::MAX,
        size matches Some(n) ==> n == chunk_size * input_channels,
{
    chunk_size.checked_mul(input_channels)
}

/// What switching echo cancellation to `enable` takes on a device that has
/// it (`supported`) or not.
pub fn aec_action(enable: bool, supported: bool) -> (action: AecAction)
    ensures
        action == if !enable {
            AecAction::EnableVad
        } else if supported {
            AecAction::EnableAec
        } else {
            AecAction::Unsupported
        },
{
    if enable {
        if supported {
            AecAction::EnableAec
        } else {
            AecAction::Unsupported
        }
    } else {
        AecAction::EnableVad
    }
}

impl ProcessorState {
    /// The state of a front end that was just set up: not running, nobody
    /// speaking.
    pub fn new() -> (state: Self)
        ensures
            state == (ProcessorState { is_running: false, is_speaking: false }),
    {
        ProcessorState { is_running: false, is_speaking: false }
    }

    /// What becomes of one block that the processing handed back. A block
    /// that arrives while the front end is stopped, or that the processing
    /// marked as failed (`fetched` is false), is dropped without a trace.
    /// Otherwise a change of voice activity is noted and reported, and the
    /// samples go out.
    pub fn on_fetch(&mut self, fetched: bool, vad_state: VadState) -> (outcome: FetchOutcome)
        ensures
            final(self).is_running == old(self).is_running,
            !(old(self).is_running && fetched) ==> *final(self) == *old(self) && outcome == (
            FetchOutcome { vad_event: None, emit: false }),
            old(self).is_running && fetched ==> {
                &&& outcome.emit
                &&& outcome.vad_event == spec_vad_event(old(self).is_speaking, vad_state)
                &&& final(self).is_speaking == match outcome.vad_event {
                    Some(speaking) => speaking,
                    None => old(self).is_speaking,
                }
            },
    {
        if !self.is_running || !fetched {
            return FetchOutcome { vad_event: None, emit: false };
        }
        let mut vad_event: Option<bool> = None;
        if vad_state == VadState::Speech && !self.is_speaking {
            self.is_speaking = true;
            vad_event = Some(true);
        } else if vad_state == VadState::Silence && self.is_speaking {
            self.is_speaking = false;
            vad_event = Some(false);
        }
        FetchOutcome { vad_event, emit: true }
    }
}

} // verus!
