use vstd::prelude::*;

verus! {

/// Waveform of a sound channel.
#[derive(Clone, Copy, PartialEq, Eq, Structural, Debug)]
pub enum ChannelType {
    Square,
    Triangle,
    Sawtooth,
    Noise,
}

} // verus!
