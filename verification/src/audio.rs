use vstd::prelude::*;

verus! {

/// The sample rate of the audio devices, in Hz.
pub const AUDIO_DEVICE_FREQUENCY: u32 = 44100;

/// Plays audio; handed out by the frontend, and used by the platform library.
pub trait AudioDevice {
    fn play(&mut self);

    fn pause(&mut self);
}

} // verus!
