//! The microphone encoder's audio parameters and the PCM length check that
//! guards every frame handed to chiaki's encoder.

use vstd::prelude::*;

use crate::error::{Error, ErrorCode};
use crate::session::AudioHeader;

verus! {

/// The state of a `ChiakiOpusEncoder` that the bindings read: the audio
/// header it is bound to (all zero until `header` binds one).
pub struct OpusEncoder {
    audio_header: AudioHeader,
}

impl View for OpusEncoder {
    type V = AudioHeader;

    closed spec fn view(&self) -> AudioHeader {
        self.audio_header
    }
}

impl OpusEncoder {
    /// A freshly initialised encoder: no header bound yet.
    pub fn new() -> (e: Self)
        ensures
            e@ == AudioHeader::zeroed_spec(),
    {
        OpusEncoder { audio_header: AudioHeader::zeroed() }
    }

    /// Records the header the encoder was bound to.
    pub fn bind_header(&mut self, header: AudioHeader)
        ensures
            final(self)@ == header,
    {
        self.audio_header = header;
    }

    /// PCM samples a frame must hold once a header is bound (frame size times
    /// channels); zero while none is bound.
    pub fn expected_pcm_len(&self) -> (n: usize)
        requires
            self@.spec_pcm_samples() <= usize::MAX,
        ensures
            n == self@.spec_pcm_samples(),
    {
        self.audio_header.frame_size as usize * self.audio_header.channels as usize
    }

    /// The audio parameters the encoder is bound to.
    pub fn audio_header(&self) -> (h: AudioHeader)
        ensures
            h == self@,
    {
        self.audio_header
    }

    /// Checks a PCM frame of `pcm_len` samples before it goes to the encoder,
    /// which reads exactly the expected number of samples: refused with
    /// `InvalidData` when no header is bound or the length differs.
    pub fn check_frame_len(&self, pcm_len: usize) -> (r: Result<(), Error>)
        requires
            self@.spec_pcm_samples() <= usize::MAX,
        ensures
            r is Ok <==> (self@.spec_pcm_samples() != 0 && pcm_len == self@.spec_pcm_samples()),
            r matches Err(e) ==> e.0 == ErrorCode::InvalidData,
    {
        let expected = self.expected_pcm_len();
        if expected == 0 || pcm_len != expected {
            Err(Error(ErrorCode::InvalidData))
        } else {
            Ok(())
        }
    }
}

/// What an encoder expects is read off the header it reports: the PCM
/// samples of a frame are frame size times channels, the frame's bytes are
/// twice that, and both fit in 64 bits for every header.
pub proof fn law_header_sizes(enc: OpusEncoder)
    ensures
        enc@.spec_pcm_samples() == enc@.frame_size * enc@.channels,
        enc@.spec_frame_bytes() == 2 * enc@.spec_pcm_samples(),
        0 <= enc@.spec_pcm_samples() <= 0xffff_ffff * 255,
        enc@.spec_frame_bytes() <= 0xffff_ffff * 255 * 2 < 0x1_0000_0000_0000_0000,
{
    let h = enc@;
    assert(0 <= h.frame_size * h.channels <= 0xffff_ffff * 255) by (nonlinear_arith)
        requires
            0 <= h.frame_size <= 0xffff_ffff,
            0 <= h.channels <= 255,
    ;
}

/// An encoder with no header bound refuses every frame: it expects no samples.
pub proof fn law_unbound_encoder_refuses_frames()
    ensures
        AudioHeader::zeroed_spec().spec_pcm_samples() == 0,
{
}

} // verus!
