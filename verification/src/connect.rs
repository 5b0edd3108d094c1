//! Connection parameters of a streaming session (`ChiakiConnectInfo`).

use vstd::prelude::*;

use crate::common::Codec;
use crate::cstr::{check_c_string, chars_have_nul, has_nul, nul_index, NulError};
use vstd::string::StringSliceAdditionalSpecFns;

verus! {

/// Resolution, frame rate, bitrate (kbit/s) and codec of the video stream
/// (`ChiakiConnectVideoProfile`).
#[derive(Debug, Clone, Copy, PartialEq, Eq, Structural)]
pub struct VideoProfile {
    pub width: u32,
    pub height: u32,
    pub max_fps: u32,
    pub bitrate: u32,
    pub codec: Codec,
}

/// A `ChiakiDisableAudioVideo` value, carried as its raw number.
#[derive(Debug, Clone, Copy, PartialEq, Eq, Structural)]
pub struct DisableAudioVideo(pub u32);

/// The connection parameters of a session, owning the host name.
pub struct ConnectInfo {
    host: String,
    regist_key: [u8; 16],
    ps5: bool,
    video_profile: VideoProfile,
    psn_account_id: [u8; 8],
    morning: [u8; 16],
    video_profile_auto_downgrade: bool,
    enable_keyboard: bool,
    enable_dualsense: bool,
    auto_regist: bool,
    enable_idr_on_fec_failure: bool,
    audio_video_disabled: DisableAudioVideo,
}

/// What a set of connection parameters says.
pub struct ConnectInfoView {
    pub host: Seq<char>,
    pub regist_key: Seq<u8>,
    pub ps5: bool,
    pub video_profile: VideoProfile,
    pub psn_account_id: Seq<u8>,
    pub morning: Seq<u8>,
    pub video_profile_auto_downgrade: bool,
    pub enable_keyboard: bool,
    pub enable_dualsense: bool,
    pub auto_regist: bool,
    pub enable_idr_on_fec_failure: bool,
    pub audio_video_disabled: DisableAudioVideo,
}

impl ConnectInfoView {
    /// These parameters with the whole video profile replaced.
    pub open spec fn with_video_profile(self, profile: VideoProfile) -> Self {
        ConnectInfoView { video_profile: profile, ..self }
    }

    /// These parameters with only the codec of the video profile replaced.
    pub open spec fn with_codec(self, codec: Codec) -> Self {
        ConnectInfoView { video_profile: VideoProfile { codec, ..self.video_profile }, ..self }
    }

    /// These parameters with only the bitrate of the video profile replaced.
    pub open spec fn with_bitrate(self, bitrate: u32) -> Self {
        ConnectInfoView { video_profile: VideoProfile { bitrate, ..self.video_profile }, ..self }
    }
}

impl View for ConnectInfo {
    type V = ConnectInfoView;

    closed spec fn view(&self) -> ConnectInfoView {
        ConnectInfoView {
            host: self.host@,
            regist_key: self.regist_key@,
            ps5: self.ps5,
            video_profile: self.video_profile,
            psn_account_id: self.psn_account_id@,
            morning: self.morning@,
            video_profile_auto_downgrade: self.video_profile_auto_downgrade,
            enable_keyboard: self.enable_keyboard,
            enable_dualsense: self.enable_dualsense,
            auto_regist: self.auto_regist,
            enable_idr_on_fec_failure: self.enable_idr_on_fec_failure,
            audio_video_disabled: self.audio_video_disabled,
        }
    }
}

/// The parameters `ConnectInfo::new` starts from: the given host, key,
/// console kind and video profile; every other field zero or off.
pub open spec fn initial_connect_info(
    host: Seq<char>,
    regist_key: Seq<u8>,
    ps5: bool,
    profile: VideoProfile,
) -> ConnectInfoView {
    ConnectInfoView {
        host,
        regist_key,
        ps5,
        video_profile: profile,
        psn_account_id: Seq::new(8, |i: int| 0u8),
        morning: Seq::new(16, |i: int| 0u8),
        video_profile_auto_downgrade: false,
        enable_keyboard: false,
        enable_dualsense: false,
        auto_regist: false,
        enable_idr_on_fec_failure: false,
        audio_video_disabled: DisableAudioVideo(0),
    }
}

impl ConnectInfo {
    /// The host is always a valid C string.
    #[verifier::type_invariant]
    spec fn host_is_c_string(self) -> bool {
        !chars_have_nul(self.host@)
    }

    /// Connection parameters for `host` with the registration key, on a PS4 or
    /// a PS5. The video profile starts as `profile` (the bindings pass chiaki's
    /// 720p / 30 fps preset); everything else starts zero or off. A host that
    /// cannot be a C string is refused.
    pub fn new(host: &str, regist_key: &[u8; 16], ps5: bool, profile: VideoProfile) -> (r: Result<
        Self,
        NulError,
    >)
        ensures
            r is Ok <==> !has_nul(host),
            r matches Err(e) ==> e.nul_position == nul_index(host.spec_bytes()),
            r matches Ok(c) ==> c@ == initial_connect_info(host@, regist_key@, ps5, profile),
            r matches Ok(c) ==> c@.host == host@,
            r matches Ok(c) ==> c@.regist_key == regist_key@,
            r matches Ok(c) ==> c@.ps5 == ps5,
            r matches Ok(c) ==> c@.video_profile == profile,
            r matches Ok(c) ==> c@.psn_account_id == Seq::new(8, |i: int| 0u8),
            r matches Ok(c) ==> c@.morning == Seq::new(16, |i: int| 0u8),
            r matches Ok(c) ==> !c@.video_profile_auto_downgrade,
            r matches Ok(c) ==> !c@.enable_keyboard,
            r matches Ok(c) ==> !c@.enable_dualsense,
            r matches Ok(c) ==> !c@.auto_regist,
            r matches Ok(c) ==> !c@.enable_idr_on_fec_failure,
            r matches Ok(c) ==> c@.audio_video_disabled == DisableAudioVideo(0),
    {
        match check_c_string(host) {
            Err(e) => Err(e),
            Ok(()) => {
                let c = ConnectInfo {
                    host: host.to_owned(),
                    regist_key: *regist_key,
                    ps5,
                    video_profile: profile,
                    psn_account_id: [0u8; 8],
                    morning: [0u8; 16],
                    video_profile_auto_downgrade: false,
                    enable_keyboard: false,
                    enable_dualsense: false,
                    auto_regist: false,
                    enable_idr_on_fec_failure: false,
                    audio_video_disabled: DisableAudioVideo(0),
                };
                assert(c@.psn_account_id =~= Seq::new(8, |i: int| 0u8));
                assert(c@.morning =~= Seq::new(16, |i: int| 0u8));
                Ok(c)
            },
        }
    }

    /// Replaces the whole video profile (as chiaki's resolution / frame-rate
    /// presets produce it).
    pub fn set_video_profile(&mut self, profile: VideoProfile)
        ensures
            final(self)@ == old(self)@.with_video_profile(profile),
            final(self)@.video_profile == profile,
            final(self)@.host == old(self)@.host,
    {
        proof {
            use_type_invariant(&*self);
        }
        self.video_profile = profile;
    }

    /// Sets the codec, keeping the rest of the video profile.
    pub fn set_video_codec(&mut self, codec: Codec)
        ensures
            final(self)@ == old(self)@.with_codec(codec),
            final(self)@.video_profile.codec == codec,
            final(self)@.video_profile.bitrate == old(self)@.video_profile.bitrate,
            final(self)@.video_profile.width == old(self)@.video_profile.width,
            final(self)@.video_profile.height == old(self)@.video_profile.height,
            final(self)@.video_profile.max_fps == old(self)@.video_profile.max_fps,
    {
        proof {
            use_type_invariant(&*self);
        }
        self.video_profile.codec = codec;
    }

    /// Sets the bitrate (kbit/s), keeping the rest of the video profile; it
    /// overrides what a preset chose.
    pub fn set_bitrate(&mut self, bitrate: u32)
        ensures
            final(self)@ == old(self)@.with_bitrate(bitrate),
            final(self)@.video_profile.bitrate == bitrate,
            final(self)@.video_profile.codec == old(self)@.video_profile.codec,
            final(self)@.video_profile.width == old(self)@.video_profile.width,
            final(self)@.video_profile.height == old(self)@.video_profile.height,
            final(self)@.video_profile.max_fps == old(self)@.video_profile.max_fps,
    {
        proof {
            use_type_invariant(&*self);
        }
        self.video_profile.bitrate = bitrate;
    }

    /// The bitrate (kbit/s) of the current video profile.
    pub fn bitrate(&self) -> (b: u32)
        ensures
            b == self@.video_profile.bitrate,
    {
        self.video_profile.bitrate
    }

    /// Sets a custom video profile.
    pub fn set_video_custom(&mut self, width: u32, height: u32, max_fps: u32, bitrate: u32, codec: Codec)
        ensures
            final(self)@ == old(self)@.with_video_profile(
                VideoProfile { width, height, max_fps, bitrate, codec },
            ),
    {
        proof {
            use_type_invariant(&*self);
        }
        self.video_profile = VideoProfile { width, height, max_fps, bitrate, codec };
    }

    /// Sets the PSN account id.
    pub fn set_psn_account_id(&mut self, id: &[u8; 8])
        ensures
            final(self)@ == (ConnectInfoView { psn_account_id: id@, ..old(self)@ }),
    {
        proof {
            use_type_invariant(&*self);
        }
        self.psn_account_id = *id;
    }

    /// Sets the morning key.
    pub fn set_morning(&mut self, morning: &[u8; 16])
        ensures
            final(self)@ == (ConnectInfoView { morning: morning@, ..old(self)@ }),
    {
        proof {
            use_type_invariant(&*self);
        }
        self.morning = *morning;
    }

    /// Lets chiaki lower the video profile when the console asks for it.
    pub fn set_auto_downgrade(&mut self, v: bool)
        ensures
            final(self)@ == (ConnectInfoView { video_profile_auto_downgrade: v, ..old(self)@ }),
    {
        proof {
            use_type_invariant(&*self);
        }
        self.video_profile_auto_downgrade = v;
    }

    /// Enables the on-screen keyboard events.
    pub fn set_enable_keyboard(&mut self, v: bool)
        ensures
            final(self)@ == (ConnectInfoView { enable_keyboard: v, ..old(self)@ }),
    {
        proof {
            use_type_invariant(&*self);
        }
        self.enable_keyboard = v;
    }

    /// Enables DualSense features (haptics, trigger effects).
    pub fn set_enable_dualsense(&mut self, v: bool)
        ensures
            final(self)@ == (ConnectInfoView { enable_dualsense: v, ..old(self)@ }),
    {
        proof {
            use_type_invariant(&*self);
        }
        self.enable_dualsense = v;
    }

    /// Lets the session register with the console on its own.
    pub fn set_auto_regist(&mut self, v: bool)
        ensures
            final(self)@ == (ConnectInfoView { auto_regist: v, ..old(self)@ }),
    {
        proof {
            use_type_invariant(&*self);
        }
        self.auto_regist = v;
    }

    /// Requests a key frame whenever error correction fails.
    pub fn set_enable_idr_on_fec_failure(&mut self, v: bool)
        ensures
            final(self)@ == (ConnectInfoView { enable_idr_on_fec_failure: v, ..old(self)@ }),
    {
        proof {
            use_type_invariant(&*self);
        }
        self.enable_idr_on_fec_failure = v;
    }

    /// Chooses which of audio and video are disabled.
    pub fn set_audio_video_disabled(&mut self, v: DisableAudioVideo)
        ensures
            final(self)@ == (ConnectInfoView { audio_video_disabled: v, ..old(self)@ }),
    {
        proof {
            use_type_invariant(&*self);
        }
        self.audio_video_disabled = v;
    }

    /// The host to connect to.
    pub fn host(&self) -> (h: &str)
        ensures
            h@ == self@.host,
            !has_nul(h),
    {
        proof {
            use_type_invariant(self);
        }
        self.host.as_str()
    }

    /// The registration key.
    pub fn regist_key(&self) -> (k: [u8; 16])
        ensures
            k@ == self@.regist_key,
    {
        self.regist_key
    }

    /// Whether the console is a PS5.
    pub fn ps5(&self) -> (b: bool)
        ensures
            b == self@.ps5,
    {
        self.ps5
    }

    /// The video profile.
    pub fn video_profile(&self) -> (p: VideoProfile)
        ensures
            p == self@.video_profile,
    {
        self.video_profile
    }

    /// The PSN account id.
    pub fn psn_account_id(&self) -> (id: [u8; 8])
        ensures
            id@ == self@.psn_account_id,
    {
        self.psn_account_id
    }

    /// The morning key.
    pub fn morning(&self) -> (m: [u8; 16])
        ensures
            m@ == self@.morning,
    {
        self.morning
    }

    /// Whether chiaki may lower the video profile.
    pub fn auto_downgrade(&self) -> (b: bool)
        ensures
            b == self@.video_profile_auto_downgrade,
    {
        self.video_profile_auto_downgrade
    }

    /// Whether keyboard events are enabled.
    pub fn enable_keyboard(&self) -> (b: bool)
        ensures
            b == self@.enable_keyboard,
    {
        self.enable_keyboard
    }

    /// Whether DualSense features are enabled.
    pub fn enable_dualsense(&self) -> (b: bool)
        ensures
            b == self@.enable_dualsense,
    {
        self.enable_dualsense
    }

    /// Whether the session registers on its own.
    pub fn auto_regist(&self) -> (b: bool)
        ensures
            b == self@.auto_regist,
    {
        self.auto_regist
    }

    /// Whether a key frame is requested when error correction fails.
    pub fn enable_idr_on_fec_failure(&self) -> (b: bool)
        ensures
            b == self@.enable_idr_on_fec_failure,
    {
        self.enable_idr_on_fec_failure
    }

    /// Which of audio and video are disabled.
    pub fn audio_video_disabled(&self) -> (v: DisableAudioVideo)
        ensures
            v == self@.audio_video_disabled,
    {
        self.audio_video_disabled
    }
}

/// A bitrate set after a preset overrides the preset's bitrate and keeps the
/// rest of the preset: what `bitrate` reads back is the value set.
pub proof fn law_bitrate_overrides_preset(info: ConnectInfoView, preset: VideoProfile, bitrate: u32)
    ensures
        info.with_video_profile(preset).with_bitrate(bitrate).video_profile.bitrate == bitrate,
        info.with_video_profile(preset).with_bitrate(bitrate).video_profile == (VideoProfile {
            bitrate,
            ..preset
        }),
        info.with_video_profile(preset).with_bitrate(bitrate).host == info.host,
{
}

/// Choosing a preset afterwards replaces a bitrate or codec set before it.
pub proof fn law_preset_replaces_overrides(info: ConnectInfoView, preset: VideoProfile, bitrate: u32, codec: Codec)
    ensures
        info.with_bitrate(bitrate).with_codec(codec).with_video_profile(preset).video_profile == preset,
{
}

/// Fresh connection parameters hold the given host, key, console kind and
/// video profile, and nothing else: no PSN account id or morning key, every
/// option off, and neither audio nor video disabled.
pub proof fn law_fresh_connect_info_defaults(host: Seq<char>, regist_key: Seq<u8>, ps5: bool, profile: VideoProfile)
    ensures
        ({
            let c = initial_connect_info(host, regist_key, ps5, profile);
            &&& c.host == host
            &&& c.regist_key == regist_key
            &&& c.ps5 == ps5
            &&& c.video_profile == profile
            &&& c.psn_account_id == Seq::new(8, |i: int| 0u8)
            &&& c.morning == Seq::new(16, |i: int| 0u8)
            &&& !c.video_profile_auto_downgrade
            &&& !c.enable_keyboard
            &&& !c.enable_dualsense
            &&& !c.auto_regist
            &&& !c.enable_idr_on_fec_failure
            &&& c.audio_video_disabled == DisableAudioVideo(0)
        }),
{
}

} // verus!
