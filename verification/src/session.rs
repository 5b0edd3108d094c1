//! Session data: events, registered hosts, video samples and audio headers.

use vstd::prelude::*;

use crate::common::{DualSenseIntensity, QuitReason, Target};
use crate::cstr::{c_array_to_string, c_prefix, c_str_or_empty, is_text_of};
use crate::error::{Error, ErrorCode};

verus! {

/// A `ChiakiRegisteredHost` as chiaki fills it in: the character arrays are
/// carried as their raw bytes.
pub struct RawRegisteredHost {
    pub target: Target,
    pub ap_ssid: Vec<u8>,
    pub ap_bssid: Vec<u8>,
    pub ap_key: Vec<u8>,
    pub ap_name: Vec<u8>,
    pub server_mac: [u8; 6],
    pub server_nickname: Vec<u8>,
    pub rp_regist_key: [i8; 16],
    pub rp_key_type: u32,
    pub rp_key: [u8; 16],
    pub console_pin: u32,
}

/// The host data handed back by a successful registration.
#[derive(Debug, Clone)]
pub struct RegisteredHost {
    pub target: Target,
    pub ap_ssid: String,
    pub ap_bssid: String,
    pub ap_key: String,
    pub ap_name: String,
    pub server_mac: [u8; 6],
    pub server_nickname: String,
    pub rp_regist_key: [u8; 16],
    pub rp_key_type: u32,
    pub rp_key: [u8; 16],
    pub console_pin: u32,
}

/// `s` is the text of a character array field: the text of its bytes
/// before the first NUL.
pub open spec fn is_c_text(buf: Seq<u8>, s: Seq<char>) -> bool {
    is_text_of(c_prefix(buf), s)
}

/// `host` is what `raw` reads as: each character array becomes its text, the
/// registration key is reinterpreted byte for byte, the rest is copied.
pub open spec fn registered_host_of(raw: RawRegisteredHost, host: RegisteredHost) -> bool {
    &&& host.target == raw.target
    &&& is_c_text(raw.ap_ssid@, host.ap_ssid@)
    &&& is_c_text(raw.ap_bssid@, host.ap_bssid@)
    &&& is_c_text(raw.ap_key@, host.ap_key@)
    &&& is_c_text(raw.ap_name@, host.ap_name@)
    &&& host.server_mac@ == raw.server_mac@
    &&& is_c_text(raw.server_nickname@, host.server_nickname@)
    &&& forall|i: int| 0 <= i < 16 ==> #[trigger] host.rp_regist_key@[i] == (raw.rp_regist_key@[i] as u8)
    &&& host.rp_key_type == raw.rp_key_type
    &&& host.rp_key@ == raw.rp_key@
    &&& host.console_pin == raw.console_pin
}

/// Reinterprets C characters as bytes.
fn chars_to_bytes(key: &[i8; 16]) -> (out: [u8; 16])
    ensures
        forall|i: int| 0 <= i < 16 ==> #[trigger] out@[i] == (key@[i] as u8),
{
    let mut out = [0u8; 16];
    let mut i: usize = 0;
    while i < 16
        invariant
            i <= 16,
            forall|j: int| 0 <= j < i ==> #[trigger] out@[j] == (key@[j] as u8),
        decreases 16 - i,
    {
        out[i] = key[i] as u8;
        i = i + 1;
    }
    out
}

/// Reads a registered host out of the data chiaki filled in.
pub fn parse_registered_host(h: &RawRegisteredHost) -> (host: RegisteredHost)
    ensures
        registered_host_of(*h, host),
        host.target == h.target,
        is_text_of(c_prefix(h.ap_ssid@), host.ap_ssid@),
        is_text_of(c_prefix(h.ap_bssid@), host.ap_bssid@),
        is_text_of(c_prefix(h.ap_key@), host.ap_key@),
        is_text_of(c_prefix(h.ap_name@), host.ap_name@),
        host.server_mac@ == h.server_mac@,
        is_text_of(c_prefix(h.server_nickname@), host.server_nickname@),
        forall|i: int| 0 <= i < 16 ==> #[trigger] host.rp_regist_key@[i] == (h.rp_regist_key@[i] as u8),
        host.rp_key_type == h.rp_key_type,
        host.rp_key@ == h.rp_key@,
        host.console_pin == h.console_pin,
{
    RegisteredHost {
        target: h.target,
        ap_ssid: c_array_to_string(h.ap_ssid.as_slice()),
        ap_bssid: c_array_to_string(h.ap_bssid.as_slice()),
        ap_key: c_array_to_string(h.ap_key.as_slice()),
        ap_name: c_array_to_string(h.ap_name.as_slice()),
        server_mac: h.server_mac,
        server_nickname: c_array_to_string(h.server_nickname.as_slice()),
        rp_regist_key: chars_to_bytes(&h.rp_regist_key),
        rp_key_type: h.rp_key_type,
        rp_key: h.rp_key,
        console_pin: h.console_pin,
    }
}


/// A `ChiakiEvent` as chiaki delivers it, by event type. Character arrays are
/// carried as their raw bytes; C strings as their bytes, absent when null.
#[allow(inconsistent_fields)]
pub enum RawEvent {
    Connected,
    LoginPinRequest { pin_incorrect: bool },
    Holepunch { finished: bool },
    Regist(RawRegisteredHost),
    NicknameReceived(Vec<u8>),
    KeyboardOpen,
    KeyboardTextChange(Option<Vec<u8>>),
    KeyboardRemoteClose,
    Rumble { unknown: u8, left: u8, right: u8 },
    Quit { reason: QuitReason, reason_str: Option<Vec<u8>> },
    TriggerEffects { type_left: u8, type_right: u8, left: [u8; 10], right: [u8; 10] },
    MotionReset,
    LedColor([u8; 3]),
    PlayerIndex(u8),
    HapticIntensity(DualSenseIntensity),
    TriggerIntensity(DualSenseIntensity),
    VideoFecFailure { frame_index: i32, idr_request_sent: bool },
}

/// A session event, owning all its data.
#[derive(Debug, Clone)]
#[allow(inconsistent_fields)]
pub enum Event {
    Connected,
    LoginPinRequest { pin_incorrect: bool },
    Holepunch { finished: bool },
    Regist(RegisteredHost),
    NicknameReceived(String),
    KeyboardOpen,
    KeyboardTextChange(String),
    KeyboardRemoteClose,
    Rumble { unknown: u8, left: u8, right: u8 },
    Quit { reason: QuitReason, reason_str: String },
    TriggerEffects { type_left: u8, type_right: u8, left: [u8; 10], right: [u8; 10] },
    MotionReset,
    LedColor([u8; 3]),
    PlayerIndex(u8),
    HapticIntensity(DualSenseIntensity),
    TriggerIntensity(DualSenseIntensity),
    VideoFecFailure { frame_index: i32, idr_request_sent: bool },
}

/// `s` is the text of a C string that may be null: a null string reads as empty.
pub open spec fn is_c_str_text(p: Option<Vec<u8>>, s: Seq<char>) -> bool {
    match p {
        None => s == Seq::<char>::empty(),
        Some(b) => is_text_of(b@, s),
    }
}

/// `ev` is what `raw` reads as: the same event type and data, with character
/// arrays and C strings turned into text.
pub open spec fn event_of(raw: RawEvent, ev: Event) -> bool {
    match raw {
        RawEvent::Connected => ev is Connected,
        RawEvent::LoginPinRequest { pin_incorrect } => ev == (Event::LoginPinRequest { pin_incorrect }),
        RawEvent::Holepunch { finished } => ev == (Event::Holepunch { finished }),
        RawEvent::Regist(h) => ev matches Event::Regist(host) && registered_host_of(h, host),
        RawEvent::NicknameReceived(b) => ev matches Event::NicknameReceived(s) && is_c_text(b@, s@),
        RawEvent::KeyboardOpen => ev is KeyboardOpen,
        RawEvent::KeyboardTextChange(p) => ev matches Event::KeyboardTextChange(s) && is_c_str_text(p, s@),
        RawEvent::KeyboardRemoteClose => ev is KeyboardRemoteClose,
        RawEvent::Rumble { unknown, left, right } => ev == (Event::Rumble { unknown, left, right }),
        RawEvent::Quit { reason, reason_str } => ev matches Event::Quit { reason: r, reason_str: s }
            && r == reason && is_c_str_text(reason_str, s@),
        RawEvent::TriggerEffects { type_left, type_right, left, right } => ev == (Event::TriggerEffects {
            type_left,
            type_right,
            left,
            right,
        }),
        RawEvent::MotionReset => ev is MotionReset,
        RawEvent::LedColor(c) => ev == Event::LedColor(c),
        RawEvent::PlayerIndex(i) => ev == Event::PlayerIndex(i),
        RawEvent::HapticIntensity(i) => ev == Event::HapticIntensity(i),
        RawEvent::TriggerIntensity(i) => ev == Event::TriggerIntensity(i),
        RawEvent::VideoFecFailure { frame_index, idr_request_sent } => ev == (Event::VideoFecFailure {
            frame_index,
            idr_request_sent,
        }),
    }
}

/// Borrows the bytes of a C string that may be null.
fn as_bytes_opt(p: &Option<Vec<u8>>) -> (r: Option<&[u8]>)
    ensures
        p is None <==> r is None,
        p matches Some(v) ==> r matches Some(b) && b@ == v@,
{
    match p {
        None => None,
        Some(v) => Some(v.as_slice()),
    }
}

/// Reads a session event out of the data chiaki delivered.
pub fn parse_event(ev: &RawEvent) -> (out: Event)
    ensures
        event_of(*ev, out),
        *ev is Connected ==> out is Connected,
        *ev matches RawEvent::LoginPinRequest { pin_incorrect } ==> out == (Event::LoginPinRequest {
            pin_incorrect,
        }),
        *ev matches RawEvent::Holepunch { finished } ==> out == (Event::Holepunch { finished }),
        *ev is Regist ==> out is Regist,
        *ev is NicknameReceived ==> out is NicknameReceived,
        *ev is KeyboardOpen ==> out is KeyboardOpen,
        *ev is KeyboardTextChange ==> out is KeyboardTextChange,
        *ev is KeyboardRemoteClose ==> out is KeyboardRemoteClose,
        *ev matches RawEvent::Rumble { unknown, left, right } ==> out == (Event::Rumble { unknown, left, right }),
        *ev matches RawEvent::Quit { reason, .. } ==> out matches Event::Quit { reason: r, .. } && r == reason,
        *ev matches RawEvent::TriggerEffects { type_left, type_right, left, right } ==> out == (
        Event::TriggerEffects { type_left, type_right, left, right }),
        *ev is MotionReset ==> out is MotionReset,
        *ev matches RawEvent::LedColor(c) ==> out == Event::LedColor(c),
        *ev matches RawEvent::PlayerIndex(i) ==> out == Event::PlayerIndex(i),
        *ev matches RawEvent::HapticIntensity(i) ==> out == Event::HapticIntensity(i),
        *ev matches RawEvent::TriggerIntensity(i) ==> out == Event::TriggerIntensity(i),
        *ev matches RawEvent::VideoFecFailure { frame_index, idr_request_sent } ==> out == (
        Event::VideoFecFailure { frame_index, idr_request_sent }),
{
    match ev {
        RawEvent::Connected => Event::Connected,
        RawEvent::LoginPinRequest { pin_incorrect } => Event::LoginPinRequest {
            pin_incorrect: *pin_incorrect,
        },
        RawEvent::Holepunch { finished } => Event::Holepunch { finished: *finished },
        RawEvent::Regist(h) => Event::Regist(parse_registered_host(h)),
        RawEvent::NicknameReceived(b) => Event::NicknameReceived(c_array_to_string(b.as_slice())),
        RawEvent::KeyboardOpen => Event::KeyboardOpen,
        RawEvent::KeyboardTextChange(p) => Event::KeyboardTextChange(
            c_str_or_empty(as_bytes_opt(p)),
        ),
        RawEvent::KeyboardRemoteClose => Event::KeyboardRemoteClose,
        RawEvent::Rumble { unknown, left, right } => Event::Rumble {
            unknown: *unknown,
            left: *left,
            right: *right,
        },
        RawEvent::Quit { reason, reason_str } => Event::Quit {
            reason: *reason,
            reason_str: c_str_or_empty(as_bytes_opt(reason_str)),
        },
        RawEvent::TriggerEffects { type_left, type_right, left, right } => Event::TriggerEffects {
            type_left: *type_left,
            type_right: *type_right,
            left: *left,
            right: *right,
        },
        RawEvent::MotionReset => Event::MotionReset,
        RawEvent::LedColor(c) => Event::LedColor(*c),
        RawEvent::PlayerIndex(i) => Event::PlayerIndex(*i),
        RawEvent::HapticIntensity(i) => Event::HapticIntensity(*i),
        RawEvent::TriggerIntensity(i) => Event::TriggerIntensity(*i),
        RawEvent::VideoFecFailure { frame_index, idr_request_sent } => Event::VideoFecFailure {
            frame_index: *frame_index,
            idr_request_sent: *idr_request_sent,
        },
    }
}

/// One video frame as the video callback sees it; `data` is valid only
/// during the callback.
pub struct VideoSample<'a> {
    pub data: &'a mut [u8],
    pub frames_lost: i32,
    pub frame_recovered: bool,
}

/// Size in bytes of a serialised audio header.
pub const AUDIO_HEADER_SIZE: usize = 14;

/// Audio stream parameters (`ChiakiAudioHeader`).
#[derive(Debug, Clone, Copy, PartialEq, Eq, Structural)]
pub struct AudioHeader {
    pub channels: u8,
    pub bits: u8,
    pub rate: u32,
    pub frame_size: u32,
}

impl AudioHeader {
    /// Bytes of 16-bit PCM in one frame: samples per frame times channels times two.
    pub open spec fn spec_frame_bytes(self) -> int {
        self.frame_size * self.channels * 2
    }

    /// Interleaved samples in one frame: samples per frame times channels.
    pub open spec fn spec_pcm_samples(self) -> int {
        self.frame_size * self.channels
    }

    /// The header `chiaki_audio_header_set` produces: the four values as given.
    pub fn new(channels: u8, bits: u8, rate: u32, frame_size: u32) -> (h: Self)
        ensures
            h == (AudioHeader { channels, bits, rate, frame_size }),
    {
        AudioHeader { channels, bits, rate, frame_size }
    }

    /// The header with every field zero.
    pub open spec fn zeroed_spec() -> Self {
        AudioHeader { channels: 0, bits: 0, rate: 0, frame_size: 0 }
    }

    /// A header with every field zero, as a fresh codec holds before one is bound.
    pub fn zeroed() -> (h: Self)
        ensures
            h == Self::zeroed_spec(),
    {
        AudioHeader { channels: 0, bits: 0, rate: 0, frame_size: 0 }
    }

    /// Bytes of 16-bit PCM in one frame.
    pub fn frame_bytes(&self) -> (n: usize)
        requires
            self.spec_frame_bytes() <= usize::MAX,
        ensures
            n == self.spec_frame_bytes(),
    {
        proof {
            assert(self.frame_size * self.channels <= self.spec_frame_bytes()) by (nonlinear_arith)
                requires
                    self.spec_frame_bytes() == self.frame_size * self.channels * 2,
                    self.frame_size * self.channels >= 0,
            ;
        }
        self.frame_size as usize * self.channels as usize * 2
    }

    /// Whether a buffer of `len` bytes can hold a serialised header: chiaki
    /// reads and writes a fixed 14 bytes, so a shorter buffer is refused.
    pub fn check_buffer(len: usize) -> (r: Result<(), Error>)
        ensures
            r is Ok <==> len >= AUDIO_HEADER_SIZE,
            r matches Err(e) ==> e.0 == ErrorCode::BufTooSmall,
    {
        if len < AUDIO_HEADER_SIZE {
            Err(Error(ErrorCode::BufTooSmall))
        } else {
            Ok(())
        }
    }
}

/// Reading an event keeps its type and every plain field chiaki delivered:
/// the PIN-request flag, the holepunch flag, rumble strengths, the quit reason,
/// trigger effects, LED colour, player index, intensities and the FEC-failure
/// frame and flag come through unchanged.
pub proof fn law_event_keeps_type_and_fields(ev: RawEvent, out: Event)
    requires
        event_of(ev, out),
    ensures
        ev is Connected ==> out is Connected,
        ev matches RawEvent::LoginPinRequest { pin_incorrect } ==> out == (Event::LoginPinRequest {
            pin_incorrect,
        }),
        ev matches RawEvent::Holepunch { finished } ==> out == (Event::Holepunch { finished }),
        ev is Regist ==> out is Regist,
        ev is NicknameReceived ==> out is NicknameReceived,
        ev is KeyboardOpen ==> out is KeyboardOpen,
        ev is KeyboardTextChange ==> out is KeyboardTextChange,
        ev is KeyboardRemoteClose ==> out is KeyboardRemoteClose,
        ev matches RawEvent::Rumble { unknown, left, right } ==> out == (Event::Rumble { unknown, left, right }),
        ev matches RawEvent::Quit { reason, .. } ==> out matches Event::Quit { reason: r, .. } && r == reason,
        ev matches RawEvent::TriggerEffects { type_left, type_right, left, right } ==> out == (
        Event::TriggerEffects { type_left, type_right, left, right }),
        ev is MotionReset ==> out is MotionReset,
        ev matches RawEvent::LedColor(c) ==> out == Event::LedColor(c),
        ev matches RawEvent::PlayerIndex(i) ==> out == Event::PlayerIndex(i),
        ev matches RawEvent::HapticIntensity(i) ==> out == Event::HapticIntensity(i),
        ev matches RawEvent::TriggerIntensity(i) ==> out == Event::TriggerIntensity(i),
        ev matches RawEvent::VideoFecFailure { frame_index, idr_request_sent } ==> out == (
        Event::VideoFecFailure { frame_index, idr_request_sent }),
{
}

/// Whether a session's threads have been joined: `join` records a successful
/// join, and tearing the session down joins only when none succeeded.
pub struct JoinState {
    joined: bool,
}

impl View for JoinState {
    type V = bool;

    closed spec fn view(&self) -> bool {
        self.joined
    }
}

/// Whether a session is joined after a join attempt with outcome `r`.
pub open spec fn joined_after(joined: bool, r: Result<(), Error>) -> bool {
    joined || r is Ok
}

/// Whether tearing down a session in this join state joins its threads.
pub open spec fn joins_on_drop(joined: bool) -> bool {
    !joined
}

impl JoinState {
    /// A session that was never joined.
    pub fn new() -> (s: Self)
        ensures
            !s@,
    {
        JoinState { joined: false }
    }

    /// Records the outcome of a join: joined from now on if it succeeded.
    pub fn record_join(&mut self, r: Result<(), Error>)
        ensures
            final(self)@ == joined_after(old(self)@, r),
    {
        if r.is_ok() {
            self.joined = true;
        }
    }

    /// Whether tearing the session down must still join its threads.
    pub fn needs_join_on_drop(&self) -> (b: bool)
        ensures
            b == joins_on_drop(self@),
    {
        !self.joined
    }
}

/// A session whose join succeeded is not joined again when it is torn down,
/// whatever happened before; one never joined successfully is.
pub proof fn law_join_at_most_once(joined_before: bool, r: Result<(), Error>)
    ensures
        r is Ok ==> !joins_on_drop(joined_after(joined_before, r)),
        !joined_before && r is Err ==> joins_on_drop(joined_after(joined_before, r)),
        !joins_on_drop(joined_before) ==> !joins_on_drop(joined_after(joined_before, r)),
{
}

} // verus!
