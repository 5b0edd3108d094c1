//! Holepunching for remote play over the internet: the PSN device list and
//! the results read back from a holepunch session.

use vstd::prelude::*;

use crate::cstr::{bytes_prefix, c_array_to_string, c_prefix, is_text_of};
use crate::error::{Error, ErrorCode};
use crate::session::is_c_text;

verus! {

/// Console kind of a PSN device (`ChiakiHolepunchConsoleType`).
#[derive(Debug, Clone, Copy, PartialEq, Eq, Structural)]
pub enum HolepunchConsoleType {
    Ps4,
    Ps5,
}

/// A `ChiakiHolepunchDeviceInfo` as chiaki lists it; the name is carried as
/// the raw bytes of its character array.
pub struct RawHolepunchDevice {
    pub console_type: HolepunchConsoleType,
    pub device_name: Vec<u8>,
    pub device_uid: [u8; 32],
    pub remoteplay_enabled: bool,
}

/// A device of the PSN account, owning its data.
#[derive(Debug, Clone)]
pub struct HolepunchDeviceInfo {
    pub console_type: HolepunchConsoleType,
    pub device_name: String,
    pub device_uid: [u8; 32],
    pub remoteplay_enabled: bool,
}

/// `info` is what `raw` reads as.
pub open spec fn device_info_of(raw: RawHolepunchDevice, info: HolepunchDeviceInfo) -> bool {
    &&& info.console_type == raw.console_type
    &&& is_c_text(raw.device_name@, info.device_name@)
    &&& info.device_uid@ == raw.device_uid@
    &&& info.remoteplay_enabled == raw.remoteplay_enabled
}

/// Reads one listed device.
pub fn parse_device_info(d: &RawHolepunchDevice) -> (info: HolepunchDeviceInfo)
    ensures
        device_info_of(*d, info),
        info.console_type == d.console_type,
        info.device_uid@ == d.device_uid@,
        info.remoteplay_enabled == d.remoteplay_enabled,
        is_text_of(c_prefix(d.device_name@), info.device_name@),
{
    HolepunchDeviceInfo {
        console_type: d.console_type,
        device_name: c_array_to_string(d.device_name.as_slice()),
        device_uid: d.device_uid,
        remoteplay_enabled: d.remoteplay_enabled,
    }
}

/// Reads the whole device list, in order.
pub fn parse_device_list(devices: &[RawHolepunchDevice]) -> (out: Vec<HolepunchDeviceInfo>)
    ensures
        out@.len() == devices@.len(),
        forall|i: int| 0 <= i < devices@.len() ==> device_info_of(#[trigger] devices@[i], out@[i]),
        forall|i: int|
            0 <= i < devices@.len() ==> (#[trigger] out@[i]).console_type == devices@[i].console_type
                && out@[i].device_uid@ == devices@[i].device_uid@ && out@[i].remoteplay_enabled
                == devices@[i].remoteplay_enabled,
{
    let mut out: Vec<HolepunchDeviceInfo> = Vec::new();
    let mut i: usize = 0;
    while i < devices.len()
        invariant
            i <= devices@.len(),
            out@.len() == i,
            forall|j: int| 0 <= j < i ==> device_info_of(#[trigger] devices@[j], out@[j]),
            forall|j: int|
                0 <= j < i ==> (#[trigger] out@[j]).console_type == devices@[j].console_type
                    && out@[j].device_uid@ == devices@[j].device_uid@ && out@[j].remoteplay_enabled
                    == devices@[j].remoteplay_enabled,
        decreases devices@.len() - i,
    {
        let info = parse_device_info(&devices[i]);
        out.push(info);
        i = i + 1;
    }
    out
}

/// A listed device keeps the console kind, UID and remote-play flag chiaki
/// reported for it: a PS4 stays a PS4.
pub proof fn law_device_keeps_reported_kind(d: RawHolepunchDevice, info: HolepunchDeviceInfo)
    requires
        device_info_of(d, info),
    ensures
        info.console_type == d.console_type,
        info.device_uid@ == d.device_uid@,
        info.remoteplay_enabled == d.remoteplay_enabled,
{
}

/// The client device UID chiaki wrote into `buf`, reporting `size` bytes:
/// the text of the first `size` bytes (at most the buffer).
pub fn device_uid_text(buf: &[u8], size: usize) -> (s: String)
    ensures
        is_text_of(c_prefix(buf@.take(if size < buf@.len() { size as int } else { buf@.len() as int })), s@),
{
    let n = if size < buf.len() {
        size
    } else {
        buf.len()
    };
    let written = bytes_prefix(buf, n);
    c_array_to_string(written.as_slice())
}

/// A handle chiaki may fail to give (a null pointer): its absence is an
/// `Unknown` error.
pub fn present_or_unknown<T>(v: Option<T>) -> (r: Result<T, Error>)
    ensures
        v is None <==> r is Err,
        r matches Err(e) ==> e.0 == ErrorCode::Unknown,
        v matches Some(x) ==> r == Ok::<T, Error>(x),
{
    match v {
        None => Err(Error(ErrorCode::Unknown)),
        Some(x) => Ok(x),
    }
}

/// The STUN allocation pattern chiaki found, as `(increment, random)`, when
/// it reports one.
pub fn stun_allocation_result(found: bool, increment: i32, random: bool) -> (r: Option<(i32, bool)>)
    ensures
        r is Some <==> found,
        found ==> r == Some((increment, random)),
{
    if found {
        Some((increment, random))
    } else {
        None
    }
}

} // verus!
