//! Registration (pairing) with a console: its parameters and its outcome.

use vstd::prelude::*;

use crate::common::Target;
use crate::cstr::{check_c_string, chars_have_nul, has_nul, nul_index, NulError};
use crate::discovery::opt_view;
use crate::session::{parse_registered_host, registered_host_of, RawRegisteredHost, RegisteredHost};
use vstd::string::StringSliceAdditionalSpecFns;

verus! {

/// The parameters of a registration (`ChiakiRegistInfo`), owning its strings.
pub struct RegistInfo {
    target: Target,
    host: String,
    pin: u32,
    broadcast: bool,
    psn_online_id: Option<String>,
    psn_account_id: [u8; 8],
    console_pin: u32,
}

/// What a set of registration parameters says.
pub struct RegistInfoView {
    pub target: Target,
    pub host: Seq<char>,
    pub pin: u32,
    pub broadcast: bool,
    pub psn_online_id: Option<Seq<char>>,
    pub psn_account_id: Seq<u8>,
    pub console_pin: u32,
}

impl View for RegistInfo {
    type V = RegistInfoView;

    closed spec fn view(&self) -> RegistInfoView {
        RegistInfoView {
            target: self.target,
            host: self.host@,
            pin: self.pin,
            broadcast: self.broadcast,
            psn_online_id: opt_view(self.psn_online_id),
            psn_account_id: self.psn_account_id@,
            console_pin: self.console_pin,
        }
    }
}

impl RegistInfo {
    /// The host and the online id, when set, are valid C strings; an online
    /// id, when set, is not empty.
    #[verifier::type_invariant]
    spec fn strings_are_c_strings(self) -> bool {
        &&& !chars_have_nul(self.host@)
        &&& self.psn_online_id matches Some(id) ==> !chars_have_nul(id@) && id@.len() > 0
    }

    /// Registration parameters for the console at `host` with the PIN it
    /// shows; no broadcast, no PSN identity, no console PIN. A host that
    /// cannot be a C string is refused.
    pub fn new(target: Target, host: &str, pin: u32) -> (r: Result<Self, NulError>)
        ensures
            r is Ok <==> !has_nul(host),
            r matches Err(e) ==> e.nul_position == nul_index(host.spec_bytes()),
            r matches Ok(info) ==> info@ == (RegistInfoView {
                target,
                host: host@,
                pin,
                broadcast: false,
                psn_online_id: None,
                psn_account_id: Seq::new(8, |i: int| 0u8),
                console_pin: 0,
            }),
    {
        match check_c_string(host) {
            Err(e) => Err(e),
            Ok(()) => {
                let info = RegistInfo {
                    target,
                    host: host.to_owned(),
                    pin,
                    broadcast: false,
                    psn_online_id: None,
                    psn_account_id: [0u8; 8],
                    console_pin: 0,
                };
                assert(info@.psn_account_id =~= Seq::new(8, |i: int| 0u8));
                Ok(info)
            },
        }
    }

    /// Registers by broadcast instead of with the host directly.
    pub fn set_broadcast(&mut self, v: bool)
        ensures
            final(self)@ == (RegistInfoView { broadcast: v, ..old(self)@ }),
    {
        proof {
            use_type_invariant(&*self);
        }
        self.broadcast = v;
    }

    /// Sets the PSN online id. chiaki falls back to the account id when the
    /// online id is null, and takes an empty one as a real (wrong) id, so the
    /// empty string unsets it. An id that cannot be a C string is refused and
    /// the parameters stay as they were.
    pub fn set_psn_online_id(&mut self, id: &str) -> (r: Result<(), NulError>)
        ensures
            r is Ok <==> !has_nul(id),
            r matches Err(e) ==> e.nul_position == nul_index(id.spec_bytes()) && final(self)@ == old(self)@,
            r is Ok && id@.len() == 0 ==> final(self)@ == (RegistInfoView { psn_online_id: None, ..old(self)@ }),
            r is Ok && id@.len() > 0 ==> final(self)@ == (RegistInfoView { psn_online_id: Some(id@), ..old(self)@ }),
    {
        proof {
            use_type_invariant(&*self);
        }
        if id.is_empty() {
            proof {
                assert(id.spec_bytes() =~= Seq::<u8>::empty());
            }
            self.psn_online_id = None;
            return Ok(());
        }
        match check_c_string(id) {
            Err(e) => Err(e),
            Ok(()) => {
                self.psn_online_id = Some(id.to_owned());
                Ok(())
            },
        }
    }

    /// Sets the PSN account id.
    pub fn set_psn_account_id(&mut self, id: &[u8; 8])
        ensures
            final(self)@ == (RegistInfoView { psn_account_id: id@, ..old(self)@ }),
    {
        proof {
            use_type_invariant(&*self);
        }
        self.psn_account_id = *id;
    }

    /// Sets the console PIN.
    pub fn set_console_pin(&mut self, pin: u32)
        ensures
            final(self)@ == (RegistInfoView { console_pin: pin, ..old(self)@ }),
    {
        proof {
            use_type_invariant(&*self);
        }
        self.console_pin = pin;
    }

    /// The console's firmware target.
    pub fn target(&self) -> (t: Target)
        ensures
            t == self@.target,
    {
        self.target
    }

    /// The host to register with; it holds no NUL.
    pub fn host(&self) -> (h: &str)
        ensures
            h@ == self@.host,
            !has_nul(h),
    {
        proof {
            use_type_invariant(self);
        }
        self.host.as_str()
    }

    /// The PIN shown by the console.
    pub fn pin(&self) -> (p: u32)
        ensures
            p == self@.pin,
    {
        self.pin
    }

    /// Whether registration goes by broadcast.
    pub fn broadcast(&self) -> (b: bool)
        ensures
            b == self@.broadcast,
    {
        self.broadcast
    }

    /// The PSN online id, if set; it is never empty and holds no NUL.
    pub fn psn_online_id(&self) -> (id: &Option<String>)
        ensures
            opt_view(*id) == self@.psn_online_id,
            id matches Some(t) ==> !chars_have_nul(t@) && t@.len() > 0,
    {
        proof {
            use_type_invariant(self);
        }
        &self.psn_online_id
    }

    /// The PSN account id.
    pub fn psn_account_id(&self) -> (id: [u8; 8])
        ensures
            id@ == self@.psn_account_id,
    {
        self.psn_account_id
    }

    /// The console PIN.
    pub fn console_pin(&self) -> (p: u32)
        ensures
            p == self@.console_pin,
    {
        self.console_pin
    }
}

/// The type of a registration event (`ChiakiRegistEventType`).
#[derive(Debug, Clone, Copy, PartialEq, Eq, Structural)]
pub enum RegistEventType {
    FinishedCanceled,
    FinishedFailed,
    FinishedSuccess,
}

/// The outcome of a registration.
#[derive(Debug, Clone)]
pub enum RegistEvent {
    FinishedCanceled,
    FinishedFailed,
    FinishedSuccess(RegisteredHost),
}

/// `ev` is what a registration event of type `kind` with host data `host`
/// reads as: a success without host data counts as a failure.
pub open spec fn regist_event_of(kind: RegistEventType, host: Option<RawRegisteredHost>, ev: RegistEvent) -> bool {
    match kind {
        RegistEventType::FinishedCanceled => ev is FinishedCanceled,
        RegistEventType::FinishedFailed => ev is FinishedFailed,
        RegistEventType::FinishedSuccess => match host {
            None => ev is FinishedFailed,
            Some(h) => ev matches RegistEvent::FinishedSuccess(r) && registered_host_of(h, r),
        },
    }
}

/// Reads a registration event out of what chiaki delivered.
pub fn parse_regist_event(kind: RegistEventType, host: Option<&RawRegisteredHost>) -> (ev: RegistEvent)
    ensures
        regist_event_of(
            kind,
            match host {
                None => None,
                Some(h) => Some(*h),
            },
            ev,
        ),
        kind == RegistEventType::FinishedCanceled ==> ev is FinishedCanceled,
        kind == RegistEventType::FinishedFailed ==> ev is FinishedFailed,
        kind == RegistEventType::FinishedSuccess && host is None ==> ev is FinishedFailed,
        kind == RegistEventType::FinishedSuccess && host is Some ==> ev is FinishedSuccess,
{
    match kind {
        RegistEventType::FinishedCanceled => RegistEvent::FinishedCanceled,
        RegistEventType::FinishedFailed => RegistEvent::FinishedFailed,
        RegistEventType::FinishedSuccess => match host {
            None => RegistEvent::FinishedFailed,
            Some(h) => RegistEvent::FinishedSuccess(parse_registered_host(h)),
        },
    }
}

/// The outcome of a registration follows chiaki's event type alone, except
/// that a success without host data counts as a failure: a cancelled
/// registration reads as cancelled and a failed one as failed, whatever
/// host data comes with them.
pub proof fn law_regist_outcome_follows_type(
    kind: RegistEventType,
    host: Option<RawRegisteredHost>,
    ev: RegistEvent,
)
    requires
        regist_event_of(kind, host, ev),
    ensures
        kind == RegistEventType::FinishedCanceled ==> ev is FinishedCanceled,
        kind == RegistEventType::FinishedFailed ==> ev is FinishedFailed,
        kind == RegistEventType::FinishedSuccess && host is None ==> ev is FinishedFailed,
        kind == RegistEventType::FinishedSuccess && host is Some ==> ev is FinishedSuccess,
{
}

} // verus!
