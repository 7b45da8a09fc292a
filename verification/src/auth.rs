//! The authorisation handshake of the F1s V3, as a state machine.
//!
//! The device only accepts commands once it is authorised. Its security
//! endpoint reads `0x01` first when it already is. Otherwise the user taps
//! the power button, the device notifies an eight-byte password on that
//! endpoint, and writing the password back authorises the connection, which
//! a second read confirms.
//!
//! `LeloF1sV3Initializer` decides each step; the caller performs the action
//! it returns and reports the outcome as the next event.

use vstd::prelude::*;
use crate::device::{initial_state, LeloF1sV3, LeloF1sV3View, READ_LENGTH, READ_TIMEOUT_MS};
use crate::protocol::{DeviceError, Endpoint};

verus! {

/// The service that carries the security endpoint, as the 128-bit value of
/// its UUID 85c59ac5-89ee-4549-8958-ce5449226a5c.
pub const LELO_F1S_V3_PROTOCOL_ID: u128 = 0x85c59ac5_89ee_4549_8958_ce5449226a5c;

/// Length of the password that the device notifies.
pub const PASSWORD_LENGTH: usize = 8;

/// How many times the notifications are polled before giving up.
pub const MAX_POLLS: u32 = 300;

/// Pause between two polls, in milliseconds (300 polls make 30 seconds).
pub const POLL_INTERVAL_MS: u64 = 100;

/// Pause between writing the password and reading the confirmation.
pub const SETTLE_MS: u64 = 1000;

/// The byte that starts the security endpoint's value once authorised.
pub const AUTHORISED: u8 = 0x01;

/// Whether a security value says that the device is authorised.
pub open spec fn confirms_auth(d: Seq<u8>) -> bool {
    d.len() > 0 && d[0] == AUTHORISED
}

/// Whether notified bytes are a password: eight bytes, not all zero.
pub open spec fn is_password(d: Seq<u8>) -> bool {
    d.len() == PASSWORD_LENGTH && d != Seq::new(PASSWORD_LENGTH as nat, |i: int| 0u8)
}

/// Where the handshake stands.
#[derive(Clone, Copy, Debug, PartialEq, Eq, Structural)]
pub enum AuthPhase {
    /// Nothing sent yet.
    Start,
    /// Waiting for the first read of the security endpoint.
    InitialRead,
    /// Waiting for the subscription to the security endpoint.
    Subscribing,
    /// Waiting for the outcome of a notification poll.
    Polling,
    /// Waiting for the pause after an unsuccessful poll.
    Pausing,
    /// Waiting for the unsubscription from the security endpoint.
    Unsubscribing,
    /// Waiting for the password write.
    Writing,
    /// Waiting for the pause after the password write.
    Settling,
    /// Waiting for the confirming read of the security endpoint.
    VerifyRead,
    /// The handshake is over.
    Finished,
}

/// The outcome of the last action, as reported by the caller.
#[derive(Debug)]
pub enum AuthEvent {
    /// A read of the security endpoint returned these bytes.
    ValueRead(Vec<u8>),
    /// A subscription, unsubscription or write completed.
    Done,
    /// A poll of the device's events found a notification with these bytes,
    /// or (`None`) found no notification.
    Polled(Option<Vec<u8>>),
    /// A pause is over.
    Slept,
    /// The device reported an error.
    HardwareError,
}

/// What the caller has to do next.
pub enum AuthAction {
    /// Read the endpoint.
    ReadValue { service: u128, endpoint: Endpoint, length: u32, timeout_ms: u32 },
    /// Ask the user to tap the power button and subscribe to the endpoint.
    Subscribe { service: u128, endpoint: Endpoint },
    /// Take the next pending device event, if there is one.
    PollNotification,
    /// Wait for the given number of milliseconds.
    Sleep { ms: u64 },
    /// Unsubscribe from the endpoint.
    Unsubscribe { service: u128, endpoint: Endpoint },
    /// Write the bytes to the endpoint.
    WriteValue { service: u128, endpoint: Endpoint, data: Vec<u8>, write_with_response: bool },
    /// The device is authorised; this handler drives it from now on.
    Authorized(LeloF1sV3),
    /// The handshake failed.
    Failed(DeviceError),
    /// The device reported an error; the handshake stops with it.
    Abort,
}

/// An event as plain values.
pub enum AuthEventView {
    ValueRead(Seq<u8>),
    Done,
    Polled(Option<Seq<u8>>),
    Slept,
    HardwareError,
}

/// An action as plain values.
pub enum AuthActionView {
    ReadValue { service: u128, endpoint: Endpoint, length: u32, timeout_ms: u32 },
    Subscribe { service: u128, endpoint: Endpoint },
    PollNotification,
    Sleep { ms: u64 },
    Unsubscribe { service: u128, endpoint: Endpoint },
    WriteValue { service: u128, endpoint: Endpoint, data: Seq<u8>, write_with_response: bool },
    Authorized(LeloF1sV3View),
    Failed(DeviceError),
    Abort,
}

impl View for AuthEvent {
    type V = AuthEventView;

    open spec fn view(&self) -> AuthEventView {
        match self {
            AuthEvent::ValueRead(d) => AuthEventView::ValueRead(d@),
            AuthEvent::Done => AuthEventView::Done,
            AuthEvent::Polled(None) => AuthEventView::Polled(None),
            AuthEvent::Polled(Some(d)) => AuthEventView::Polled(Some(d@)),
            AuthEvent::Slept => AuthEventView::Slept,
            AuthEvent::HardwareError => AuthEventView::HardwareError,
        }
    }
}

impl View for AuthAction {
    type V = AuthActionView;

    open spec fn view(&self) -> AuthActionView {
        match self {
            AuthAction::ReadValue { service, endpoint, length, timeout_ms } => AuthActionView::ReadValue {
                service: *service,
                endpoint: *endpoint,
                length: *length,
                timeout_ms: *timeout_ms,
            },
            AuthAction::Subscribe { service, endpoint } => AuthActionView::Subscribe {
                service: *service,
                endpoint: *endpoint,
            },
            AuthAction::PollNotification => AuthActionView::PollNotification,
            AuthAction::Sleep { ms } => AuthActionView::Sleep { ms: *ms },
            AuthAction::Unsubscribe { service, endpoint } => AuthActionView::Unsubscribe {
                service: *service,
                endpoint: *endpoint,
            },
            AuthAction::WriteValue { service, endpoint, data, write_with_response } =>
                AuthActionView::WriteValue {
                service: *service,
                endpoint: *endpoint,
                data: data@,
                write_with_response: *write_with_response,
            },
            AuthAction::Authorized(h) => AuthActionView::Authorized(h@),
            AuthAction::Failed(e) => AuthActionView::Failed(*e),
            AuthAction::Abort => AuthActionView::Abort,
        }
    }
}

/// The handshake state as plain values.
pub struct AuthState {
    pub phase: AuthPhase,
    /// Number of polls that found no password.
    pub polls: u32,
    /// The password received, empty until one arrives.
    pub password: Seq<u8>,
}

/// The read of the security endpoint.
pub open spec fn security_read() -> AuthActionView {
    AuthActionView::ReadValue {
        service: LELO_F1S_V3_PROTOCOL_ID,
        endpoint: Endpoint::Whitelist,
        length: READ_LENGTH,
        timeout_ms: READ_TIMEOUT_MS,
    }
}

/// The state right after the handshake starts: the first read is pending,
/// nothing polled and no password held.
pub open spec fn handshake_start() -> AuthState {
    AuthState { phase: AuthPhase::InitialRead, polls: 0, password: Seq::empty() }
}

/// The state and action that follow `e` in state `s`.
pub open spec fn auth_step(s: AuthState, e: AuthEventView) -> (AuthState, AuthActionView) {
    let finished = AuthState { phase: AuthPhase::Finished, ..s };
    match e {
        AuthEventView::HardwareError => (finished, AuthActionView::Abort),
        AuthEventView::ValueRead(d) => if confirms_auth(d) {
            (finished, AuthActionView::Authorized(initial_state(true)))
        } else if s.phase == AuthPhase::InitialRead {
            (
                AuthState { phase: AuthPhase::Subscribing, ..s },
                AuthActionView::Subscribe { service: LELO_F1S_V3_PROTOCOL_ID, endpoint: Endpoint::Whitelist },
            )
        } else {
            (finished, AuthActionView::Failed(DeviceError::HandshakeFailed))
        },
        AuthEventView::Done => if s.phase == AuthPhase::Subscribing {
            (
                AuthState { phase: AuthPhase::Polling, polls: 0, ..s },
                AuthActionView::PollNotification,
            )
        } else if s.phase == AuthPhase::Unsubscribing {
            if s.password.len() == 0 {
                (finished, AuthActionView::Failed(DeviceError::NoPassword))
            } else {
                (
                    AuthState { phase: AuthPhase::Writing, ..s },
                    AuthActionView::WriteValue {
                        service: LELO_F1S_V3_PROTOCOL_ID,
                        endpoint: Endpoint::Whitelist,
                        data: s.password,
                        write_with_response: true,
                    },
                )
            }
        } else {
            (
                AuthState { phase: AuthPhase::Settling, ..s },
                AuthActionView::Sleep { ms: SETTLE_MS },
            )
        },
        AuthEventView::Polled(n) => match n {
            Some(d) if is_password(d) => (
                AuthState { phase: AuthPhase::Unsubscribing, password: d, ..s },
                AuthActionView::Unsubscribe { service: LELO_F1S_V3_PROTOCOL_ID, endpoint: Endpoint::Whitelist },
            ),
            _ => (
                AuthState { phase: AuthPhase::Pausing, ..s },
                AuthActionView::Sleep { ms: POLL_INTERVAL_MS },
            ),
        },
        AuthEventView::Slept => if s.phase == AuthPhase::Pausing {
            if s.polls + 1 < MAX_POLLS {
                (
                    AuthState { phase: AuthPhase::Polling, polls: (s.polls + 1) as u32, ..s },
                    AuthActionView::PollNotification,
                )
            } else {
                (
                    AuthState { phase: AuthPhase::Unsubscribing, polls: MAX_POLLS, ..s },
                    AuthActionView::Unsubscribe { service: LELO_F1S_V3_PROTOCOL_ID, endpoint: Endpoint::Whitelist },
                )
            }
        } else {
            (AuthState { phase: AuthPhase::VerifyRead, ..s }, security_read())
        },
    }
}

/// Whether the machine, in phase `p`, waits for an event like `e`.
pub open spec fn accepts(p: AuthPhase, e: AuthEventView) -> bool {
    match p {
        AuthPhase::InitialRead | AuthPhase::VerifyRead => e is ValueRead || e is HardwareError,
        AuthPhase::Subscribing | AuthPhase::Unsubscribing | AuthPhase::Writing => e is Done
            || e is HardwareError,
        AuthPhase::Polling => e is Polled,
        AuthPhase::Pausing | AuthPhase::Settling => e is Slept,
        AuthPhase::Start | AuthPhase::Finished => false,
    }
}

/// Initialises an F1s V3 connection by running the authorisation handshake.
pub struct LeloF1sV3Initializer {
    phase: AuthPhase,
    polls: u32,
    password: Vec<u8>,
}

impl View for LeloF1sV3Initializer {
    type V = AuthState;

    closed spec fn view(&self) -> AuthState {
        AuthState { phase: self.phase, polls: self.polls, password: self.password@ }
    }
}

impl Default for LeloF1sV3Initializer {
    fn default() -> (r: Self)
        ensures
            r@.phase == AuthPhase::Start,
            r@.polls == 0,
            r@.password.len() == 0,
            auth_valid(r@),
    {
        LeloF1sV3Initializer { phase: AuthPhase::Start, polls: 0, password: Vec::new() }
    }
}

/// Whether the bytes are a password; see `is_password`.
pub fn check_password(d: &[u8]) -> (r: bool)
    ensures
        r == is_password(d@),
{
    if d.len() != PASSWORD_LENGTH {
        return false;
    }
    let mut i: usize = 0;
    while i < d.len()
        invariant
            d@.len() == PASSWORD_LENGTH,
            i <= d@.len(),
            forall|j: int| 0 <= j < i ==> d@[j] == 0u8,
        decreases d@.len() - i,
    {
        if d[i] != 0 {
            assert(d@[i as int] != Seq::new(PASSWORD_LENGTH as nat, |k: int| 0u8)[i as int]);
            return true;
        }
        i = i + 1;
    }
    assert(d@ =~= Seq::new(PASSWORD_LENGTH as nat, |k: int| 0u8));
    false
}

impl LeloF1sV3Initializer {
    /// Starts (or restarts) the handshake from scratch: the security
    /// endpoint is read first.
    pub fn initialize(&mut self) -> (a: AuthAction)
        ensures
            final(self)@ == handshake_start(),
            a@ == security_read(),
    {
        self.phase = AuthPhase::InitialRead;
        self.polls = 0;
        self.password = Vec::new();
        assert(self@.password =~= Seq::<u8>::empty());
        AuthAction::ReadValue {
            service: LELO_F1S_V3_PROTOCOL_ID,
            endpoint: Endpoint::Whitelist,
            length: READ_LENGTH,
            timeout_ms: READ_TIMEOUT_MS,
        }
    }

    /// Whether the handshake is waiting for an event like `e`.
    pub fn expects(&self, e: &AuthEvent) -> (r: bool)
        ensures
            r == accepts(self@.phase, e@),
    {
        match self.phase {
            AuthPhase::InitialRead | AuthPhase::VerifyRead => match e {
                AuthEvent::ValueRead(_) | AuthEvent::HardwareError => true,
                _ => false,
            },
            AuthPhase::Subscribing | AuthPhase::Unsubscribing | AuthPhase::Writing => match e {
                AuthEvent::Done | AuthEvent::HardwareError => true,
                _ => false,
            },
            AuthPhase::Polling => match e {
                AuthEvent::Polled(_) => true,
                _ => false,
            },
            AuthPhase::Pausing | AuthPhase::Settling => match e {
                AuthEvent::Slept => true,
                _ => false,
            },
            AuthPhase::Start | AuthPhase::Finished => false,
        }
    }

    /// Takes the outcome of the last action and decides the next one.
    pub fn on_event(&mut self, e: AuthEvent) -> (a: AuthAction)
        requires
            accepts(old(self)@.phase, e@),
        ensures
            (final(self)@, a@) == auth_step(old(self)@, e@),
    {
        match e {
            AuthEvent::HardwareError => {
                self.phase = AuthPhase::Finished;
                AuthAction::Abort
            },
            AuthEvent::ValueRead(d) => {
                if d.len() > 0 && d[0] == AUTHORISED {
                    self.phase = AuthPhase::Finished;
                    AuthAction::Authorized(LeloF1sV3::new(true))
                } else if self.phase == AuthPhase::InitialRead {
                    self.phase = AuthPhase::Subscribing;
                    AuthAction::Subscribe { service: LELO_F1S_V3_PROTOCOL_ID, endpoint: Endpoint::Whitelist }
                } else {
                    self.phase = AuthPhase::Finished;
                    AuthAction::Failed(DeviceError::HandshakeFailed)
                }
            },
            AuthEvent::Done => {
                if self.phase == AuthPhase::Subscribing {
                    self.phase = AuthPhase::Polling;
                    self.polls = 0;
                    AuthAction::PollNotification
                } else if self.phase == AuthPhase::Unsubscribing {
                    if self.password.len() == 0 {
                        self.phase = AuthPhase::Finished;
                        AuthAction::Failed(DeviceError::NoPassword)
                    } else {
                        self.phase = AuthPhase::Writing;
                        AuthAction::WriteValue {
                            service: LELO_F1S_V3_PROTOCOL_ID,
                            endpoint: Endpoint::Whitelist,
                            data: self.password.clone(),
                            write_with_response: true,
                        }
                    }
                } else {
                    self.phase = AuthPhase::Settling;
                    AuthAction::Sleep { ms: SETTLE_MS }
                }
            },
            AuthEvent::Polled(n) => {
                match n {
                    Some(d) => {
                        if check_password(d.as_slice()) {
                            self.phase = AuthPhase::Unsubscribing;
                            self.password = d;
                            return AuthAction::Unsubscribe { service: LELO_F1S_V3_PROTOCOL_ID, endpoint: Endpoint::Whitelist };
                        }
                    },
                    None => {},
                }
                self.phase = AuthPhase::Pausing;
                AuthAction::Sleep { ms: POLL_INTERVAL_MS }
            },
            AuthEvent::Slept => {
                if self.phase == AuthPhase::Pausing {
                    if self.polls < MAX_POLLS - 1 {
                        self.phase = AuthPhase::Polling;
                        self.polls = self.polls + 1;
                        AuthAction::PollNotification
                    } else {
                        self.phase = AuthPhase::Unsubscribing;
                        self.polls = MAX_POLLS;
                        AuthAction::Unsubscribe { service: LELO_F1S_V3_PROTOCOL_ID, endpoint: Endpoint::Whitelist }
                    }
                } else {
                    self.phase = AuthPhase::VerifyRead;
                    AuthAction::ReadValue {
                        service: LELO_F1S_V3_PROTOCOL_ID,
                        endpoint: Endpoint::Whitelist,
                        length: READ_LENGTH,
                        timeout_ms: READ_TIMEOUT_MS,
                    }
                }
            },
        }
    }
}


/// The handshake state is consistent: the poll count stays within its
/// bound, and any password held is one that the device notified.
pub open spec fn auth_valid(s: AuthState) -> bool {
    &&& s.polls <= MAX_POLLS
    &&& (s.phase == AuthPhase::Polling || s.phase == AuthPhase::Pausing) ==> s.polls < MAX_POLLS
    &&& s.password.len() == 0 || is_password(s.password)
    &&& (s.phase == AuthPhase::Writing || s.phase == AuthPhase::Settling || s.phase
        == AuthPhase::VerifyRead) ==> is_password(s.password)
}

/// A bound on the number of steps the handshake can still take.
pub open spec fn auth_measure(s: AuthState) -> int {
    match s.phase {
        AuthPhase::Start => 2 * MAX_POLLS + 10,
        AuthPhase::InitialRead => 2 * MAX_POLLS + 9,
        AuthPhase::Subscribing => 2 * MAX_POLLS + 8,
        AuthPhase::Polling => 2 * (MAX_POLLS - s.polls) + 7,
        AuthPhase::Pausing => 2 * (MAX_POLLS - s.polls) + 6,
        AuthPhase::Unsubscribing => 4,
        AuthPhase::Writing => 3,
        AuthPhase::Settling => 2,
        AuthPhase::VerifyRead => 1,
        AuthPhase::Finished => 0,
    }
}

/// Every step keeps the handshake state consistent, and a fresh
/// initializer starts consistent.
pub proof fn law_auth_state_stays_valid(s: AuthState, e: AuthEventView)
    requires
        auth_valid(s),
        accepts(s.phase, e),
    ensures
        auth_valid(auth_step(s, e).0),
        auth_valid(handshake_start()),
{
}

/// The handshake always ends: each step lowers a bound that is zero once it
/// is over, and a finished handshake takes no more events.
pub proof fn law_auth_terminates(s: AuthState, e: AuthEventView)
    requires
        auth_valid(s),
        accepts(s.phase, e),
    ensures
        0 <= auth_measure(auth_step(s, e).0) < auth_measure(s),
        auth_step(s, e).0.phase == AuthPhase::Finished ==> auth_measure(auth_step(s, e).0) == 0,
        !accepts(AuthPhase::Finished, e),
{
}

/// The device is declared authorised only after a read of the security
/// endpoint that starts with 0x01, and the handler it yields is a fresh one
/// that writes with response.
pub proof fn law_authorized_only_when_confirmed(s: AuthState, e: AuthEventView)
    requires
        accepts(s.phase, e),
        auth_step(s, e).1 is Authorized,
    ensures
        e matches AuthEventView::ValueRead(d) && d.len() > 0 && d[0] == 0x01u8,
        s.phase == AuthPhase::InitialRead || s.phase == AuthPhase::VerifyRead,
        auth_step(s, e).1 == AuthActionView::Authorized(initial_state(true)),
        auth_step(s, e).0.phase == AuthPhase::Finished,
{
}

/// The bytes written back to the device are exactly the password it
/// notified: eight bytes, not all zero, written with response to the
/// security endpoint.
pub proof fn law_written_password_was_notified(s: AuthState, e: AuthEventView)
    requires
        auth_valid(s),
        accepts(s.phase, e),
        auth_step(s, e).1 is WriteValue,
    ensures
        auth_step(s, e).1 == (AuthActionView::WriteValue {
            service: LELO_F1S_V3_PROTOCOL_ID,
            endpoint: Endpoint::Whitelist,
            data: s.password,
            write_with_response: true,
        }),
        is_password(s.password),
{
}

/// The device's notifications are polled at most `MAX_POLLS` times, one
/// pause apart, so the wait for the password lasts about 30 seconds: each
/// poll carries the count of earlier unsuccessful polls, which starts at
/// zero, grows by one between polls and stays below `MAX_POLLS`.
pub proof fn law_polls_are_bounded(s: AuthState, e: AuthEventView)
    requires
        auth_valid(s),
        accepts(s.phase, e),
        auth_step(s, e).1 is PollNotification,
    ensures
        auth_step(s, e).0.phase == AuthPhase::Polling,
        auth_step(s, e).0.polls < MAX_POLLS,
        s.phase == AuthPhase::Subscribing ==> auth_step(s, e).0.polls == 0,
        s.phase != AuthPhase::Subscribing ==> s.phase == AuthPhase::Pausing
            && auth_step(s, e).0.polls == s.polls + 1,
        MAX_POLLS * POLL_INTERVAL_MS == 30_000,
{
}

/// Once subscribed for the password, the handshake neither finishes nor
/// fails before it has unsubscribed again.
pub proof fn law_unsubscribes_before_finishing(s: AuthState, e: AuthEventView)
    requires
        accepts(s.phase, e),
        s.phase == AuthPhase::Polling || s.phase == AuthPhase::Pausing,
    ensures
        auth_step(s, e).1 is PollNotification || auth_step(s, e).1 is Sleep || auth_step(
            s,
            e,
        ).1 is Unsubscribe,
{
}

/// Every read, subscription, unsubscription and write the handshake asks
/// for addresses the security endpoint of the F1s V3 service; reads ask for
/// 128 bytes within 500 ms, and the write waits for the device's response.
pub proof fn law_handshake_addresses_security_endpoint(s: AuthState, e: AuthEventView)
    requires
        accepts(s.phase, e),
    ensures
        security_read() == (AuthActionView::ReadValue {
            service: LELO_F1S_V3_PROTOCOL_ID,
            endpoint: Endpoint::Whitelist,
            length: 128,
            timeout_ms: 500,
        }),
        ({
            let a = auth_step(s, e).1;
            &&& a is ReadValue ==> a == security_read()
            &&& a is Subscribe ==> a == (AuthActionView::Subscribe {
                service: LELO_F1S_V3_PROTOCOL_ID,
                endpoint: Endpoint::Whitelist,
            })
            &&& a is Unsubscribe ==> a == (AuthActionView::Unsubscribe {
                service: LELO_F1S_V3_PROTOCOL_ID,
                endpoint: Endpoint::Whitelist,
            })
            &&& a matches AuthActionView::WriteValue { service, endpoint, data, write_with_response }
                ==> service == LELO_F1S_V3_PROTOCOL_ID && endpoint == Endpoint::Whitelist
                && write_with_response
        }),
{
}

/// An error from the device ends the handshake with that error, whatever
/// the phase.
pub proof fn law_hardware_error_aborts(s: AuthState)
    requires
        accepts(s.phase, AuthEventView::HardwareError),
    ensures
        auth_step(s, AuthEventView::HardwareError).0.phase == AuthPhase::Finished,
        auth_step(s, AuthEventView::HardwareError).1 == AuthActionView::Abort,
{
}


/// Any eight-byte notification that is not all zero is taken as the
/// password, and nothing else is.
pub proof fn law_password_is_any_nonzero_eight_bytes(d: Seq<u8>)
    ensures
        is_password(d) == (d.len() == 8 && exists|i: int| 0 <= i < 8 && d[i] != 0u8),
{
    if d.len() == 8 && exists|i: int| 0 <= i < 8 && d[i] != 0u8 {
        let i = choose|i: int| 0 <= i < 8 && d[i] != 0u8;
        assert(d[i] != Seq::new(PASSWORD_LENGTH as nat, |k: int| 0u8)[i]);
    }
    if is_password(d) {
        if forall|i: int| 0 <= i < 8 ==> d[i] == 0u8 {
            assert(d =~= Seq::new(PASSWORD_LENGTH as nat, |k: int| 0u8));
        }
    }
}

/// While waiting for the password, a notification of eight bytes that are
/// not all zero is kept as the password and ends the wait.
pub proof fn law_notified_password_is_taken(s: AuthState, d: Seq<u8>)
    requires
        s.phase == AuthPhase::Polling,
        d.len() == 8,
        exists|i: int| 0 <= i < 8 && d[i] != 0u8,
    ensures
        auth_step(s, AuthEventView::Polled(Some(d))).0.password == d,
        auth_step(s, AuthEventView::Polled(Some(d))).0.phase == AuthPhase::Unsubscribing,
        auth_step(s, AuthEventView::Polled(Some(d))).1 == (AuthActionView::Unsubscribe {
            service: LELO_F1S_V3_PROTOCOL_ID,
            endpoint: Endpoint::Whitelist,
        }),
{
    law_password_is_any_nonzero_eight_bytes(d);
}

/// The handshake never stalls: after each action it accepts every outcome
/// that action can have (any bytes for a read, completion or a device error
/// for a subscription, unsubscription or write, any poll result, the end of
/// a pause), and it only stops accepting events once it is finished.
pub proof fn law_handshake_accepts_every_outcome(s: AuthState, e: AuthEventView)
    requires
        accepts(s.phase, e),
    ensures
        forall|d: Seq<u8>| #[trigger] accepts(handshake_start().phase, AuthEventView::ValueRead(d)),
        accepts(handshake_start().phase, AuthEventView::HardwareError),
        ({
            let (t, a) = auth_step(s, e);
            &&& a is ReadValue ==> (forall|d: Seq<u8>| #[trigger] accepts(t.phase, AuthEventView::ValueRead(d)))
                && accepts(t.phase, AuthEventView::HardwareError)
            &&& (a is Subscribe || a is Unsubscribe || a is WriteValue) ==> accepts(t.phase, AuthEventView::Done)
                && accepts(t.phase, AuthEventView::HardwareError)
            &&& a is PollNotification ==> accepts(t.phase, AuthEventView::Polled(None))
                && (forall|d: Seq<u8>| #[trigger] accepts(t.phase, AuthEventView::Polled(Some(d))))
            &&& a is Sleep ==> accepts(t.phase, AuthEventView::Slept)
            &&& (a is Authorized || a is Failed || a is Abort) ==> t.phase == AuthPhase::Finished
        }),
{
}


/// A read of the security endpoint that starts with 0x01, whether the first
/// read or the confirming one, authorises the device; a confirming read
/// that does not fails the handshake.
pub proof fn law_reading_01_authorises(s: AuthState, d: Seq<u8>)
    requires
        s.phase == AuthPhase::InitialRead || s.phase == AuthPhase::VerifyRead,
    ensures
        d.len() > 0 && d[0] == 0x01u8 ==> auth_step(s, AuthEventView::ValueRead(d)).1
            == AuthActionView::Authorized(initial_state(true)),
        !(d.len() > 0 && d[0] == 0x01u8) && s.phase == AuthPhase::VerifyRead ==> auth_step(
            s,
            AuthEventView::ValueRead(d),
        ).1 == AuthActionView::Failed(DeviceError::HandshakeFailed),
        !(d.len() > 0 && d[0] == 0x01u8) && s.phase == AuthPhase::InitialRead ==> auth_step(
            s,
            AuthEventView::ValueRead(d),
        ).1 is Subscribe,
{
}

} // verus!
