//! The session with a device: it discovers a device, opens it, listens to its
//! reports, and starts over when the device goes away.
//!
//! The session decides and the caller acts. The caller performs the action that
//! `Session::step` returns, enumerating, opening, reading or waiting, and hands
//! back what came of it as the next event.

use crate::keychron_hid::{
    lemma_selected_are_candidates, list_compatible_devices, selected, DeviceDescriptor,
};
use crate::report::{well_formed, Report, TryMerge};
use vstd::prelude::*;
use vstd::slice::slice_subrange;

verus! {

/// Seconds to wait before the devices are enumerated again, or a device that
/// could not be opened is tried again.
pub const RETRY_INTERVAL_SECS: u64 = 5;

/// The power value with which a device says that it has been reset. It is no
/// charge level.
pub const POWER_RESET: u8 = 255;

/// Why the transport failed.
#[derive(Debug, Clone, Copy, PartialEq, Eq, Structural)]
pub enum TransportError {
    /// Access to the device was denied.
    PermissionDenied,
    /// The device is gone: an input or output error on the bus.
    Disconnected,
    /// Anything else.
    Other,
}

/// A device to open: where it stood in the enumeration, and what the
/// enumeration told of it.
#[derive(Debug, Clone, Copy, PartialEq, Eq, Structural)]
pub struct Candidate {
    pub position: usize,
    pub descriptor: DeviceDescriptor,
}

/// What the caller reports to the session.
#[derive(Debug, Clone, PartialEq, Eq)]
pub enum Event {
    /// The devices have been enumerated; these were found.
    Enumerated(Vec<DeviceDescriptor>),
    /// The retry interval has passed.
    RetryElapsed,
    /// The device is open.
    Opened,
    /// The device could not be opened.
    OpenFailed(TransportError),
    /// The attempt to be granted access has ended, with success or without.
    Remediated(bool),
    /// A frame has been read, report id first.
    Frame(Vec<u8>),
    /// Reading failed.
    ReadFailed(TransportError),
    /// Writing a request failed.
    WriteFailed(TransportError),
    /// The reader has been stopped and the device closed.
    TornDown,
}

/// What the session asks the caller to do.
#[derive(Debug, Clone, Copy, PartialEq, Eq)]
pub enum Action {
    /// Enumerate the devices.
    Enumerate,
    /// Wait for the retry interval.
    Wait,
    /// Open the device.
    Open(Candidate),
    /// Wait for the retry interval or for the end of an attempt to be granted
    /// access, whichever comes first.
    AwaitRemediation,
    /// Start reading frames, and send the two requests for status.
    Listen,
    /// Go on reading.
    Read,
    /// Hand the status on to those who watch it, and go on reading.
    Publish(Report),
    /// Hand the status on to those who watch it, then stop the reader and
    /// close the device: the status holds the reset value of the power.
    PublishAndTearDown(Report),
    /// Stop the reader and close the device.
    TearDown,
    /// Give up: the failure is fatal.
    Exit,
    /// Nothing: the event does not concern the session as it is.
    Ignore,
}

/// The session with a device.
#[derive(Debug, Clone, Copy, PartialEq, Eq)]
pub enum Session {
    /// No device yet.
    Discovering,
    /// A device is being opened. `needs_install` says that access was denied
    /// and has not been granted since.
    Opening { candidate: Candidate, needs_install: bool },
    /// The device is open and its reports are merged into `status`.
    Listening { candidate: Candidate, status: Report },
    /// The device is being let go of.
    Resetting,
    /// The session has ended with a fatal failure.
    Fatal,
}

/// The status after the frame `frame` has been read: the payload, which is the
/// frame without its report id, merged into `status`. There is none where the
/// frame is empty or its payload is malformed.
pub open spec fn after_frame(status: Report, frame: Seq<u8>) -> Option<Report> {
    if frame.len() > 0 && well_formed(frame.skip(1)) {
        Some(status.merged(frame.skip(1)))
    } else {
        None
    }
}

/// The device to open among the enumerated ones, if there is any.
pub open spec fn first_selected(devs: Seq<DeviceDescriptor>) -> Option<Candidate> {
    let sel = selected(devs);
    if sel.len() > 0 {
        Some(Candidate { position: sel[0], descriptor: devs[sel[0] as int] })
    } else {
        None
    }
}

impl Action {
    /// The status that the action hands on, if it hands one on.
    pub open spec fn published(self) -> Option<Report> {
        match self {
            Action::Publish(status) => Some(status),
            Action::PublishAndTearDown(status) => Some(status),
            _ => None,
        }
    }

    /// The status that the action hands on, if it hands one on.
    pub fn status(&self) -> (status: Option<Report>)
        ensures
            status == self.published(),
    {
        match self {
            Action::Publish(status) => Some(*status),
            Action::PublishAndTearDown(status) => Some(*status),
            _ => None,
        }
    }
}

impl Session {
    /// Whether the caller is to tell the user that access has to be granted.
    pub open spec fn signals_install(self) -> bool {
        self matches Session::Opening { needs_install, .. } && needs_install
    }

    /// The session and the action after `event`.
    pub open spec fn next(self, event: Event) -> (Session, Action) {
        match (self, event) {
            (Session::Fatal, _) => (Session::Fatal, Action::Exit),
            (Session::Discovering, Event::Enumerated(devs)) => match first_selected(devs@) {
                Some(candidate) => (
                    Session::Opening { candidate, needs_install: false },
                    Action::Open(candidate),
                ),
                None => (Session::Discovering, Action::Wait),
            },
            (Session::Discovering, Event::RetryElapsed) => (Session::Discovering, Action::Enumerate),
            (Session::Opening { candidate, .. }, Event::Opened) => (
                Session::Listening { candidate, status: Report::initial() },
                Action::Listen,
            ),
            (
                Session::Opening { candidate, .. },
                Event::OpenFailed(TransportError::PermissionDenied),
            ) => (Session::Opening { candidate, needs_install: true }, Action::AwaitRemediation),
            (Session::Opening { .. }, Event::OpenFailed(_)) => (Session::Fatal, Action::Exit),
            (Session::Opening { candidate, .. }, Event::RetryElapsed) => (
                self,
                Action::Open(candidate),
            ),
            (Session::Opening { candidate, .. }, Event::Remediated(true)) => (
                Session::Opening { candidate, needs_install: false },
                Action::Open(candidate),
            ),
            (Session::Opening { .. }, Event::Remediated(false)) => (
                self,
                Action::AwaitRemediation,
            ),
            (Session::Listening { candidate, status }, Event::Frame(frame)) => match after_frame(
                status,
                frame@,
            ) {
                Some(merged) => if merged.power.value == POWER_RESET {
                    (Session::Resetting, Action::PublishAndTearDown(merged))
                } else {
                    (Session::Listening { candidate, status: merged }, Action::Publish(merged))
                },
                None => (self, Action::Read),
            },
            (Session::Listening { .. }, Event::ReadFailed(TransportError::Disconnected)) => (
                Session::Resetting,
                Action::TearDown,
            ),
            (Session::Listening { .. }, Event::ReadFailed(_)) => (Session::Fatal, Action::Exit),
            (Session::Listening { .. }, Event::WriteFailed(_)) => (Session::Fatal, Action::Exit),
            (Session::Resetting, Event::TornDown) => (Session::Discovering, Action::Enumerate),
            _ => (self, Action::Ignore),
        }
    }

    /// The session after the events `events`, one after the other.
    pub open spec fn run(self, events: Seq<Event>) -> Session
        decreases events.len(),
    {
        if events.len() == 0 {
            self
        } else {
            self.run(events.drop_last()).next(events.last()).0
        }
    }

    /// A session that has no device yet. Its first action is to enumerate.
    pub fn new() -> (session: Session)
        ensures
            session == Session::Discovering,
    {
        Session::Discovering
    }

    /// Whether the caller is to tell the user that access has to be granted.
    pub fn needs_install(&self) -> (b: bool)
        ensures
            b == self.signals_install(),
    {
        match self {
            Session::Opening { needs_install, .. } => *needs_install,
            _ => false,
        }
    }

    /// The status of the device that is listened to.
    pub fn status(&self) -> (status: Option<Report>)
        ensures
            status == (match *self {
                Session::Listening { status, .. } => Some(status),
                _ => None,
            }),
    {
        match self {
            Session::Listening { status, .. } => Some(*status),
            _ => None,
        }
    }

    fn on_enumerated(devs: &Vec<DeviceDescriptor>) -> (found: Option<Candidate>)
        ensures
            found == first_selected(devs@),
    {
        let sel = list_compatible_devices(devs.as_slice());
        if sel.len() > 0 {
            proof {
                assert(devs@.len() == devs.len());
                lemma_selected_are_candidates(devs@);
            }
            let position = sel[0];
            Some(Candidate { position, descriptor: devs[position] })
        } else {
            None
        }
    }

    fn on_frame(status: Report, frame: &Vec<u8>) -> (merged: Option<Report>)
        ensures
            merged == after_frame(status, frame@),
    {
        if frame.len() == 0 {
            return None;
        }
        let payload = slice_subrange(frame.as_slice(), 1, frame.len());
        assert(payload@ =~= frame@.skip(1));
        let mut status = status;
        match status.merge(payload) {
            Ok(()) => Some(status),
            Err(_) => None,
        }
    }

    /// Takes in what the caller reports and says what to do next.
    pub fn step(&mut self, event: &Event) -> (action: Action)
        ensures
            (*final(self), action) == old(self).next(*event),
    {
        let (next, action) = match (*self, event) {
            (Session::Fatal, _) => (Session::Fatal, Action::Exit),
            (Session::Discovering, Event::Enumerated(devs)) => match Self::on_enumerated(devs) {
                Some(candidate) => (
                    Session::Opening { candidate, needs_install: false },
                    Action::Open(candidate),
                ),
                None => (Session::Discovering, Action::Wait),
            },
            (Session::Discovering, Event::RetryElapsed) => (Session::Discovering, Action::Enumerate),
            (Session::Opening { candidate, .. }, Event::Opened) => (
                Session::Listening { candidate, status: Report::default() },
                Action::Listen,
            ),
            (
                Session::Opening { candidate, .. },
                Event::OpenFailed(TransportError::PermissionDenied),
            ) => (Session::Opening { candidate, needs_install: true }, Action::AwaitRemediation),
            (Session::Opening { .. }, Event::OpenFailed(_)) => (Session::Fatal, Action::Exit),
            (Session::Opening { candidate, .. }, Event::RetryElapsed) => (
                *self,
                Action::Open(candidate),
            ),
            (Session::Opening { candidate, .. }, Event::Remediated(true)) => (
                Session::Opening { candidate, needs_install: false },
                Action::Open(candidate),
            ),
            (Session::Opening { .. }, Event::Remediated(false)) => (
                *self,
                Action::AwaitRemediation,
            ),
            (Session::Listening { candidate, status }, Event::Frame(frame)) => match Self::on_frame(
                status,
                frame,
            ) {
                Some(merged) => if merged.power.value == POWER_RESET {
                    (Session::Resetting, Action::PublishAndTearDown(merged))
                } else {
                    (Session::Listening { candidate, status: merged }, Action::Publish(merged))
                },
                None => (*self, Action::Read),
            },
            (Session::Listening { .. }, Event::ReadFailed(TransportError::Disconnected)) => (
                Session::Resetting,
                Action::TearDown,
            ),
            (Session::Listening { .. }, Event::ReadFailed(_)) => (Session::Fatal, Action::Exit),
            (Session::Listening { .. }, Event::WriteFailed(_)) => (Session::Fatal, Action::Exit),
            (Session::Resetting, Event::TornDown) => (Session::Discovering, Action::Enumerate),
            _ => (*self, Action::Ignore),
        };
        *self = next;
        action
    }
}

/// Whether the event leaves a session that discovers where it is: an
/// enumeration that found no device to watch, or the end of a wait.
pub open spec fn finds_nothing(event: Event) -> bool {
    match event {
        Event::Enumerated(devs) => first_selected(devs@) is None,
        Event::RetryElapsed => true,
        _ => false,
    }
}

/// Discovery goes on for as long as no device is found: after any number of
/// enumerations that found nothing, the session still discovers.
pub proof fn lemma_discovery_retries(events: Seq<Event>)
    requires
        forall|i: int| 0 <= i < events.len() ==> finds_nothing(#[trigger] events[i]),
    ensures
        Session::Discovering.run(events) == Session::Discovering,
    decreases events.len(),
{
    if events.len() > 0 {
        lemma_discovery_retries(events.drop_last());
        assert(finds_nothing(events.last()));
    }
}

/// An enumeration that found nothing is followed by a wait, the wait by the
/// next enumeration, and the first enumeration that finds a device to watch
/// leads to opening it at once.
pub proof fn lemma_discovery_proceeds(devs: Vec<DeviceDescriptor>)
    ensures
        first_selected(devs@) is None ==> Session::Discovering.next(Event::Enumerated(devs)) == (
            Session::Discovering,
            Action::Wait,
        ),
        Session::Discovering.next(Event::RetryElapsed) == (Session::Discovering, Action::Enumerate),
        first_selected(devs@) matches Some(candidate) ==> Session::Discovering.next(
            Event::Enumerated(devs),
        ) == (Session::Opening { candidate, needs_install: false }, Action::Open(candidate)),
{
}

/// Every report that is merged is handed on: while the session listens, a
/// frame whose payload is well formed leads to the publication of the status
/// with that payload merged into it, and no other event publishes anything.
pub proof fn lemma_every_merge_is_published(session: Session, event: Event)
    ensures
        session is Listening && event is Frame ==> session.next(event).1.published()
            == after_frame(session->status, event->Frame_0@),
        !(session is Listening && event is Frame) ==> session.next(event).1.published() is None,
{
}

/// The reset value of the power is handed on as it is, and is the signal to
/// start over: the status that holds it is published unchanged, the reader is
/// stopped with it, and discovery then begins anew with nothing kept. A status
/// that does not hold it is published and the session goes on listening.
pub proof fn lemma_power_reset_restarts(candidate: Candidate, status: Report, frame: Vec<u8>)
    requires
        after_frame(status, frame@) is Some,
    ensures
        ({
            let merged = after_frame(status, frame@)->Some_0;
            let listening = Session::Listening { candidate, status };
            if merged.power.value == POWER_RESET {
                listening.next(Event::Frame(frame)) == (
                    Session::Resetting,
                    Action::PublishAndTearDown(merged),
                )
            } else {
                listening.next(Event::Frame(frame)) == (
                    Session::Listening { candidate, status: merged },
                    Action::Publish(merged),
                )
            }
        }),
        Session::Resetting.next(Event::TornDown) == (Session::Discovering, Action::Enumerate),
{
}

/// Whether the event is a frame with a payload that is well formed.
pub open spec fn is_report_frame(event: Event) -> bool {
    event matches Event::Frame(frame) && frame@.len() > 0 && well_formed(frame@.skip(1))
}

/// The status after the payloads of the frames `events` have been merged into
/// `status`, one after the other, each frame without its report id.
pub open spec fn merged_through(status: Report, events: Seq<Event>) -> Report
    decreases events.len(),
{
    if events.len() == 0 {
        status
    } else {
        merged_through(status, events.drop_last()).merged(events.last()->Frame_0@.skip(1))
    }
}

/// Listening accumulates: after frames with well-formed payloads, none of which
/// brought the reset value, the status of the session is the status it began
/// with, with all the payloads merged into it in their order, and that status
/// is what the last frame published.
pub proof fn lemma_listening_accumulates(candidate: Candidate, status: Report, events: Seq<Event>)
    requires
        forall|i: int| 0 <= i < events.len() ==> is_report_frame(#[trigger] events[i]),
        forall|k: int|
            0 < k <= events.len() ==> (#[trigger] merged_through(status, events.take(k))).power.value
                != POWER_RESET,
    ensures
        (Session::Listening { candidate, status }).run(events) == (Session::Listening {
            candidate,
            status: merged_through(status, events),
        }),
        events.len() > 0 ==> (Session::Listening { candidate, status }).run(
            events.drop_last(),
        ).next(events.last()).1 == Action::Publish(merged_through(status, events)),
    decreases events.len(),
{
    if events.len() > 0 {
        let before = events.drop_last();
        assert forall|k: int| 0 < k <= before.len() implies (#[trigger] merged_through(
            status,
            before.take(k),
        )).power.value != POWER_RESET by {
            assert(before.take(k) =~= events.take(k));
        }
        lemma_listening_accumulates(candidate, status, before);
        assert(is_report_frame(events.last()));
        assert(events.take(events.len() as int) =~= events);
    }
}

/// Listening always starts from the status before any report, whatever an
/// earlier session had gathered.
pub proof fn lemma_listening_starts_fresh(session: Session, event: Event)
    requires
        !(session is Listening),
    ensures
        session.next(event).0 matches Session::Listening { status, .. } ==> status
            == Report::initial(),
{
}

/// When access to the device is denied, the session says that access has to
/// be granted; when it has been granted, the session says so no longer, opens
/// the device again and, once it is open, listens.
pub proof fn lemma_remediation_resumes(candidate: Candidate, needs_install: bool)
    ensures
        ({
            let opening = Session::Opening { candidate, needs_install };
            let (denied, wait) = opening.next(Event::OpenFailed(TransportError::PermissionDenied));
            let (granted, retry) = denied.next(Event::Remediated(true));
            let (listening, listen) = granted.next(Event::Opened);
            &&& denied.signals_install() && wait == Action::AwaitRemediation
            &&& !granted.signals_install() && retry == Action::Open(candidate)
            &&& listening == (Session::Listening { candidate, status: Report::initial() })
            &&& listen == Action::Listen
        }),
{
}

/// A fatal failure ends the session for good.
pub proof fn lemma_fatal_is_final(events: Seq<Event>)
    ensures
        Session::Fatal.run(events) == Session::Fatal,
    decreases events.len(),
{
    if events.len() > 0 {
        lemma_fatal_is_final(events.drop_last());
    }
}

} // verus!
