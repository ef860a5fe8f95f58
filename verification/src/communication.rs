//! The contract between the device layer and the transport-specific discovery
//! backends: the events a backend emits, the errors it reports and the
//! lifecycle every backend offers.

use vstd::prelude::*;
use vstd::string::StringExecFns;

verus! {

/// A tokio multi-producer channel endpoint (`tokio::sync::mpsc::Sender`). It is
/// only carried from a builder to the backend it builds; nothing is claimed
/// about it.
#[verifier::external_type_specification]
#[verifier::external_body]
#[verifier::reject_recursive_types(T)]
pub struct ExEventSender<T>(tokio::sync::mpsc::Sender<T>);

/// What a communication manager tells the device layer.
///
/// `C` is the single-use factory that opens a session with the device that was
/// found. Managers only hand it over; opening the session is up to the
/// receiver.
#[derive(Debug)]
pub enum HardwareCommunicationManagerEvent<C> {
    /// A device was seen. Whether it can be used is still open.
    DeviceFound { name: String, address: String, creator: C },
    /// A scan pass came to its end.
    ScanningFinished,
}

/// A failure inside a native driver, tagged with the backend family that
/// raised it and carrying the driver's own description.
#[derive(Debug, Clone, PartialEq, Eq)]
pub enum HardwareSpecificError {
    XInputError(String),
    BtleplugError(String),
    SerialError(String),
}

impl HardwareSpecificError {
    /// The driver's description, without the family tag.
    pub open spec fn detail(self) -> Seq<char> {
        match self {
            HardwareSpecificError::XInputError(detail) => detail@,
            HardwareSpecificError::BtleplugError(detail) => detail@,
            HardwareSpecificError::SerialError(detail) => detail@,
        }
    }

    /// The text that introduces errors of this family.
    pub open spec fn prefix(self) -> Seq<char> {
        match self {
            HardwareSpecificError::XInputError(_) => "XInput usage error: "@,
            HardwareSpecificError::BtleplugError(_) => "Btleplug error: "@,
            HardwareSpecificError::SerialError(_) => "Serial error: "@,
        }
    }

    /// The human-readable message: the family's prefix, then the detail.
    pub open spec fn message(self) -> Seq<char> {
        self.prefix() + self.detail()
    }

    /// Renders the error for logs and user interfaces.
    pub fn to_string(&self) -> (text: String)
        ensures
            text@ == self.message(),
    {
        match self {
            HardwareSpecificError::XInputError(detail) => String::from_str(
                "XInput usage error: ",
            ).concat(detail.as_str()),
            HardwareSpecificError::BtleplugError(detail) => String::from_str(
                "Btleplug error: ",
            ).concat(detail.as_str()),
            HardwareSpecificError::SerialError(detail) => String::from_str(
                "Serial error: ",
            ).concat(detail.as_str()),
        }
    }
}

/// One call of `start_scanning` or `stop_scanning`, reduced to what it does
/// to the lifecycle of the manager.
pub struct LifecycleStep {
    /// Whether the manager owned a scan before the call.
    pub was_scanning: bool,
    /// Whether the manager owns a scan after the call.
    pub is_scanning: bool,
    /// Whether the call left the manager exactly as it found it.
    pub unchanged: bool,
    /// Whether the call succeeded.
    pub succeeded: bool,
    /// Whether the call handed back work for the scheduler.
    pub handed_back_work: bool,
}

/// What every start is like, whatever the backend.
///
/// While a scan is owned, a start succeeds, hands back no work and leaves the
/// manager as it was. A start that succeeds leaves a scan owned; one that
/// fails hands back no work and leaves the ownership as it was.
pub open spec fn is_start(step: LifecycleStep) -> bool {
    &&& step.was_scanning ==> step.succeeded && step.unchanged && !step.handed_back_work
    &&& step.succeeded ==> step.is_scanning
    &&& !step.succeeded ==> step.is_scanning == step.was_scanning && !step.handed_back_work
    &&& step.unchanged ==> step.is_scanning == step.was_scanning
}

/// What every stop is like, whatever the backend.
///
/// Without a scan to end, a stop succeeds and leaves the manager as it was.
/// A stop that succeeds leaves no scan owned; one that fails leaves the
/// ownership as it was. No stop hands back work.
pub open spec fn is_stop(step: LifecycleStep) -> bool {
    &&& !step.was_scanning ==> step.succeeded && step.unchanged
    &&& step.succeeded ==> !step.is_scanning
    &&& !step.succeeded ==> step.is_scanning == step.was_scanning
    &&& step.unchanged ==> step.is_scanning == step.was_scanning
    &&& !step.handed_back_work
}

/// Starting twice in a row is starting once: after a start that succeeded,
/// the next start succeeds too, hands back no work and leaves the manager
/// exactly as the first start left it.
pub proof fn lemma_start_scanning_is_idempotent(first: LifecycleStep, second: LifecycleStep)
    requires
        is_start(first),
        first.succeeded,
        is_start(second),
        second.was_scanning == first.is_scanning,
    ensures
        second.succeeded,
        second.unchanged,
        !second.handed_back_work,
        second.is_scanning,
{
}

/// Stopping a manager that does not scan succeeds, changes nothing and
/// leaves it not scanning, so that it reports no scan.
pub proof fn lemma_stop_scanning_when_idle(stop: LifecycleStep, status: bool)
    requires
        is_stop(stop),
        !stop.was_scanning,
        status ==> stop.is_scanning,
    ensures
        stop.succeeded,
        stop.unchanged,
        !stop.is_scanning,
        status == false,
{
}

/// The lifecycle that every discovery backend offers, whatever its transport.
///
/// Starting and stopping return at once. A start that has background work to
/// run hands it back as a [`ScanTask`](Self::ScanTask) for the caller's
/// scheduler.
pub trait HardwareCommunicationManager: Send + Sync + Sized {
    /// Background work that a start hands to the scheduler.
    type ScanTask;

    /// Whether the manager currently owns a scan.
    spec fn scanning(&self) -> bool;

    /// The stable identifier of the backend.
    fn name(&self) -> &'static str;

    /// Begins scanning. While a scan is owned this changes nothing and hands
    /// back no work, so a second start in a row has no effect of its own.
    fn start_scanning(&mut self) -> (started: Result<Option<Self::ScanTask>, HardwareSpecificError>)
        ensures
            is_start(
                (LifecycleStep {
                    was_scanning: old(self).scanning(),
                    is_scanning: final(self).scanning(),
                    unchanged: *final(self) == *old(self),
                    succeeded: started is Ok,
                    handed_back_work: started matches Ok(Some(_)),
                }),
            ),
    ;

    /// Ends scanning. Without a scan to end this succeeds and changes nothing.
    fn stop_scanning(&mut self) -> (stopped: Result<(), HardwareSpecificError>)
        ensures
            is_stop(
                (LifecycleStep {
                    was_scanning: old(self).scanning(),
                    is_scanning: final(self).scanning(),
                    unchanged: *final(self) == *old(self),
                    succeeded: stopped is Ok,
                    handed_back_work: false,
                }),
            ),
    ;

    /// Reports whether a scan is owned. Backends that cannot tell report
    /// `false`.
    fn scanning_status(&self) -> (status: bool)
        ensures
            status ==> self.scanning(),
    {
        false
    }

    /// Whether the backend is able to scan at all, as opposed to one that
    /// only takes devices pushed to it from outside.
    fn can_scan(&self) -> bool;
}

/// Builds a backend and binds it, once and for good, to the channel on which
/// all backends report what they discover.
pub trait HardwareCommunicationManagerBuilder: Send {
    /// The session factory that the built backend attaches to its events.
    type Creator;

    /// The backend that is built.
    type Manager: HardwareCommunicationManager;

    fn finish(
        &mut self,
        sender: tokio::sync::mpsc::Sender<HardwareCommunicationManagerEvent<Self::Creator>>,
    ) -> Self::Manager;
}

/// What a backend has to offer to be run by the timed-retry adapter, besides
/// the scan pass itself.
pub trait TimedRetryCommunicationManagerImpl: Sync + Send {
    /// The stable identifier of the backend.
    fn name(&self) -> &'static str;

    /// Whether the backend is able to scan at all.
    fn can_scan(&self) -> bool;
}

} // verus!
