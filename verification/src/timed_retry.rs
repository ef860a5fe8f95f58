//! The adapter that runs a backend's single scan pass as a repeating,
//! cancellable background loop.

use crate::communication::{
    is_start, is_stop, HardwareCommunicationManager, HardwareSpecificError, LifecycleStep,
    TimedRetryCommunicationManagerImpl,
};
use crate::scan_loop::{ScanLoopAction, ScanLoopState};
use std::sync::Arc;
use tokio_util::sync::CancellationToken;
use vstd::prelude::*;

verus! {

/// A cancellation token of tokio-util. Its state is shared with every clone and
/// child and changes behind shared references, so it is carried as an opaque
/// value.
#[verifier::external_type_specification]
#[verifier::external_body]
pub struct ExCancellationToken(tokio_util::sync::CancellationToken);

/// `CancellationToken::new` makes a fresh token. Nothing is claimed about it.
pub assume_specification[ tokio_util::sync::CancellationToken::new ]() -> (token: CancellationToken)
;

/// `CancellationToken::child_token` derives a token that is cancelled together
/// with its parent. Nothing is claimed about it.
pub assume_specification[ tokio_util::sync::CancellationToken::child_token ](
    token: &CancellationToken,
) -> (child: CancellationToken)
;

/// `CancellationToken::cancel` requests cancellation of the token and of the
/// tokens derived from it. It returns nothing and nothing is claimed about it.
pub assume_specification[ tokio_util::sync::CancellationToken::cancel ](token: &CancellationToken)
;

/// What a start of the adapter is like, beyond what every start is like: it
/// never fails, and it hands back a loop to spawn exactly when no scan was
/// owned.
pub open spec fn is_adapter_start(step: LifecycleStep) -> bool {
    &&& is_start(step)
    &&& step.succeeded
    &&& step.handed_back_work == !step.was_scanning
}

/// What a stop of the adapter is like, beyond what every stop is like: it
/// never fails.
pub open spec fn is_adapter_stop(step: LifecycleStep) -> bool {
    &&& is_stop(step)
    &&& step.succeeded
}

/// The background work of one scan: the backend whose passes are to be run and
/// the token that tells the loop to end.
pub struct TimedRetryScanTask<T> {
    pub comm_manager: Arc<T>,
    pub cancellation_token: CancellationToken,
}

/// Runs a backend that only knows how to do one scan pass as a managed scan.
///
/// The adapter is idle while it holds no cancellation token and scanning while
/// it holds one; the token is the only record of that.
pub struct TimedRetryCommunicationManager<T: TimedRetryCommunicationManagerImpl + 'static> {
    comm_manager: Arc<T>,
    cancellation_token: Option<CancellationToken>,
}

impl<T: TimedRetryCommunicationManagerImpl + 'static> TimedRetryCommunicationManager<T> {
    /// The backend that the adapter runs.
    pub closed spec fn backend(&self) -> T {
        *self.comm_manager
    }

    /// Wraps a backend. The adapter starts idle.
    pub fn new(comm_manager: T) -> (manager: Self)
        ensures
            manager.backend() == comm_manager,
            !manager.scanning(),
    {
        Self { comm_manager: Arc::new(comm_manager), cancellation_token: None }
    }
}

impl<T: TimedRetryCommunicationManagerImpl + 'static> HardwareCommunicationManager
    for TimedRetryCommunicationManager<T> {
    type ScanTask = TimedRetryScanTask<T>;

    closed spec fn scanning(&self) -> bool {
        self.cancellation_token is Some
    }

    /// The name that the backend gives itself.
    fn name(&self) -> (name: &'static str)
        ensures
            T::name.ensures((&self.backend(),), name),
    {
        self.comm_manager.name()
    }

    /// Begins a scan unless one is owned already. A new scan gets a fresh
    /// token; the loop to spawn is handed back with a child of it.
    fn start_scanning(&mut self) -> (started: Result<
        Option<TimedRetryScanTask<T>>,
        HardwareSpecificError,
    >)
        ensures
            is_adapter_start(
                (LifecycleStep {
                    was_scanning: old(self).scanning(),
                    is_scanning: final(self).scanning(),
                    unchanged: *final(self) == *old(self),
                    succeeded: started is Ok,
                    handed_back_work: started matches Ok(Some(_)),
                }),
            ),
            final(self).backend() == old(self).backend(),
            !old(self).scanning() ==> (started matches Ok(Some(task)) && *task.comm_manager == old(
                self,
            ).backend()),
    {
        if self.cancellation_token.is_some() {
            return Ok(None);
        }
        let comm_manager = self.comm_manager.clone();
        let token = CancellationToken::new();
        let child_token = token.child_token();
        self.cancellation_token = Some(token);
        Ok(Some(TimedRetryScanTask { comm_manager, cancellation_token: child_token }))
    }

    /// Ends the scan that is owned, if any: its token is cancelled and let go.
    fn stop_scanning(&mut self) -> (stopped: Result<(), HardwareSpecificError>)
        ensures
            is_adapter_stop(
                (LifecycleStep {
                    was_scanning: old(self).scanning(),
                    is_scanning: final(self).scanning(),
                    unchanged: *final(self) == *old(self),
                    succeeded: stopped is Ok,
                    handed_back_work: false,
                }),
            ),
            final(self).backend() == old(self).backend(),
    {
        match self.cancellation_token.take() {
            Some(token) => {
                token.cancel();
            },
            None => {},
        }
        Ok(())
    }

    fn scanning_status(&self) -> (status: bool)
        ensures
            status == self.scanning(),
    {
        self.cancellation_token.is_some()
    }

    /// Whether the backend says that it can scan.
    fn can_scan(&self) -> (able: bool)
        ensures
            T::can_scan.ensures((&self.backend(),), able),
    {
        self.comm_manager.can_scan()
    }
}

/// After a stop the adapter can always be started again, whatever became of
/// the loop it had spawned before: the start that follows a stop succeeds and
/// hands back a fresh loop, and that loop begins with a scan pass.
///
/// The stop is needed. The adapter is not told when its loop ends after a
/// failed pass, so a start without a stop in between finds the scan still
/// owned and hands back nothing.
pub proof fn lemma_start_after_stop_begins_a_fresh_loop(stop: LifecycleStep, start: LifecycleStep)
    requires
        is_adapter_stop(stop),
        is_adapter_start(start),
        start.was_scanning == stop.is_scanning,
    ensures
        start.succeeded,
        start.handed_back_work,
        start.is_scanning,
        ScanLoopState::Scanning.action_spec() == ScanLoopAction::Scan,
{
}

} // verus!
