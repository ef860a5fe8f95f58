//! The correlation table: which requests wait for a response, and where each
//! unit of an inbound frame belongs.

use crate::connector::{
    delivery_views, unit_views, ButtplugClientConnectorError, ButtplugClientError, Delivery,
    DeliveryView, InboundUnit, InboundUnitView,
};
use vstd::prelude::*;

verus! {

/// Where a unit belongs while the requests in `pending` wait: a unit without
/// a correlation id is an event, one whose id is waited for answers that
/// request, and one whose id nobody waits for is dropped.
pub open spec fn route_spec(pending: Set<u32>, unit: InboundUnitView) -> DeliveryView {
    match unit.id {
        None => DeliveryView::Event { body: unit.body },
        Some(id) => if pending.contains(id) {
            DeliveryView::Response { id, body: unit.body }
        } else {
            DeliveryView::Dropped { id }
        },
    }
}

/// The requests that still wait once `unit` has been routed: a request is
/// answered at most once.
pub open spec fn pending_after(pending: Set<u32>, unit: InboundUnitView) -> Set<u32> {
    match unit.id {
        None => pending,
        Some(id) => pending.remove(id),
    }
}

/// The correlation ids that the units of a frame carry.
pub open spec fn ids_of(units: Seq<InboundUnitView>) -> Set<u32> {
    Set::new(|id: u32| exists|i: int| 0 <= i < units.len() && #[trigger] units[i].id == Some(id))
}

/// What becomes of the `at`-th unit of a frame that arrives while the
/// requests in `pending` wait: the units before it have been routed, so a
/// request that one of them answered waits no longer.
pub open spec fn route_in_frame_spec(
    pending: Set<u32>,
    units: Seq<InboundUnitView>,
    at: int,
) -> DeliveryView {
    route_spec(pending.difference(ids_of(units.take(at))), units[at])
}

/// Whether `deliveries` is what routing the units of a frame comes to while
/// the requests in `pending` wait: one delivery for each unit, in the frame's
/// order, each as [`route_in_frame_spec`] has it.
pub open spec fn routes_frame(
    pending: Set<u32>,
    units: Seq<InboundUnitView>,
    deliveries: Seq<Delivery>,
) -> bool {
    &&& deliveries.len() == units.len()
    &&& forall|at: int|
        0 <= at < units.len() ==> (#[trigger] deliveries[at])@ == route_in_frame_spec(
            pending,
            units,
            at,
        )
}

/// Whether `delivery` fails one of the requests in `pending` with `error`.
pub open spec fn fails_one_of(
    delivery: DeliveryView,
    pending: Set<u32>,
    error: ButtplugClientError,
) -> bool {
    match delivery {
        DeliveryView::Failure { id, error: with } => with == error && pending.contains(id),
        _ => false,
    }
}

/// Whether `failures` is what closing leaves of the requests in `pending`:
/// one failure for each of them, with `error`, and nothing besides.
pub open spec fn closes_all(
    pending: Set<u32>,
    failures: Seq<Delivery>,
    error: ButtplugClientError,
) -> bool {
    &&& failures.len() == pending.len()
    &&& forall|i: int|
        0 <= i < failures.len() ==> fails_one_of((#[trigger] failures[i])@, pending, error)
    &&& forall|id: u32|
        #![trigger pending.contains(id)]
        #![trigger delivery_views(failures).contains(DeliveryView::Failure { id, error })]
        pending.contains(id) ==> delivery_views(failures).contains(
            DeliveryView::Failure { id, error },
        )
    &&& forall|i: int, j: int|
        0 <= i < j < failures.len() ==> (#[trigger] failures[i])@ != (#[trigger] failures[j])@
}

/// The requests that wait for their response, by correlation id. No id is in
/// the table twice.
pub struct ClientConnectorMessageSorter {
    pending: Vec<u32>,
}

impl View for ClientConnectorMessageSorter {
    type V = Set<u32>;

    /// The ids of the waiting requests.
    closed spec fn view(&self) -> Set<u32> {
        self.pending@.to_set()
    }
}

impl ClientConnectorMessageSorter {
    #[verifier::type_invariant]
    spec fn unique(&self) -> bool {
        self.pending@.no_duplicates()
    }

    /// A table in which nothing waits.
    pub fn new() -> (sorter: Self)
        ensures
            sorter@ == Set::<u32>::empty(),
    {
        let sorter = ClientConnectorMessageSorter { pending: Vec::new() };
        assert(sorter.pending@.to_set() =~= Set::<u32>::empty());
        sorter
    }

    fn take_pending(&mut self) -> (ids: Vec<u32>)
        ensures
            ids@ == old(self).pending@,
            final(self).pending@ == Seq::<u32>::empty(),
    {
        let mut ids: Vec<u32> = Vec::new();
        core::mem::swap(&mut ids, &mut self.pending);
        ids
    }

    fn put_pending(&mut self, ids: Vec<u32>)
        requires
            ids@.no_duplicates(),
        ensures
            final(self).pending@ == ids@,
    {
        let mut ids = ids;
        core::mem::swap(&mut ids, &mut self.pending);
    }

    fn position(&self, id: u32) -> (found: Option<usize>)
        ensures
            found matches Some(at) ==> at < self.pending@.len() && self.pending@[at as int] == id,
            found is None ==> !self.pending@.contains(id),
    {
        let mut at: usize = 0;
        while at < self.pending.len()
            invariant
                at <= self.pending@.len(),
                forall|i: int| 0 <= i < at ==> self.pending@[i] != id,
            decreases self.pending@.len() - at,
        {
            if self.pending[at] == id {
                return Some(at);
            }
            at += 1;
        }
        None
    }

    /// Whether a request with this id waits for its response.
    pub fn is_pending(&self, id: u32) -> (waiting: bool)
        ensures
            waiting == self@.contains(id),
    {
        self.position(id).is_some()
    }

    /// Enters a request that has been sent. Returns whether the id was free;
    /// an id that waits already stays in the table once.
    pub fn register(&mut self, id: u32) -> (fresh: bool)
        ensures
            fresh == !old(self)@.contains(id),
            final(self)@ == old(self)@.insert(id),
    {
        proof {
            use_type_invariant(&*self);
        }
        if self.position(id).is_some() {
            assert(self@.insert(id) =~= self@);
            return false;
        }
        let ghost before = self.pending@;
        let mut ids = self.take_pending();
        ids.push(id);
        proof {
            lemma_push_unique(before, id);
        }
        self.put_pending(ids);
        true
    }

    /// Settles a send once the transport has answered: a request that the
    /// transport took waits under `id` from now on; one that it refused is
    /// not entered and fails with the transport's error.
    pub fn register_sent(
        &mut self,
        id: u32,
        outcome: Result<(), ButtplugClientConnectorError>,
    ) -> (sent: Result<(), ButtplugClientError>)
        ensures
            outcome is Ok ==> sent is Ok && final(self)@ == old(self)@.insert(id),
            outcome matches Err(error) ==> sent == Err::<(), ButtplugClientError>(
                ButtplugClientError::Connector(error),
            ) && final(self)@ == old(self)@,
    {
        match outcome {
            Ok(_) => {
                self.register(id);
                Ok(())
            },
            Err(error) => Err(ButtplugClientError::Connector(error)),
        }
    }

    /// Takes a request out of the table. Returns whether it was waiting.
    pub fn resolve(&mut self, id: u32) -> (waiting: bool)
        ensures
            waiting == old(self)@.contains(id),
            final(self)@ == old(self)@.remove(id),
    {
        proof {
            use_type_invariant(&*self);
        }
        match self.position(id) {
            None => {
                assert(self@.remove(id) =~= self@);
                false
            },
            Some(at) => {
                let ghost before = self.pending@;
                let mut ids = self.take_pending();
                ids.remove(at);
                proof {
                    lemma_remove_unique(before, at as int);
                }
                self.put_pending(ids);
                true
            },
        }
    }

    /// Gives up on a request that got no response in time. A request that was
    /// waiting fails with `error`; one that was not is left alone.
    pub fn expire(&mut self, id: u32, error: ButtplugClientError) -> (failed: Option<Delivery>)
        ensures
            final(self)@ == old(self)@.remove(id),
            old(self)@.contains(id) ==> failed == Some(Delivery::Failure { id, error }),
            !old(self)@.contains(id) ==> failed is None,
    {
        if self.resolve(id) {
            Some(Delivery::Failure { id, error })
        } else {
            None
        }
    }

    /// Decides where one inbound unit belongs and, where it answers a waiting
    /// request, takes that request out of the table.
    pub fn route(&mut self, unit: InboundUnit) -> (delivery: Delivery)
        ensures
            delivery@ == route_spec(old(self)@, unit@),
            final(self)@ == pending_after(old(self)@, unit@),
    {
        match unit.id {
            None => Delivery::Event { body: unit.body },
            Some(id) => {
                if self.resolve(id) {
                    Delivery::Response { id, body: unit.body }
                } else {
                    Delivery::Dropped { id }
                }
            },
        }
    }

    /// Routes the units of one inbound frame, each on its own and in the
    /// frame's order.
    pub fn route_frame(&mut self, units: Vec<InboundUnit>) -> (deliveries: Vec<Delivery>)
        ensures
            routes_frame(old(self)@, unit_views(units@), deliveries@),
            final(self)@ == old(self)@.difference(ids_of(unit_views(units@))),
    {
        let ghost views = unit_views(units@);
        let ghost start = self@;
        let mut deliveries: Vec<Delivery> = Vec::new();
        let mut at: usize = 0;
        proof {
            assert(ids_of(views.take(0)) =~= Set::<u32>::empty());
            assert(start.difference(Set::<u32>::empty()) =~= start);
        }
        while at < units.len()
            invariant
                at <= units@.len(),
                views == unit_views(units@),
                deliveries@.len() == at,
                self@ == start.difference(ids_of(views.take(at as int))),
                forall|k: int|
                    0 <= k < at ==> (#[trigger] deliveries@[k])@ == route_in_frame_spec(
                        start,
                        views,
                        k,
                    ),
            decreases units@.len() - at,
        {
            let unit = InboundUnit { id: units[at].id, body: units[at].body.clone() };
            assert(unit@ == views[at as int]);
            let delivery = self.route(unit);
            deliveries.push(delivery);
            proof {
                lemma_ids_of_take_next(views, at as int);
                assert(self@ =~= start.difference(ids_of(views.take(at as int + 1))));
            }
            at += 1;
        }
        proof {
            assert(views.take(at as int) == views);
        }
        deliveries
    }

    /// Empties the table because the connection is gone: every request that
    /// was waiting fails with `error`, once, and nothing waits afterwards.
    pub fn close(&mut self, error: ButtplugClientError) -> (failures: Vec<Delivery>)
        ensures
            final(self)@ == Set::<u32>::empty(),
            closes_all(old(self)@, failures@, error),
    {
        proof {
            use_type_invariant(&*self);
        }
        let ghost ids = self.pending@;
        let pending = self.take_pending();
        let mut failures: Vec<Delivery> = Vec::new();
        let mut at: usize = 0;
        while at < pending.len()
            invariant
                at <= pending@.len(),
                pending@ == ids,
                failures@.len() == at,
                forall|k: int|
                    0 <= k < at ==> (#[trigger] failures@[k]) == (Delivery::Failure {
                        id: ids[k],
                        error,
                    }),
            decreases pending@.len() - at,
        {
            failures.push(Delivery::Failure { id: pending[at], error });
            at += 1;
        }
        proof {
            assert(self.pending@.to_set() =~= Set::<u32>::empty());
            ids.unique_seq_to_set();
            let views = delivery_views(failures@);
            assert forall|i: int| 0 <= i < failures@.len() implies fails_one_of(
                (#[trigger] failures@[i])@,
                ids.to_set(),
                error,
            ) by {
                assert(ids.contains(ids[i]));
            }
            assert forall|id: u32| ids.to_set().contains(id) implies views.contains(
                DeliveryView::Failure { id, error },
            ) by {
                let k = choose|k: int| 0 <= k < ids.len() && ids[k] == id;
                assert(views[k] == failures@[k]@);
            }
        }
        failures
    }
}

/// A response reaches only the request it belongs to: a unit of a frame is
/// delivered as a response exactly when it carries the id of a request that
/// was waiting when the frame came in and that no earlier unit of the frame
/// has answered, and then under that id and with its own content.
pub proof fn lemma_response_is_correlated(pending: Set<u32>, units: Seq<InboundUnitView>, at: int)
    requires
        0 <= at < units.len(),
    ensures
        route_in_frame_spec(pending, units, at) is Response <==> (units[at].id matches Some(id)
            && pending.contains(id) && forall|earlier: int|
            0 <= earlier < at ==> (#[trigger] units[earlier]).id != Some(id)),
        route_in_frame_spec(pending, units, at) is Response ==> route_in_frame_spec(
            pending,
            units,
            at,
        ) == (DeliveryView::Response { id: units[at].id->0, body: units[at].body }),
{
    let before = units.take(at);
    match units[at].id {
        None => {},
        Some(id) => {
            if ids_of(before).contains(id) {
                let i = choose|i: int| 0 <= i < before.len() && #[trigger] before[i].id == Some(id);
                assert(units[i].id == Some(id));
            } else {
                assert forall|earlier: int| 0 <= earlier < at implies (#[trigger] units[earlier]).id
                    != Some(id) by {
                    if units[earlier].id == Some(id) {
                        assert(before[earlier].id == Some(id));
                    }
                }
            }
        },
    }
}

/// No waiting request is passed over: where a frame carries the id of a
/// request that waits, one of its units is delivered to that request as its
/// response.
pub proof fn lemma_waiting_request_is_answered(
    pending: Set<u32>,
    units: Seq<InboundUnitView>,
    id: u32,
)
    requires
        pending.contains(id),
        ids_of(units).contains(id),
    ensures
        exists|at: int|
            0 <= at < units.len() && units[at].id == Some(id) && #[trigger] route_in_frame_spec(
                pending,
                units,
                at,
            ) is Response,
{
    let some = choose|i: int| 0 <= i < units.len() && #[trigger] units[i].id == Some(id);
    let at = lemma_first_carrier(units, id, some);
    lemma_response_is_correlated(pending, units, at);
    assert(route_in_frame_spec(pending, units, at) is Response);
}

proof fn lemma_first_carrier(units: Seq<InboundUnitView>, id: u32, bound: int) -> (at: int)
    requires
        0 <= bound < units.len(),
        units[bound].id == Some(id),
    ensures
        0 <= at <= bound,
        units[at].id == Some(id),
        forall|earlier: int| 0 <= earlier < at ==> (#[trigger] units[earlier]).id != Some(id),
    decreases bound,
{
    if exists|earlier: int| 0 <= earlier < bound && (#[trigger] units[earlier]).id == Some(id) {
        let earlier = choose|earlier: int|
            0 <= earlier < bound && (#[trigger] units[earlier]).id == Some(id);
        lemma_first_carrier(units, id, earlier)
    } else {
        bound
    }
}

/// A closed connection leaves no request waiting: each request that waited
/// is failed by one of the failures, with the error of the closing, and by
/// no other.
pub proof fn lemma_closing_fails_each_waiting_request_once(
    pending: Set<u32>,
    failures: Seq<Delivery>,
    error: ButtplugClientError,
    id: u32,
)
    requires
        closes_all(pending, failures, error),
        pending.contains(id),
    ensures
        exists|i: int|
            0 <= i < failures.len() && (#[trigger] failures[i])@ == (DeliveryView::Failure {
                id,
                error,
            }) && forall|j: int| 0 <= j < failures.len() && j != i ==> (#[trigger] failures[j])@
                != failures[i]@,
{
    let views = delivery_views(failures);
    let failure = DeliveryView::Failure { id, error };
    assert(views.contains(failure));
    let i = choose|i: int| 0 <= i < views.len() && views[i] == failure;
    assert(failures[i]@ == failure);
    assert forall|j: int| 0 <= j < failures.len() && j != i implies (#[trigger] failures[j])@
        != failures[i]@ by {
        if j < i {
            assert(failures[j]@ != failures[i]@);
        } else {
            assert(failures[i]@ != failures[j]@);
        }
    }
}

/// A request is answered at most once: a unit that carries the id of an
/// earlier unit of the same frame is dropped, whatever was waiting.
pub proof fn lemma_answered_once_per_frame(
    pending: Set<u32>,
    units: Seq<InboundUnitView>,
    first: int,
    later: int,
)
    requires
        0 <= first < later < units.len(),
        units[first].id is Some,
        units[first].id == units[later].id,
    ensures
        route_in_frame_spec(pending, units, later) == (DeliveryView::Dropped {
            id: units[later].id->0,
        }),
{
    assert(units.take(later)[first].id == units[later].id);
}

/// A unit that answers a request which has been answered, has timed out or
/// was never sent goes nowhere: once a unit with an id has been routed,
/// another with the same id is dropped.
pub proof fn lemma_duplicate_is_dropped(
    pending: Set<u32>,
    unit: InboundUnitView,
    again: InboundUnitView,
)
    requires
        unit.id is Some,
        again.id == unit.id,
    ensures
        route_spec(pending_after(pending, unit), again) == (DeliveryView::Dropped {
            id: unit.id->0,
        }),
{
}

/// A unit without a correlation id is an event whatever is waiting, and it
/// leaves the waiting requests alone.
pub proof fn lemma_event_passes_through(pending: Set<u32>, unit: InboundUnitView)
    requires
        unit.id is None,
    ensures
        route_spec(pending, unit) == (DeliveryView::Event { body: unit.body }),
        pending_after(pending, unit) == pending,
{
}

proof fn lemma_push_unique(ids: Seq<u32>, id: u32)
    requires
        ids.no_duplicates(),
        !ids.contains(id),
    ensures
        ids.push(id).no_duplicates(),
        ids.push(id).to_set() == ids.to_set().insert(id),
{
    let more = ids.push(id);
    assert forall|i: int, j: int|
        0 <= i < more.len() && 0 <= j < more.len() && i != j implies more[i] != more[j] by {
        if i < ids.len() {
            assert(ids.contains(ids[i]));
        }
        if j < ids.len() {
            assert(ids.contains(ids[j]));
        }
    }
    assert forall|x: u32| more.to_set().contains(x) implies ids.to_set().insert(id).contains(x) by {
        let k = choose|k: int| 0 <= k < more.len() && more[k] == x;
        if k < ids.len() {
            assert(ids.contains(ids[k]));
        }
    }
    assert forall|x: u32| ids.to_set().insert(id).contains(x) implies more.to_set().contains(x) by {
        if x == id {
            assert(more[ids.len() as int] == id);
        } else {
            let k = choose|k: int| 0 <= k < ids.len() && ids[k] == x;
            assert(more[k] == x);
        }
    }
    assert(more.to_set() =~= ids.to_set().insert(id));
}

proof fn lemma_remove_unique(ids: Seq<u32>, at: int)
    requires
        ids.no_duplicates(),
        0 <= at < ids.len(),
    ensures
        ids.remove(at).no_duplicates(),
        ids.remove(at).to_set() == ids.to_set().remove(ids[at]),
{
    let rest = ids.remove(at);
    assert forall|i: int, j: int|
        0 <= i < rest.len() && 0 <= j < rest.len() && i != j implies rest[i] != rest[j] by {
        let oi = if i < at { i } else { i + 1 };
        let oj = if j < at { j } else { j + 1 };
        assert(rest[i] == ids[oi]);
        assert(rest[j] == ids[oj]);
    }
    assert forall|x: u32| rest.to_set().contains(x) implies ids.to_set().remove(ids[at]).contains(
        x,
    ) by {
        let k = choose|k: int| 0 <= k < rest.len() && rest[k] == x;
        let ok = if k < at { k } else { k + 1 };
        assert(rest[k] == ids[ok]);
        assert(ids.contains(ids[ok]));
    }
    assert forall|x: u32| ids.to_set().remove(ids[at]).contains(x) implies rest.to_set().contains(
        x,
    ) by {
        let k = choose|k: int| 0 <= k < ids.len() && ids[k] == x;
        let nk = if k < at { k } else { k - 1 };
        assert(rest[nk] == x);
    }
    assert(rest.to_set() =~= ids.to_set().remove(ids[at]));
}

proof fn lemma_ids_of_take_next(units: Seq<InboundUnitView>, at: int)
    requires
        0 <= at < units.len(),
    ensures
        ids_of(units.take(at + 1)) == match units[at].id {
            None => ids_of(units.take(at)),
            Some(id) => ids_of(units.take(at)).insert(id),
        },
{
    let shorter = units.take(at);
    let longer = units.take(at + 1);
    let expected = match units[at].id {
        None => ids_of(shorter),
        Some(id) => ids_of(shorter).insert(id),
    };
    assert forall|x: u32| ids_of(longer).contains(x) implies expected.contains(x) by {
        let i = choose|i: int| 0 <= i < longer.len() && #[trigger] longer[i].id == Some(x);
        if i < at {
            assert(shorter[i].id == Some(x));
        }
    }
    assert forall|x: u32| expected.contains(x) implies ids_of(longer).contains(x) by {
        if ids_of(shorter).contains(x) {
            let i = choose|i: int| 0 <= i < shorter.len() && #[trigger] shorter[i].id == Some(x);
            assert(longer[i].id == Some(x));
        } else {
            assert(longer[at].id == Some(x));
        }
    }
    assert(ids_of(longer) =~= expected);
}

} // verus!
