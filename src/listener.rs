use vstd::prelude::*;
use crate::config::{NotificationStrategy, NotifierConfig};

verus! {

/// Why ingestion could not start.
#[derive(Clone, Copy, Debug, PartialEq, Eq, Structural)]
pub enum IngestionError {
    /// The user did not grant access to the notifications.
    PermissionDenied,
}

/// Decides, once the access request has been answered, how this run of
/// ingestion goes on: with the configured strategy where access was
/// granted, else with a fatal error (the supervisor asks again on restart).
pub fn ingestion_strategy(access_granted: bool, config: &NotifierConfig) -> (r: Result<NotificationStrategy, IngestionError>)
    ensures
        access_granted ==> r == Ok::<NotificationStrategy, IngestionError>(config.notification_strategy),
        !access_granted ==> r == Err::<NotificationStrategy, IngestionError>(IngestionError::PermissionDenied),
{
    if access_granted {
        Ok(config.notification_strategy)
    } else {
        Err(IngestionError::PermissionDenied)
    }
}

/// The kind of a change reported by the notification subscription.
#[derive(Clone, Copy, Debug, PartialEq, Eq, Structural)]
pub enum ChangeKind {
    Added,
    Removed,
}

/// One change event of the subscription: its kind and the notification's id.
#[derive(Clone, Copy, Debug, PartialEq, Eq, Structural)]
pub struct ChangeEvent {
    pub kind: ChangeKind,
    pub id: u32,
}

/// The id that an event hands on to be fetched: that of an added
/// notification, and none for any other change.
pub open spec fn handed_on(event: ChangeEvent) -> Option<u32> {
    match event.kind {
        ChangeKind::Added => Some(event.id),
        ChangeKind::Removed => None,
    }
}

/// Decides, inside the subscription's callback, whether an event hands an id
/// on to the consuming task: only an added notification does.
pub fn forwarded_id(event: ChangeEvent) -> (r: Option<u32>)
    ensures
        r == handed_on(event),
{
    match event.kind {
        ChangeKind::Added => Some(event.id),
        ChangeKind::Removed => None,
    }
}

/// The ids that `events` hand on, in arrival order.
pub open spec fn handed_on_all(events: Seq<ChangeEvent>) -> Seq<u32>
    decreases events.len(),
{
    if events.len() == 0 {
        Seq::empty()
    } else {
        let rest = handed_on_all(events.drop_last());
        match handed_on(events.last()) {
            Some(id) => rest.push(id),
            None => rest,
        }
    }
}

/// N added events hand on exactly N ids, one for each event, in arrival
/// order.
pub proof fn added_events_all_handed_on(events: Seq<ChangeEvent>)
    requires
        forall|i: int| 0 <= i < events.len() ==> (#[trigger] events[i]).kind == ChangeKind::Added,
    ensures
        handed_on_all(events).len() == events.len(),
        forall|i: int| 0 <= i < events.len() ==> #[trigger] handed_on_all(events)[i] == events[i].id,
    decreases events.len(),
{
    if events.len() > 0 {
        let before = events.drop_last();
        assert forall|i: int| 0 <= i < before.len() implies (#[trigger] before[i]).kind
            == ChangeKind::Added by {
            assert(before[i] == events[i]);
        }
        added_events_all_handed_on(before);
        assert(events[events.len() - 1].kind == ChangeKind::Added);
        assert forall|i: int| 0 <= i < events.len() implies #[trigger] handed_on_all(events)[i]
            == events[i].id by {
            if i < before.len() {
                assert(before[i] == events[i]);
            }
        }
    }
}

} // verus!
