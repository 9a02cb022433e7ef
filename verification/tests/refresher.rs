use marketplace::refresher::{Listing, Refresh, RefreshError, RefreshStep, Refresher};

fn run(events: usize, projectors: usize, fail_at: Option<usize>) -> (Vec<(usize, usize)>, Result<(), RefreshError>) {
    let mut notified = Vec::new();
    let mut refresh = match Refresh::start(events, projectors) {
        Ok(r) => r,
        Err(e) => return (notified, Err(e)),
    };
    loop {
        match refresh.next() {
            RefreshStep::Done => return (notified, Ok(())),
            RefreshStep::Notify { event, projector } => {
                notified.push((event, projector));
                let outcome =
                    if Some(notified.len() - 1) == fail_at { Err("projection failed".to_string()) } else { Ok(()) };
                refresh = match refresh.on_notified(outcome) {
                    Ok(r) => r,
                    Err(e) => return (notified, Err(e)),
                };
            },
        }
    }
}

#[test]
fn no_event_found() {
    assert_eq!(run(0, 3, None), (vec![], Err(RefreshError::NoEventFound)));
}

#[test]
fn every_event_goes_to_every_projector_in_order() {
    let (notified, result) = run(2, 3, None);
    assert_eq!(notified, vec![(0, 0), (0, 1), (0, 2), (1, 0), (1, 1), (1, 2)]);
    assert_eq!(result, Ok(()));
}

#[test]
fn refresh_stops_at_first_failure() {
    let (notified, result) = run(2, 2, Some(2));
    assert_eq!(notified, vec![(0, 0), (0, 1), (1, 0)]);
    assert_eq!(result, Err(RefreshError::Projection("projection failed".to_string())));
}

#[test]
fn refresh_without_projectors_is_done() {
    assert_eq!(run(3, 0, None), (vec![], Ok(())));
}

#[test]
fn refresher_holds_its_store_and_projectors() {
    let refresher = Refresher::new("store", vec![1, 2, 3]);
    assert_eq!(*refresher.event_store(), "store");
    assert_eq!(refresher.projectors(), &vec![1, 2, 3]);
}

#[test]
fn begin_with_unparsable_id() {
    assert_eq!(Refresh::begin(Listing::UnparsableId, 2).err(), Some(RefreshError::InvalidId));
}

#[test]
fn begin_with_failing_store() {
    assert_eq!(
        Refresh::begin(Listing::Failed("connection lost".to_string()), 2).err(),
        Some(RefreshError::Store("connection lost".to_string()))
    );
}

#[test]
fn begin_without_events() {
    assert_eq!(Refresh::begin(Listing::Found(0), 2).err(), Some(RefreshError::NoEventFound));
}

#[test]
fn begin_with_events_notifies_first_event_to_first_projector() {
    let refresh = Refresh::begin(Listing::Found(3), 2).ok().unwrap();
    assert_eq!(refresh.next(), RefreshStep::Notify { event: 0, projector: 0 });
}
