use macy::sampler::{cycle_begin, cycle_step, CycleAction, CycleEvent, CycleState, Handle};

#[test]
fn release_is_one_shot() {
    let mut h = Handle::new(42);
    assert!(h.release());
    // a second release must not free the native object again
    assert!(!h.release());
    assert!(!h.release());
}

#[test]
fn releasing_a_null_handle_is_a_no_op() {
    let mut h = Handle::new(0);
    assert!(!h.release());
}

fn frees(actions: &[CycleAction]) -> Vec<u64> {
    actions
        .iter()
        .filter_map(|a| match a {
            CycleAction::FreeNative { raw } => Some(*raw),
            _ => None,
        })
        .collect()
}

#[test]
fn full_cycle_frees_each_object_exactly_once() {
    let (state, actions) = cycle_begin();
    assert_eq!(actions, vec![CycleAction::TakeSnapshot]);

    let (state, actions) = cycle_step(state, CycleEvent::SnapshotTaken { raw: 11 });
    assert_eq!(actions, vec![CycleAction::Sleep, CycleAction::TakeSnapshot]);
    assert!(frees(&actions).is_empty());

    let (state, actions) = cycle_step(state, CycleEvent::SnapshotTaken { raw: 22 });
    assert_eq!(actions, vec![CycleAction::TakeDelta { first: 11, second: 22 }]);

    let (state, actions) = cycle_step(state, CycleEvent::DeltaTaken { raw: 33 });
    // both snapshots are freed once the delta exists, then parsing starts
    assert_eq!(
        actions,
        vec![
            CycleAction::FreeNative { raw: 11 },
            CycleAction::FreeNative { raw: 22 },
            CycleAction::Parse { delta: 33 },
        ]
    );

    let (state, actions) = cycle_step(state, CycleEvent::Parsed);
    assert_eq!(
        actions,
        vec![CycleAction::FreeNative { raw: 33 }, CycleAction::Emit]
    );
    assert!(matches!(state, CycleState::Done));
}

#[test]
fn null_snapshots_are_never_freed() {
    let (state, _) = cycle_begin();
    let (state, _) = cycle_step(state, CycleEvent::SnapshotTaken { raw: 0 });
    let (state, _) = cycle_step(state, CycleEvent::SnapshotTaken { raw: 0 });
    let (state, actions) = cycle_step(state, CycleEvent::DeltaTaken { raw: 0 });
    assert_eq!(actions, vec![CycleAction::Parse { delta: 0 }]);
    let (_, actions) = cycle_step(state, CycleEvent::Parsed);
    assert_eq!(actions, vec![CycleAction::Emit]);
}

#[test]
fn mismatched_events_change_nothing() {
    let (state, _) = cycle_begin();
    let (state, actions) = cycle_step(state, CycleEvent::Parsed);
    assert!(actions.is_empty());
    let (_, actions) = cycle_step(state, CycleEvent::DeltaTaken { raw: 9 });
    assert!(actions.is_empty());
}
