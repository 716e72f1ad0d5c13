//! The full-mode sampling cycle as an explicit state machine. The native
//! calls — sleeping, taking snapshots, differencing them, parsing, and
//! freeing native objects — are performed by the driving loop outside the
//! library; this module decides, from the current state and the outcome
//! of the last call, what to do next, and owns the paired
//! acquire-and-release discipline: every snapshot and delta is released
//! exactly once, on every path, and releasing a null reference is a
//! no-op.

use vstd::prelude::*;

verus! {

/// A native object reference carried as its raw address, together with
/// whether it has been released; 0 stands for the null reference a failed
/// native call may return.
#[derive(Debug)]
pub struct Handle {
    raw: u64,
    released: bool,
}

impl Handle {
    pub closed spec fn raw_id(self) -> u64 {
        self.raw
    }

    pub closed spec fn is_released(self) -> bool {
        self.released
    }

    pub open spec fn is_null(self) -> bool {
        self.raw_id() == 0
    }

    /// Whether a release of this handle must actually free the native
    /// object: exactly on the first release of a non-null reference.
    pub open spec fn must_free(self) -> bool {
        self.raw_id() != 0 && !self.is_released()
    }

    /// Wraps a raw reference fresh from a native call.
    pub fn new(raw: u64) -> (h: Handle)
        ensures
            h.raw_id() == raw,
            !h.is_released(),
    {
        Handle { raw, released: false }
    }

    /// The raw address, for handing to native accessors.
    pub fn raw(&self) -> (r: u64)
        ensures
            r == self.raw_id(),
    {
        self.raw
    }

    /// Marks the handle released and says whether the caller must free
    /// the native object now.
    pub fn release(&mut self) -> (do_free: bool)
        ensures
            final(self).raw_id() == old(self).raw_id(),
            final(self).is_released(),
            do_free == old(self).must_free(),
    {
        let r = self.raw != 0 && !self.released;
        self.released = true;
        r
    }
}

/// Law: the release of a handle is one-shot and null-safe — a handle
/// already released frees nothing on any further release, and a null
/// handle never frees anything.
pub proof fn lemma_release_discipline(h: Handle)
    ensures
        h.is_released() ==> !h.must_free(),
        h.is_null() ==> !h.must_free(),
{
}

/// Where the cycle stands; the handles it still owns live in the state.
pub enum CycleState {
    /// Waiting for the first snapshot of the cycle.
    Idle,
    /// First snapshot taken and wall timer started; the interval sleep
    /// and the second snapshot come next.
    FirstTaken { first: Handle },
    /// Both snapshots taken; their difference comes next.
    SecondTaken { first: Handle, second: Handle },
    /// Delta computed, both snapshots released; parsing comes next.
    DeltaReady { delta: Handle },
    /// Delta parsed and released; the cycle's record can be emitted.
    Done,
}

/// The outcome of the native call the driving loop just performed.
pub enum CycleEvent {
    /// A snapshot call returned this raw reference (0 on failure).
    SnapshotTaken { raw: u64 },
    /// The delta call returned this raw reference (0 on failure).
    DeltaTaken { raw: u64 },
    /// The delta's contents have been read out for parsing.
    Parsed,
}

/// What the driving loop must do next, in order.
#[derive(Clone, Copy, Debug, PartialEq, Eq, Structural)]
pub enum CycleAction {
    /// Sleep one sampling interval.
    Sleep,
    /// Take a snapshot of the subscription.
    TakeSnapshot,
    /// Difference the two snapshots.
    TakeDelta { first: u64, second: u64 },
    /// Free the native object behind this non-null raw reference.
    FreeNative { raw: u64 },
    /// Read the delta's channels out for parsing.
    Parse { delta: u64 },
    /// Combine and emit this cycle's record, then start the next cycle.
    Emit,
}

/// The free actions one release step emits: one `FreeNative` exactly when
/// the handle still owns a non-null native object, none otherwise.
pub open spec fn release_actions(h: Handle) -> Seq<CycleAction> {
    if h.must_free() {
        seq![CycleAction::FreeNative { raw: h.raw_id() }]
    } else {
        seq![]
    }
}

/// The transition relation of the cycle: what follows `pre` on `event`,
/// and which actions the driving loop is told to perform. An event that
/// does not belong to the current state changes nothing.
pub open spec fn step_ok(
    pre: CycleState,
    event: CycleEvent,
    post: CycleState,
    actions: Seq<CycleAction>,
) -> bool {
    match pre {
        CycleState::Idle => match event {
            CycleEvent::SnapshotTaken { raw } => {
                &&& post matches CycleState::FirstTaken { first } && first.raw_id() == raw
                    && !first.is_released()
                &&& actions == seq![CycleAction::Sleep, CycleAction::TakeSnapshot]
            },
            _ => post == pre && actions.len() == 0,
        },
        CycleState::FirstTaken { first } => match event {
            CycleEvent::SnapshotTaken { raw } => {
                &&& post matches CycleState::SecondTaken { first: f, second } && f == first
                    && second.raw_id() == raw && !second.is_released()
                &&& actions == seq![
                    CycleAction::TakeDelta { first: first.raw_id(), second: raw },
                ]
            },
            _ => post == pre && actions.len() == 0,
        },
        CycleState::SecondTaken { first, second } => match event {
            CycleEvent::DeltaTaken { raw } => {
                &&& post matches CycleState::DeltaReady { delta } && delta.raw_id() == raw
                    && !delta.is_released()
                &&& actions == release_actions(first) + release_actions(second) + seq![
                    CycleAction::Parse { delta: raw },
                ]
            },
            _ => post == pre && actions.len() == 0,
        },
        CycleState::DeltaReady { delta } => match event {
            CycleEvent::Parsed => {
                &&& post == CycleState::Done
                &&& actions == release_actions(delta) + seq![CycleAction::Emit]
            },
            _ => post == pre && actions.len() == 0,
        },
        CycleState::Done => post == pre && actions.len() == 0,
    }
}

/// Starts a cycle: the driving loop's first duty is to take the first
/// snapshot.
pub fn cycle_begin() -> (r: (CycleState, Vec<CycleAction>))
    ensures
        r.0 is Idle,
        r.1@ == seq![CycleAction::TakeSnapshot],
{
    let mut actions: Vec<CycleAction> = Vec::new();
    actions.push(CycleAction::TakeSnapshot);
    proof {
        assert(actions@ =~= seq![CycleAction::TakeSnapshot]);
    }
    (CycleState::Idle, actions)
}

/// Advances the cycle by one native-call outcome.
pub fn cycle_step(state: CycleState, event: CycleEvent) -> (r: (CycleState, Vec<CycleAction>))
    ensures
        step_ok(state, event, r.0, r.1@),
{
    match state {
        CycleState::Idle => match event {
            CycleEvent::SnapshotTaken { raw } => {
                let mut actions: Vec<CycleAction> = Vec::new();
                actions.push(CycleAction::Sleep);
                actions.push(CycleAction::TakeSnapshot);
                proof {
                    assert(actions@ =~= seq![CycleAction::Sleep, CycleAction::TakeSnapshot]);
                }
                (CycleState::FirstTaken { first: Handle::new(raw) }, actions)
            },
            _ => (state, Vec::new()),
        },
        CycleState::FirstTaken { first } => match event {
            CycleEvent::SnapshotTaken { raw } => {
                let mut actions: Vec<CycleAction> = Vec::new();
                actions.push(CycleAction::TakeDelta { first: first.raw(), second: raw });
                proof {
                    assert(actions@ =~= seq![
                        CycleAction::TakeDelta { first: first.raw_id(), second: raw },
                    ]);
                }
                (
                    CycleState::SecondTaken { first, second: Handle::new(raw) },
                    actions,
                )
            },
            _ => (CycleState::FirstTaken { first }, Vec::new()),
        },
        CycleState::SecondTaken { first, second } => match event {
            CycleEvent::DeltaTaken { raw } => {
                let mut first = first;
                let mut second = second;
                let ghost first0 = first;
                let ghost second0 = second;
                let mut actions: Vec<CycleAction> = Vec::new();
                if first.release() {
                    actions.push(CycleAction::FreeNative { raw: first.raw() });
                }
                if second.release() {
                    actions.push(CycleAction::FreeNative { raw: second.raw() });
                }
                actions.push(CycleAction::Parse { delta: raw });
                proof {
                    assert(actions@ =~= release_actions(first0) + release_actions(second0)
                        + seq![CycleAction::Parse { delta: raw }]);
                }
                (CycleState::DeltaReady { delta: Handle::new(raw) }, actions)
            },
            _ => (CycleState::SecondTaken { first, second }, Vec::new()),
        },
        CycleState::DeltaReady { delta } => match event {
            CycleEvent::Parsed => {
                let mut delta = delta;
                let ghost delta0 = delta;
                let mut actions: Vec<CycleAction> = Vec::new();
                if delta.release() {
                    actions.push(CycleAction::FreeNative { raw: delta.raw() });
                }
                actions.push(CycleAction::Emit);
                proof {
                    assert(actions@ =~= release_actions(delta0) + seq![CycleAction::Emit]);
                }
                (CycleState::Done, actions)
            },
            _ => (CycleState::DeltaReady { delta }, Vec::new()),
        },
        CycleState::Done => (state, Vec::new()),
    }
}


/// How many of the actions free the raw reference `r`.
pub open spec fn free_count(actions: Seq<CycleAction>, r: u64) -> int
    decreases actions.len(),
{
    if actions.len() == 0 {
        0
    } else {
        free_count(actions.drop_last(), r) + if actions.last() == (CycleAction::FreeNative {
            raw: r,
        }) {
            1int
        } else {
            0
        }
    }
}

proof fn lemma_free_count_concat(s: Seq<CycleAction>, t: Seq<CycleAction>, r: u64)
    ensures
        free_count(s + t, r) == free_count(s, r) + free_count(t, r),
    decreases t.len(),
{
    if t.len() == 0 {
        assert(s + t =~= s);
    } else {
        lemma_free_count_concat(s, t.drop_last(), r);
        assert((s + t).drop_last() =~= s + t.drop_last());
        assert((s + t).last() == t.last());
    }
}

proof fn lemma_free_count_nofree(s: Seq<CycleAction>, r: u64)
    requires
        forall|i: int| 0 <= i < s.len() ==> !(#[trigger] s[i] is FreeNative),
    ensures
        free_count(s, r) == 0,
    decreases s.len(),
{
    if s.len() > 0 {
        assert forall|i: int| 0 <= i < s.drop_last().len() implies !(#[trigger] s.drop_last()[i]
            is FreeNative) by {
            assert(s.drop_last()[i] == s[i]);
        }
        lemma_free_count_nofree(s.drop_last(), r);
        assert(s.last() == s[s.len() - 1]);
    }
}

proof fn lemma_free_count_release(h: Handle, r: u64)
    ensures
        free_count(release_actions(h), r) == if h.must_free() && h.raw_id() == r {
            1int
        } else {
            0
        },
{
    if h.must_free() {
        let s = release_actions(h);
        assert(s.drop_last() =~= Seq::<CycleAction>::empty());
        assert(free_count(Seq::<CycleAction>::empty(), r) == 0);
        assert(s.last() == (CycleAction::FreeNative { raw: h.raw_id() }));
    }
}

/// Law: over one full cycle — first snapshot, second snapshot, delta,
/// parse — the emitted actions free each native reference at most once
/// and never a null one, whatever raw references the native calls
/// returned. (Three simultaneously live native objects have pairwise
/// distinct addresses unless null, which the hypotheses record.)
pub proof fn lemma_cycle_frees_once(
    s1: CycleState,
    a1: Seq<CycleAction>,
    s2: CycleState,
    a2: Seq<CycleAction>,
    s3: CycleState,
    a3: Seq<CycleAction>,
    s4: CycleState,
    a4: Seq<CycleAction>,
    a_raw: u64,
    b_raw: u64,
    d_raw: u64,
)
    requires
        step_ok(CycleState::Idle, CycleEvent::SnapshotTaken { raw: a_raw }, s1, a1),
        step_ok(s1, CycleEvent::SnapshotTaken { raw: b_raw }, s2, a2),
        step_ok(s2, CycleEvent::DeltaTaken { raw: d_raw }, s3, a3),
        step_ok(s3, CycleEvent::Parsed, s4, a4),
        a_raw == 0 || b_raw == 0 || a_raw != b_raw,
        a_raw == 0 || d_raw == 0 || a_raw != d_raw,
        b_raw == 0 || d_raw == 0 || b_raw != d_raw,
    ensures
        forall|r: u64| free_count(a1 + a2 + a3 + a4, r) <= 1,
        free_count(a1 + a2 + a3 + a4, 0) == 0,
{
    match s1 {
        CycleState::FirstTaken { first } => {
            match s2 {
                CycleState::SecondTaken { first: f2, second } => {
                    match s3 {
                        CycleState::DeltaReady { delta } => {
                            assert forall|r: u64| free_count(a1 + a2 + a3 + a4, r) == (if
                                first.must_free() && first.raw_id() == r {
                                1int
                            } else {
                                0
                            }) + (if second.must_free() && second.raw_id() == r {
                                1int
                            } else {
                                0
                            }) + (if delta.must_free() && delta.raw_id() == r {
                                1int
                            } else {
                                0
                            }) by {
                                lemma_free_count_concat(a1 + a2 + a3, a4, r);
                                lemma_free_count_concat(a1 + a2, a3, r);
                                lemma_free_count_concat(a1, a2, r);
                                lemma_free_count_nofree(a1, r);
                                lemma_free_count_nofree(a2, r);
                                let parse = seq![CycleAction::Parse { delta: d_raw }];
                                lemma_free_count_concat(
                                    release_actions(first) + release_actions(second),
                                    parse,
                                    r,
                                );
                                lemma_free_count_concat(
                                    release_actions(first),
                                    release_actions(second),
                                    r,
                                );
                                lemma_free_count_nofree(parse, r);
                                lemma_free_count_release(first, r);
                                lemma_free_count_release(second, r);
                                let emit = seq![CycleAction::Emit];
                                lemma_free_count_concat(release_actions(delta), emit, r);
                                lemma_free_count_nofree(emit, r);
                                lemma_free_count_release(delta, r);
                            }
                        },
                        _ => {
                            assert(false);
                        },
                    }
                },
                _ => {
                    assert(false);
                },
            }
        },
        _ => {
            assert(false);
        },
    }
}

} // verus!
