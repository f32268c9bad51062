//! The stacked state machine: an explicit stack of states with exact
//! lifecycle-hook ordering and transition application.
//!
//! Exactly one state — the top of the stack — receives per-frame and
//! per-event dispatch; states beneath it are suspended but retained.  The
//! machine keeps a journal of every hook dispatch it performs, in order, so
//! that the hook-ordering protocol is part of its observable state: a
//! record — state, hook, outcome — is appended as each hook returns, in
//! invocation order.
//!
//! The contracts below speak of the machine's view — the running flag, the
//! stack of state identities, and the journal — through step relations, one
//! per operation, which pin down both the successful shape and the shapes a
//! failing hook leaves behind.

use vstd::prelude::*;

use crate::events::{Event, GamepadEvent, KeyInput, MouseButton};
use crate::resources::Resources;
use crate::state::{State, StateError, Transition};

verus! {

/// Which hook a journal record stands for.
#[derive(Clone, Copy, Debug, PartialEq, Eq, Structural)]
pub enum HookKind {
    Start,
    Stop,
    Pause,
    Resume,
    Update,
    Event,
    Key,
    Mouse,
    FileDrop,
    Gamepad,
}

/// One hook dispatch the machine performed: which state, which hook, and
/// whether the hook returned success.  Records stand in invocation order;
/// each is appended to the journal as its hook returns, so a failing hook
/// is told apart from a later operation that failed.
#[derive(Clone, Copy, Debug, PartialEq, Eq, Structural)]
pub struct HookRecord {
    pub state: u64,
    pub hook: HookKind,
    pub ok: bool,
}

/// Shorthand for a journal record.
pub open spec fn rec(state: u64, hook: HookKind, ok: bool) -> HookRecord {
    HookRecord { state, hook, ok }
}

/// The mathematical view of the state machine: the running flag, the stack
/// of state identities (bottom first), and the dispatch journal.
#[verifier::ext_equal]
pub struct MachineView {
    pub running: bool,
    pub ids: Seq<u64>,
    pub journal: Seq<HookRecord>,
}

/// The ghost label of a transition request: the request with each carried
/// state replaced by its identity.
#[derive(Clone, Copy, Debug, PartialEq, Eq, Structural)]
pub enum TransitionLabel {
    Stay,
    Pop,
    Push(u64),
    Switch(u64),
    Quit,
}

/// The label of a transition request.
pub open spec fn label_of<S: State>(t: Transition<S>) -> TransitionLabel {
    match t {
        Transition::Stay => TransitionLabel::Stay,
        Transition::Pop => TransitionLabel::Pop,
        Transition::Push(s) => TransitionLabel::Push(s.sid()),
        Transition::Switch(s) => TransitionLabel::Switch(s.sid()),
        Transition::Quit => TransitionLabel::Quit,
    }
}

/// `start` on a running machine is a no-op; on a stopped machine it
/// dispatches `on_start` to the top state and sets the running flag exactly
/// when that hook succeeds.
pub open spec fn start_step(pre: MachineView, post: MachineView, r: Result<(), StateError>) -> bool {
    if pre.running {
        post == pre && r is Ok
    } else if pre.ids.len() == 0 {
        post == pre && r == Err::<(), StateError>(StateError::EmptyStack)
    } else {
        &&& post.ids == pre.ids
        &&& post.journal == pre.journal.push(rec(pre.ids.last(), HookKind::Start, r is Ok))
        &&& post.running == r is Ok
    }
}

/// `Push(B)` from a stack with top A dispatches `A.on_pause` strictly
/// before `B.on_start`, and B ends on top of A.  If `on_pause` fails — its
/// record says so — the stack is unchanged and B is discarded; otherwise B
/// is on the stack and the result is `on_start`'s own outcome.
pub open spec fn push_step(
    pre: MachineView,
    post: MachineView,
    id: u64,
    r: Result<(), StateError>,
) -> bool {
    let pause_failed = pre.ids.len() > 0 && r is Err && post == (MachineView {
        running: pre.running,
        ids: pre.ids,
        journal: pre.journal.push(rec(pre.ids.last(), HookKind::Pause, false)),
    });
    let paused = if pre.ids.len() > 0 {
        pre.journal.push(rec(pre.ids.last(), HookKind::Pause, true))
    } else {
        pre.journal
    };
    let started = MachineView {
        running: pre.running,
        ids: pre.ids.push(id),
        journal: paused.push(rec(id, HookKind::Start, r is Ok)),
    };
    pause_failed || post == started
}

/// `Pop` removes the top state, dispatches its `on_stop` strictly before
/// `on_resume` of the state beneath it, and clears the running flag when
/// the popped state was the last one.
pub open spec fn pop_step(pre: MachineView, post: MachineView, r: Result<(), StateError>) -> bool {
    if pre.ids.len() == 0 {
        post == (MachineView { running: false, ..pre }) && r is Ok
    } else {
        let ids2 = pre.ids.drop_last();
        let stop_failed = r is Err && post == (MachineView {
            running: pre.running,
            ids: ids2,
            journal: pre.journal.push(rec(pre.ids.last(), HookKind::Stop, false)),
        });
        let stopped = pre.journal.push(rec(pre.ids.last(), HookKind::Stop, true));
        if pre.ids.len() == 1 {
            stop_failed || (r is Ok && post == (MachineView {
                running: false,
                ids: ids2,
                journal: stopped,
            }))
        } else {
            stop_failed || post == (MachineView {
                running: pre.running,
                ids: ids2,
                journal: stopped.push(rec(ids2.last(), HookKind::Resume, r is Ok)),
            })
        }
    }
}

/// `Switch(C)` from a stack with top A dispatches `A.on_stop` strictly
/// before `C.on_start` — no pause, no resume — and C takes A's slot.
pub open spec fn switch_step(
    pre: MachineView,
    post: MachineView,
    id: u64,
    r: Result<(), StateError>,
) -> bool {
    let ids2 = if pre.ids.len() > 0 {
        pre.ids.drop_last()
    } else {
        pre.ids
    };
    let stop_failed = pre.ids.len() > 0 && r is Err && post == (MachineView {
        running: pre.running,
        ids: ids2,
        journal: pre.journal.push(rec(pre.ids.last(), HookKind::Stop, false)),
    });
    let stopped = if pre.ids.len() > 0 {
        pre.journal.push(rec(pre.ids.last(), HookKind::Stop, true))
    } else {
        pre.journal
    };
    let swapped = MachineView {
        running: pre.running,
        ids: ids2.push(id),
        journal: stopped.push(rec(id, HookKind::Start, r is Ok)),
    };
    stop_failed || post == swapped
}

/// The successful `on_stop` records of a drain: one per state, top of the
/// stack first.
pub open spec fn stops_of(ids: Seq<u64>) -> Seq<HookRecord> {
    Seq::new(ids.len(), |i: int| rec(ids[ids.len() - 1 - i], HookKind::Stop, true))
}

/// The shape a drain leaves behind when the `on_stop` of the state `k`
/// places below the top failed: the k states above it stopped cleanly and
/// are gone, its own failing stop is the journal's last record, it is gone
/// too, and the running flag is untouched.
pub open spec fn quit_stopped_at(pre: MachineView, post: MachineView, k: int) -> bool {
    post == (MachineView {
        running: pre.running,
        ids: pre.ids.take(pre.ids.len() - 1 - k),
        journal: pre.journal + stops_of(pre.ids).take(k) + seq![
            rec(pre.ids[pre.ids.len() - 1 - k], HookKind::Stop, false),
        ],
    })
}

/// `Quit` drains the whole stack top-down, dispatching `on_stop` to each
/// state in turn, then clears the running flag.  A failing `on_stop` leaves
/// the partially drained stack with the running flag untouched.
pub open spec fn quit_step(pre: MachineView, post: MachineView, r: Result<(), StateError>) -> bool {
    if r is Ok {
        post == (MachineView {
            running: false,
            ids: Seq::<u64>::empty(),
            journal: pre.journal + stops_of(pre.ids),
        })
    } else {
        exists|k: int| 0 <= k < pre.ids.len() && #[trigger] quit_stopped_at(pre, post, k)
    }
}

/// Application of one transition request to a running machine.
pub open spec fn transition_step(
    pre: MachineView,
    post: MachineView,
    label: TransitionLabel,
    r: Result<(), StateError>,
) -> bool {
    match label {
        TransitionLabel::Stay => post == pre && r is Ok,
        TransitionLabel::Pop => pop_step(pre, post, r),
        TransitionLabel::Push(id) => push_step(pre, post, id, r),
        TransitionLabel::Switch(id) => switch_step(pre, post, id, r),
        TransitionLabel::Quit => quit_step(pre, post, r),
    }
}

/// A dispatching operation (`update`, `handle_event`): a no-op unless the
/// machine runs and has a state; otherwise the hook is dispatched to the
/// top state and the transition it returned is applied.  A failing hook —
/// its record says so — leaves everything but the journal unchanged; the
/// applied transition is existentially quantified because the hook chooses
/// it.
pub open spec fn dispatch_step(
    pre: MachineView,
    post: MachineView,
    kind: HookKind,
    r: Result<(), StateError>,
) -> bool {
    if !pre.running || pre.ids.len() == 0 {
        post == pre && r is Ok
    } else {
        let hook_failed = r is Err && post == (MachineView {
            running: pre.running,
            ids: pre.ids,
            journal: pre.journal.push(rec(pre.ids.last(), kind, false)),
        });
        let mid = MachineView {
            running: pre.running,
            ids: pre.ids,
            journal: pre.journal.push(rec(pre.ids.last(), kind, true)),
        };
        hook_failed || exists|label: TransitionLabel|
            #[trigger] transition_step(mid, post, label, r)
    }
}

/// A forwarding operation (`forward_key` and friends): the hook is
/// dispatched to the top state — running or not — and the transition it
/// returns is discarded; an empty stack is an error.
pub open spec fn forward_step(
    pre: MachineView,
    post: MachineView,
    kind: HookKind,
    r: Result<(), StateError>,
) -> bool {
    if pre.ids.len() == 0 {
        post == pre && r == Err::<(), StateError>(StateError::EmptyStack)
    } else {
        &&& post.running == pre.running
        &&& post.ids == pre.ids
        &&& post.journal == pre.journal.push(rec(pre.ids.last(), kind, r is Ok))
    }
}

/// The hooks a transition application can dispatch.
pub open spec fn lifecycle_hooks() -> Set<HookKind> {
    set![HookKind::Start, HookKind::Stop, HookKind::Pause, HookKind::Resume]
}

/// The journal grew — old records untouched — and every added record
/// stands for one of the given hooks.
pub open spec fn journal_extends_with(
    pre: MachineView,
    post: MachineView,
    kinds: Set<HookKind>,
) -> bool {
    &&& pre.journal.len() <= post.journal.len()
    &&& (forall|j: int| 0 <= j < pre.journal.len() ==> (#[trigger] post.journal[j]) == pre.journal[j])
    &&& (forall|j: int|
        pre.journal.len() <= j < post.journal.len() ==> kinds.contains(
            (#[trigger] post.journal[j]).hook,
        ))
}

/// Exactly one record added between `pre` and `post` stands for the hook.
pub open spec fn dispatched_once(pre: MachineView, post: MachineView, kind: HookKind) -> bool {
    exists|j: int|
        {
            &&& pre.journal.len() <= j < post.journal.len()
            &&& (#[trigger] post.journal[j]).hook == kind
            &&& (forall|i: int|
                pre.journal.len() <= i < post.journal.len() && i != j ==> (
                #[trigger] post.journal[i]).hook != kind)
        }
}

/// No record added between `pre` and `post` stands for the hook.
pub open spec fn not_dispatched(pre: MachineView, post: MachineView, kind: HookKind) -> bool {
    forall|j: int|
        pre.journal.len() <= j < post.journal.len() ==> (#[trigger] post.journal[j]).hook != kind
}

/// Journal extension composes, into any common set of hooks.
pub proof fn lemma_extends_trans(
    a: MachineView,
    b: MachineView,
    c: MachineView,
    k1: Set<HookKind>,
    k2: Set<HookKind>,
    k: Set<HookKind>,
)
    requires
        journal_extends_with(a, b, k1),
        journal_extends_with(b, c, k2),
        k1.subset_of(k),
        k2.subset_of(k),
    ensures
        journal_extends_with(a, c, k),
{
    assert forall|j: int| a.journal.len() <= j < c.journal.len() implies k.contains(
        (#[trigger] c.journal[j]).hook,
    ) by {
        if j < b.journal.len() {
            assert(c.journal[j] == b.journal[j]);
            assert(k1.contains(b.journal[j].hook));
        } else {
            assert(k2.contains(c.journal[j].hook));
        }
    }
}

/// A segment that adds no record of a hook dispatches that hook not at
/// all.
pub proof fn lemma_extends_not_dispatched(
    a: MachineView,
    b: MachineView,
    k: Set<HookKind>,
    kind: HookKind,
)
    requires
        journal_extends_with(a, b, k),
        !k.contains(kind),
    ensures
        not_dispatched(a, b, kind),
{
}

/// A dispatch framed by segments that add no record of the hook is the
/// suffix's one dispatch of it.
pub proof fn lemma_dispatched_once_framed(
    s0: MachineView,
    s1: MachineView,
    s2: MachineView,
    s3: MachineView,
    kind: HookKind,
    k1: Set<HookKind>,
    k2: Set<HookKind>,
    k3: Set<HookKind>,
)
    requires
        journal_extends_with(s0, s1, k1),
        !k1.contains(kind),
        journal_extends_with(s1, s2, k2),
        dispatched_once(s1, s2, kind),
        journal_extends_with(s2, s3, k3),
        !k3.contains(kind),
    ensures
        dispatched_once(s0, s3, kind),
{
    let j = choose|j: int|
        {
            &&& s1.journal.len() <= j < s2.journal.len()
            &&& (#[trigger] s2.journal[j]).hook == kind
            &&& (forall|i: int|
                s1.journal.len() <= i < s2.journal.len() && i != j ==> (
                #[trigger] s2.journal[i]).hook != kind)
        };
    assert(s3.journal[j] == s2.journal[j]);
    assert forall|i: int|
        s0.journal.len() <= i < s3.journal.len() && i != j implies (#[trigger] s3.journal[i]).hook
        != kind by {
        if i < s1.journal.len() {
            assert(s3.journal[i] == s2.journal[i]);
            assert(s2.journal[i] == s1.journal[i]);
            assert(k1.contains(s1.journal[i].hook));
        } else if i < s2.journal.len() {
            assert(s3.journal[i] == s2.journal[i]);
            assert(s2.journal[i].hook != kind);
        } else {
            assert(k3.contains(s3.journal[i].hook));
        }
    }
}

/// The stacked state machine.
pub struct StateMachine<S: State> {
    running: bool,
    states: Vec<S>,
    journal: Vec<HookRecord>,
}

impl<S: State> View for StateMachine<S> {
    type V = MachineView;

    closed spec fn view(&self) -> MachineView {
        MachineView {
            running: self.running,
            ids: StateMachine::<S>::ids_of(self.states@),
            journal: self.journal@,
        }
    }
}

impl<S: State> StateMachine<S> {
    /// The identities of a stack of states, bottom first.
    pub open spec fn ids_of(states: Seq<S>) -> Seq<u64> {
        states.map(|i: int, s: S| s.sid())
    }

    proof fn lemma_ids_update_same_sid(states: Seq<S>, i: int, s: S)
        requires
            0 <= i < states.len(),
            s.sid() == states[i].sid(),
        ensures
            Self::ids_of(states.update(i, s)) == Self::ids_of(states),
    {
        assert(Self::ids_of(states.update(i, s)) =~= Self::ids_of(states));
    }

    proof fn lemma_ids_push(states: Seq<S>, s: S)
        ensures
            Self::ids_of(states.push(s)) == Self::ids_of(states).push(s.sid()),
    {
        assert(Self::ids_of(states.push(s)) =~= Self::ids_of(states).push(s.sid()));
    }

    proof fn lemma_ids_drop_last(states: Seq<S>)
        requires
            states.len() > 0,
        ensures
            Self::ids_of(states.drop_last()) == Self::ids_of(states).drop_last(),
    {
        assert(Self::ids_of(states.drop_last()) =~= Self::ids_of(states).drop_last());
    }

    proof fn lemma_ids_take(states: Seq<S>, m: int)
        requires
            0 <= m <= states.len(),
        ensures
            Self::ids_of(states.take(m)) == Self::ids_of(states).take(m),
    {
        assert(Self::ids_of(states.take(m)) =~= Self::ids_of(states).take(m));
    }

    /// A machine starts with exactly its initial state on the stack, not
    /// yet running, with an empty journal.
    pub fn new(initial_state: S) -> (r: StateMachine<S>)
        ensures
            r@ == (MachineView {
                running: false,
                ids: seq![initial_state.sid()],
                journal: Seq::<HookRecord>::empty(),
            }),
    {
        let mut states: Vec<S> = Vec::new();
        states.push(initial_state);
        let machine = StateMachine { running: false, states, journal: Vec::new() };
        proof {
            assert(machine@.ids =~= seq![initial_state.sid()]);
            assert(machine@ =~= (MachineView {
                running: false,
                ids: seq![initial_state.sid()],
                journal: Seq::<HookRecord>::empty(),
            }));
        }
        machine
    }

    /// Whether the machine is running.
    pub fn is_running(&self) -> (r: bool)
        ensures
            r == self@.running,
    {
        self.running
    }

    /// How many states the stack holds.
    pub fn depth(&self) -> (r: usize)
        ensures
            r == self@.ids.len(),
    {
        self.states.len()
    }

    /// The dispatch journal: every hook dispatch performed so far, in
    /// order.
    pub fn journal(&self) -> (r: &Vec<HookRecord>)
        ensures
            r@ == self@.journal,
    {
        &self.journal
    }

    /// The top of the stack; fails with the empty-stack error when no state
    /// is present.
    pub fn current_state(&self) -> (r: Result<&S, StateError>)
        ensures
            self@.ids.len() == 0 ==> r == Err::<&S, StateError>(StateError::EmptyStack),
            self@.ids.len() > 0 ==> (r matches Ok(st) && st.sid() == self@.ids.last()),
    {
        let len = self.states.len();
        if len == 0 {
            Err(StateError::EmptyStack)
        } else {
            Ok(&self.states[len - 1])
        }
    }

    /// Start the machine: a no-op when already running, otherwise dispatch
    /// `on_start` to the top state and set the running flag exactly when
    /// the hook succeeds.  Idempotent.
    pub fn start(&mut self, resources: &mut Resources) -> (r: Result<(), StateError>)
        requires
            old(resources).wf(),
        ensures
            final(resources).wf(),
            start_step(old(self)@, final(self)@, r),
            journal_extends_with(old(self)@, final(self)@, set![HookKind::Start]),
            old(self)@.running || old(self)@.ids.len() == 0 ==> *final(resources) == *old(
                resources,
            ),
    {
        if self.running {
            return Ok(());
        }
        let len = self.states.len();
        if len == 0 {
            return Err(StateError::EmptyStack);
        }
        let id = self.states[len - 1].id();
        let st = &mut self.states[len - 1];
        let res = st.on_start(resources);
        proof {
            Self::lemma_ids_update_same_sid(
                old(self).states@,
                len - 1,
                self.states@[len - 1],
            );
        }
        match res {
            Ok(()) => {
                self.journal.push(HookRecord { state: id, hook: HookKind::Start, ok: true });
                self.running = true;
                Ok(())
            },
            Err(e) => {
                self.journal.push(HookRecord { state: id, hook: HookKind::Start, ok: false });
                Err(e)
            },
        }
    }

    /// Push a state: pause the current top, put the new state on top of it,
    /// start it.  The paused state remains on the stack beneath.
    fn push(&mut self, state: S, resources: &mut Resources) -> (r: Result<(), StateError>)
        requires
            old(resources).wf(),
        ensures
            final(resources).wf(),
            push_step(old(self)@, final(self)@, state.sid(), r),
            journal_extends_with(
                old(self)@,
                final(self)@,
                set![HookKind::Pause, HookKind::Start],
            ),
    {
        let len = self.states.len();
        if len > 0 {
            let id = self.states[len - 1].id();
            let st = &mut self.states[len - 1];
            let res = st.on_pause(resources);
            proof {
                Self::lemma_ids_update_same_sid(old(self).states@, len - 1, self.states@[len - 1]);
            }
            match res {
                Ok(()) => {
                    self.journal.push(HookRecord { state: id, hook: HookKind::Pause, ok: true });
                },
                Err(e) => {
                    self.journal.push(HookRecord { state: id, hook: HookKind::Pause, ok: false });
                    return Err(e);
                },
            }
        }
        let new_id = state.id();
        let ghost mid_states = self.states@;
        self.states.push(state);
        proof {
            Self::lemma_ids_push(mid_states, state);
        }
        let len2 = self.states.len();
        let st = &mut self.states[len2 - 1];
        let res2 = st.on_start(resources);
        proof {
            Self::lemma_ids_update_same_sid(
                mid_states.push(state),
                len2 - 1,
                self.states@[len2 - 1],
            );
        }
        match res2 {
            Ok(()) => {
                self.journal.push(HookRecord { state: new_id, hook: HookKind::Start, ok: true });
                Ok(())
            },
            Err(e) => {
                self.journal.push(HookRecord { state: new_id, hook: HookKind::Start, ok: false });
                Err(e)
            },
        }
    }

    /// Pop the top state: stop it, then resume the state beneath it; when
    /// none remains, clear the running flag.
    fn pop(&mut self, resources: &mut Resources) -> (r: Result<(), StateError>)
        requires
            old(resources).wf(),
        ensures
            final(resources).wf(),
            pop_step(old(self)@, final(self)@, r),
            journal_extends_with(
                old(self)@,
                final(self)@,
                set![HookKind::Stop, HookKind::Resume],
            ),
    {
        let popped = self.states.pop();
        match popped {
            Some(mut top) => {
                let id = top.id();
                let res = top.on_stop(resources);
                proof {
                    Self::lemma_ids_drop_last(old(self).states@);
                }
                match res {
                    Ok(()) => {
                        self.journal.push(
                            HookRecord { state: id, hook: HookKind::Stop, ok: true },
                        );
                    },
                    Err(e) => {
                        self.journal.push(
                            HookRecord { state: id, hook: HookKind::Stop, ok: false },
                        );
                        return Err(e);
                    },
                }
                let len = self.states.len();
                if len > 0 {
                    let rid = self.states[len - 1].id();
                    let ghost mid_states = self.states@;
                    let st = &mut self.states[len - 1];
                    let res2 = st.on_resume(resources);
                    proof {
                        Self::lemma_ids_update_same_sid(mid_states, len - 1, self.states@[len - 1]);
                    }
                    match res2 {
                        Ok(()) => {
                            self.journal.push(
                                HookRecord { state: rid, hook: HookKind::Resume, ok: true },
                            );
                            Ok(())
                        },
                        Err(e) => {
                            self.journal.push(
                                HookRecord { state: rid, hook: HookKind::Resume, ok: false },
                            );
                            Err(e)
                        },
                    }
                } else {
                    self.running = false;
                    Ok(())
                }
            },
            None => {
                self.running = false;
                Ok(())
            },
        }
    }

    /// Switch the top state: stop it — no pause — and start the new state
    /// in its slot.  States beneath are untouched and never resumed.
    fn switch(&mut self, state: S, resources: &mut Resources) -> (r: Result<(), StateError>)
        requires
            old(resources).wf(),
        ensures
            final(resources).wf(),
            switch_step(old(self)@, final(self)@, state.sid(), r),
            journal_extends_with(
                old(self)@,
                final(self)@,
                set![HookKind::Stop, HookKind::Start],
            ),
    {
        let popped = self.states.pop();
        match popped {
            Some(mut top) => {
                let id = top.id();
                let res = top.on_stop(resources);
                proof {
                    Self::lemma_ids_drop_last(old(self).states@);
                }
                match res {
                    Ok(()) => {
                        self.journal.push(
                            HookRecord { state: id, hook: HookKind::Stop, ok: true },
                        );
                    },
                    Err(e) => {
                        self.journal.push(
                            HookRecord { state: id, hook: HookKind::Stop, ok: false },
                        );
                        return Err(e);
                    },
                }
            },
            None => {},
        }
        let new_id = state.id();
        let ghost mid_states = self.states@;
        self.states.push(state);
        proof {
            Self::lemma_ids_push(mid_states, state);
        }
        let len2 = self.states.len();
        let st = &mut self.states[len2 - 1];
        let res2 = st.on_start(resources);
        proof {
            Self::lemma_ids_update_same_sid(
                mid_states.push(state),
                len2 - 1,
                self.states@[len2 - 1],
            );
        }
        match res2 {
            Ok(()) => {
                self.journal.push(HookRecord { state: new_id, hook: HookKind::Start, ok: true });
                Ok(())
            },
            Err(e) => {
                self.journal.push(HookRecord { state: new_id, hook: HookKind::Start, ok: false });
                Err(e)
            },
        }
    }

    /// Drain the whole stack top-down, stopping each state in turn, then
    /// clear the running flag.  A no-op when the machine is not running.
    pub fn stop(&mut self, resources: &mut Resources) -> (r: Result<(), StateError>)
        requires
            old(resources).wf(),
        ensures
            final(resources).wf(),
            !old(self)@.running ==> final(self)@ == old(self)@ && r is Ok && *final(resources)
                == *old(resources),
            old(self)@.running ==> quit_step(old(self)@, final(self)@, r),
            journal_extends_with(old(self)@, final(self)@, set![HookKind::Stop]),
    {
        if !self.running {
            return Ok(());
        }
        let ghost orig_states = self.states@;
        let ghost orig_journal = self.journal@;
        proof {
            assert(self.states@ =~= orig_states.take(self.states@.len() as int));
            assert(self.journal@ =~= orig_journal + stops_of(Self::ids_of(orig_states)).take(0));
        }
        while self.states.len() > 0
            invariant
                resources.wf(),
                orig_states == old(self).states@,
                orig_journal == old(self).journal@,
                old(self)@.running,
                self.running == old(self).running,
                self.states@.len() <= orig_states.len(),
                self.states@ == orig_states.take(self.states@.len() as int),
                self.journal@ == orig_journal + stops_of(Self::ids_of(orig_states)).take(
                    orig_states.len() - self.states@.len(),
                ),
            decreases self.states.len(),
        {
            let ghost n = self.states@.len() as int;
            let popped = self.states.pop();
            match popped {
                Some(mut top) => {
                    proof {
                        Self::lemma_ids_take(orig_states, n);
                        assert(top.sid() == Self::ids_of(orig_states)[n - 1]);
                        assert(orig_states.take(n).drop_last() =~= orig_states.take(n - 1));
                        Self::lemma_ids_take(orig_states, n - 1);
                    }
                    let id = top.id();
                    let res = top.on_stop(resources);
                    match res {
                        Ok(()) => {
                            self.journal.push(
                                HookRecord { state: id, hook: HookKind::Stop, ok: true },
                            );
                            proof {
                                let stops = stops_of(Self::ids_of(orig_states));
                                assert(stops[orig_states.len() - n] == rec(
                                    id,
                                    HookKind::Stop,
                                    true,
                                ));
                                assert((orig_journal + stops.take(orig_states.len() - n)).push(
                                    rec(id, HookKind::Stop, true),
                                ) =~= orig_journal + stops.take(orig_states.len() - n + 1));
                            }
                        },
                        Err(e) => {
                            self.journal.push(
                                HookRecord { state: id, hook: HookKind::Stop, ok: false },
                            );
                            proof {
                                let stops = stops_of(Self::ids_of(orig_states));
                                let k = orig_states.len() - n;
                                assert(old(self)@.ids == Self::ids_of(orig_states));
                                assert(self@.ids == Self::ids_of(orig_states).take(n - 1));
                                assert(self@.journal =~= orig_journal + stops.take(k) + seq![
                                    rec(id, HookKind::Stop, false),
                                ]);
                                assert(quit_stopped_at(old(self)@, self@, k));
                                assert forall|j: int|
                                    orig_journal.len() <= j < self@.journal.len() implies set![
                                    HookKind::Stop,
                                ].contains((#[trigger] self@.journal[j]).hook) by {
                                    if j < orig_journal.len() + k {
                                        assert(self@.journal[j] == stops[j - orig_journal.len()]);
                                    }
                                }
                            }
                            return Err(e);
                        },
                    }
                },
                None => {},
            }
        }
        self.running = false;
        proof {
            let stops = stops_of(Self::ids_of(orig_states));
            assert(stops.take(orig_states.len() as int) =~= stops);
            assert(self@.ids =~= Seq::<u64>::empty());
            assert forall|j: int|
                orig_journal.len() <= j < self@.journal.len() implies set![
                HookKind::Stop,
            ].contains((#[trigger] self@.journal[j]).hook) by {
                assert(self@.journal[j] == stops[j - orig_journal.len()]);
            }
        }
        Ok(())
    }

    /// Apply one transition request: a no-op unless the machine is
    /// running, otherwise exactly one of the five instructions.
    pub fn transition(&mut self, request: Transition<S>, resources: &mut Resources) -> (r: Result<
        (),
        StateError,
    >)
        requires
            old(resources).wf(),
        ensures
            final(resources).wf(),
            !old(self)@.running ==> final(self)@ == old(self)@ && r is Ok && *final(resources)
                == *old(resources),
            old(self)@.running ==> transition_step(old(self)@, final(self)@, label_of(request), r),
            journal_extends_with(old(self)@, final(self)@, lifecycle_hooks()),
    {
        if !self.running {
            return Ok(());
        }
        match request {
            Transition::Stay => Ok(()),
            Transition::Pop => self.pop(resources),
            Transition::Push(state) => self.push(state, resources),
            Transition::Switch(state) => self.switch(state, resources),
            Transition::Quit => self.stop(resources),
        }
    }

    /// Per-frame dispatch: invoke the top state's `update` and apply the
    /// transition it returns.  A no-op when the machine is not running.
    pub fn update(&mut self, resources: &mut Resources) -> (r: Result<(), StateError>)
        requires
            old(resources).wf(),
        ensures
            final(resources).wf(),
            dispatch_step(old(self)@, final(self)@, HookKind::Update, r),
            journal_extends_with(
                old(self)@,
                final(self)@,
                lifecycle_hooks().insert(HookKind::Update),
            ),
            old(self)@.running && old(self)@.ids.len() > 0 ==> dispatched_once(
                old(self)@,
                final(self)@,
                HookKind::Update,
            ),
            !(old(self)@.running && old(self)@.ids.len() > 0) ==> final(self)@ == old(self)@,
            !old(self)@.running || old(self)@.ids.len() == 0 ==> *final(resources) == *old(
                resources,
            ),
    {
        if !self.running {
            return Ok(());
        }
        let len = self.states.len();
        if len == 0 {
            return Ok(());
        }
        let id = self.states[len - 1].id();
        let ghost mid_states = self.states@;
        let st = &mut self.states[len - 1];
        let hook_result = st.update(resources);
        proof {
            Self::lemma_ids_update_same_sid(mid_states, len - 1, self.states@[len - 1]);
        }
        match hook_result {
            Ok(t) => {
                self.journal.push(HookRecord { state: id, hook: HookKind::Update, ok: true });
                let ghost mid = self@;
                let ghost lbl = label_of(t);
                let res = self.transition(t, resources);
                proof {
                    assert(transition_step(mid, self@, lbl, res));
                    lemma_extends_trans(
                        old(self)@,
                        mid,
                        self@,
                        set![HookKind::Update],
                        lifecycle_hooks(),
                        lifecycle_hooks().insert(HookKind::Update),
                    );
                    let jj = old(self)@.journal.len() as int;
                    assert((self@.journal[jj]).hook == HookKind::Update);
                    assert forall|i: int|
                        old(self)@.journal.len() <= i < self@.journal.len() && i != jj implies (
                    #[trigger] self@.journal[i]).hook != HookKind::Update by {
                        assert(lifecycle_hooks().contains(self@.journal[i].hook));
                    }
                }
                res
            },
            Err(e) => {
                self.journal.push(HookRecord { state: id, hook: HookKind::Update, ok: false });
                proof {
                    let jj = old(self)@.journal.len() as int;
                    assert((self@.journal[jj]).hook == HookKind::Update);
                }
                Err(e)
            },
        }
    }

    /// Generic event dispatch: invoke the top state's `on_event` for the
    /// platform event and apply the transition it returns.  A no-op when
    /// the machine is not running.
    pub fn handle_event(&mut self, resources: &mut Resources, event: &Event) -> (r: Result<
        (),
        StateError,
    >)
        requires
            old(resources).wf(),
        ensures
            final(resources).wf(),
            dispatch_step(old(self)@, final(self)@, HookKind::Event, r),
            journal_extends_with(
                old(self)@,
                final(self)@,
                lifecycle_hooks().insert(HookKind::Event),
            ),
            !old(self)@.running || old(self)@.ids.len() == 0 ==> *final(resources) == *old(
                resources,
            ),
    {
        if !self.running {
            return Ok(());
        }
        let len = self.states.len();
        if len == 0 {
            return Ok(());
        }
        let id = self.states[len - 1].id();
        let ghost mid_states = self.states@;
        let st = &mut self.states[len - 1];
        let hook_result = st.on_event(resources, event);
        proof {
            Self::lemma_ids_update_same_sid(mid_states, len - 1, self.states@[len - 1]);
        }
        match hook_result {
            Ok(t) => {
                self.journal.push(HookRecord { state: id, hook: HookKind::Event, ok: true });
                let ghost mid = self@;
                let ghost lbl = label_of(t);
                let res = self.transition(t, resources);
                proof {
                    assert(transition_step(mid, self@, lbl, res));
                    lemma_extends_trans(
                        old(self)@,
                        mid,
                        self@,
                        set![HookKind::Event],
                        lifecycle_hooks(),
                        lifecycle_hooks().insert(HookKind::Event),
                    );
                }
                res
            },
            Err(e) => {
                self.journal.push(HookRecord { state: id, hook: HookKind::Event, ok: false });
                Err(e)
            },
        }
    }

    /// Forward keyboard input to the top state.  The transition the hook
    /// returns is discarded.
    pub fn forward_key(&mut self, resources: &mut Resources, input: KeyInput) -> (r: Result<
        (),
        StateError,
    >)
        requires
            old(resources).wf(),
        ensures
            final(resources).wf(),
            forward_step(old(self)@, final(self)@, HookKind::Key, r),
            journal_extends_with(old(self)@, final(self)@, set![HookKind::Key]),
            old(self)@.ids.len() == 0 ==> *final(resources) == *old(resources),
    {
        let len = self.states.len();
        if len == 0 {
            return Err(StateError::EmptyStack);
        }
        let id = self.states[len - 1].id();
        let ghost mid_states = self.states@;
        let st = &mut self.states[len - 1];
        let hook_result = st.on_key(resources, input);
        proof {
            Self::lemma_ids_update_same_sid(mid_states, len - 1, self.states@[len - 1]);
        }
        match hook_result {
            Ok(_) => {
                self.journal.push(HookRecord { state: id, hook: HookKind::Key, ok: true });
                Ok(())
            },
            Err(e) => {
                self.journal.push(HookRecord { state: id, hook: HookKind::Key, ok: false });
                Err(e)
            },
        }
    }

    /// Forward mouse button input to the top state.  The transition the
    /// hook returns is discarded.
    pub fn forward_mouse(
        &mut self,
        resources: &mut Resources,
        button: &MouseButton,
        pressed: bool,
    ) -> (r: Result<(), StateError>)
        requires
            old(resources).wf(),
        ensures
            final(resources).wf(),
            forward_step(old(self)@, final(self)@, HookKind::Mouse, r),
            journal_extends_with(old(self)@, final(self)@, set![HookKind::Mouse]),
            old(self)@.ids.len() == 0 ==> *final(resources) == *old(resources),
    {
        let len = self.states.len();
        if len == 0 {
            return Err(StateError::EmptyStack);
        }
        let id = self.states[len - 1].id();
        let ghost mid_states = self.states@;
        let st = &mut self.states[len - 1];
        let hook_result = st.on_mouse(resources, button, pressed);
        proof {
            Self::lemma_ids_update_same_sid(mid_states, len - 1, self.states@[len - 1]);
        }
        match hook_result {
            Ok(_) => {
                self.journal.push(HookRecord { state: id, hook: HookKind::Mouse, ok: true });
                Ok(())
            },
            Err(e) => {
                self.journal.push(HookRecord { state: id, hook: HookKind::Mouse, ok: false });
                Err(e)
            },
        }
    }

    /// Forward a dropped file's path to the top state.  The transition the
    /// hook returns is discarded.
    pub fn forward_file_dropped(&mut self, resources: &mut Resources, path: &String) -> (r: Result<
        (),
        StateError,
    >)
        requires
            old(resources).wf(),
        ensures
            final(resources).wf(),
            forward_step(old(self)@, final(self)@, HookKind::FileDrop, r),
            journal_extends_with(old(self)@, final(self)@, set![HookKind::FileDrop]),
            old(self)@.ids.len() == 0 ==> *final(resources) == *old(resources),
    {
        let len = self.states.len();
        if len == 0 {
            return Err(StateError::EmptyStack);
        }
        let id = self.states[len - 1].id();
        let ghost mid_states = self.states@;
        let st = &mut self.states[len - 1];
        let hook_result = st.on_file_dropped(resources, path);
        proof {
            Self::lemma_ids_update_same_sid(mid_states, len - 1, self.states@[len - 1]);
        }
        match hook_result {
            Ok(_) => {
                self.journal.push(HookRecord { state: id, hook: HookKind::FileDrop, ok: true });
                Ok(())
            },
            Err(e) => {
                self.journal.push(HookRecord { state: id, hook: HookKind::FileDrop, ok: false });
                Err(e)
            },
        }
    }

    /// Forward one polled gamepad event to the top state.  The transition
    /// the hook returns is discarded.
    pub fn forward_gamepad_event(&mut self, resources: &mut Resources, event: GamepadEvent) -> (r:
        Result<(), StateError>)
        requires
            old(resources).wf(),
        ensures
            final(resources).wf(),
            forward_step(old(self)@, final(self)@, HookKind::Gamepad, r),
            journal_extends_with(old(self)@, final(self)@, set![HookKind::Gamepad]),
            old(self)@.ids.len() == 0 ==> *final(resources) == *old(resources),
    {
        let len = self.states.len();
        if len == 0 {
            return Err(StateError::EmptyStack);
        }
        let id = self.states[len - 1].id();
        let ghost mid_states = self.states@;
        let st = &mut self.states[len - 1];
        let hook_result = st.on_gamepad_event(resources, event);
        proof {
            Self::lemma_ids_update_same_sid(mid_states, len - 1, self.states@[len - 1]);
        }
        match hook_result {
            Ok(_) => {
                self.journal.push(HookRecord { state: id, hook: HookKind::Gamepad, ok: true });
                Ok(())
            },
            Err(e) => {
                self.journal.push(HookRecord { state: id, hook: HookKind::Gamepad, ok: false });
                Err(e)
            },
        }
    }
}

/// A stack operation, for stating laws about runs of pushes and pops.
#[derive(Clone, Copy, Debug, PartialEq, Eq, Structural)]
pub enum StackOp {
    Push(u64),
    Pop,
}

/// One successful stack operation applied to a machine view.
pub open spec fn stack_op_step(pre: MachineView, post: MachineView, op: StackOp) -> bool {
    match op {
        StackOp::Push(id) => push_step(pre, post, id, Ok(())),
        StackOp::Pop => pop_step(pre, post, Ok(())),
    }
}

/// How many pushes a run of stack operations holds.
pub open spec fn count_pushes(ops: Seq<StackOp>) -> int
    decreases ops.len(),
{
    if ops.len() == 0 {
        0
    } else {
        count_pushes(ops.drop_last()) + (if ops.last() is Push {
            1int
        } else {
            0int
        })
    }
}

/// How many pops a run of stack operations holds.
pub open spec fn count_pops(ops: Seq<StackOp>) -> int
    decreases ops.len(),
{
    if ops.len() == 0 {
        0
    } else {
        count_pops(ops.drop_last()) + (if ops.last() is Pop {
            1int
        } else {
            0int
        })
    }
}

/// Law: from a running machine seeded with one initial state, any run of
/// successful pushes and pops with at most as many pops as pushes in every
/// prefix leaves the stack holding exactly `1 + pushes − pops` states, and
/// the machine still running.  The running flag can fall only once pops
/// exceed the pushed states and the initial state itself is popped.
pub proof fn lemma_stack_depth(trace: Seq<MachineView>, ops: Seq<StackOp>)
    requires
        trace.len() == ops.len() + 1,
        trace[0].running,
        trace[0].ids.len() == 1,
        forall|i: int|
            0 <= i < ops.len() ==> #[trigger] stack_op_step(trace[i], trace[i + 1], ops[i]),
        forall|i: int|
            0 <= i <= ops.len() ==> #[trigger] count_pops(ops.take(i)) <= count_pushes(
                ops.take(i),
            ),
    ensures
        trace.last().ids.len() == 1 + count_pushes(ops) - count_pops(ops),
        trace.last().running,
    decreases ops.len(),
{
    if ops.len() == 0 {
        assert(trace.last() == trace[0]);
    } else {
        let short_ops = ops.drop_last();
        let short_trace = trace.drop_last();
        assert forall|i: int| 0 <= i < short_ops.len() implies #[trigger] stack_op_step(
            short_trace[i],
            short_trace[i + 1],
            short_ops[i],
        ) by {
            assert(stack_op_step(trace[i], trace[i + 1], ops[i]));
        }
        assert forall|i: int| 0 <= i <= short_ops.len() implies #[trigger] count_pops(
            short_ops.take(i),
        ) <= count_pushes(short_ops.take(i)) by {
            assert(short_ops.take(i) =~= ops.take(i));
            assert(count_pops(ops.take(i)) <= count_pushes(ops.take(i)));
        }
        lemma_stack_depth(short_trace, short_ops);
        let pre = trace[trace.len() - 2];
        let post = trace.last();
        assert(short_trace.last() == pre);
        assert(stack_op_step(pre, post, ops[ops.len() - 1]));
        assert(pre.ids.len() == 1 + count_pushes(short_ops) - count_pops(short_ops));
        match ops.last() {
            StackOp::Push(id) => {
                assert(post.ids == pre.ids.push(id));
            },
            StackOp::Pop => {
                assert(ops.take(ops.len() as int) =~= ops);
                assert(count_pops(ops) <= count_pushes(ops));
                assert(pre.ids.len() >= 2);
            },
        }
    }
}

/// Law: popping the initial state itself — the last one on the stack —
/// stops the machine and empties the stack.
pub proof fn lemma_pop_last_stops(pre: MachineView, post: MachineView, r: Result<(), StateError>)
    requires
        pre.running,
        pre.ids.len() == 1,
        pop_step(pre, post, r),
        r is Ok,
    ensures
        !post.running,
        post.ids.len() == 0,
{
}

/// Law: pushing state B over running top A dispatches `A.on_pause`
/// strictly before `B.on_start`; A is never stopped and remains on the
/// stack beneath B.
pub proof fn lemma_push_hook_order(
    pre: MachineView,
    post: MachineView,
    b: u64,
    r: Result<(), StateError>,
)
    requires
        pre.running,
        pre.ids.len() > 0,
        push_step(pre, post, b, r),
        r is Ok,
    ensures
        post.journal == pre.journal + seq![
            rec(pre.ids.last(), HookKind::Pause, true),
            rec(b, HookKind::Start, true),
        ],
        forall|i: int|
            pre.journal.len() <= i < post.journal.len() ==> (#[trigger] post.journal[i]).hook
                != HookKind::Stop,
        post.ids == pre.ids.push(b),
        post.running,
{
    assert(post.journal =~= pre.journal + seq![
        rec(pre.ids.last(), HookKind::Pause, true),
        rec(b, HookKind::Start, true),
    ]);
}

/// Law: popping B, pushed over A, dispatches `B.on_stop` strictly before
/// `A.on_resume`, and A becomes the top again.
pub proof fn lemma_pop_hook_order(pre: MachineView, post: MachineView, r: Result<(), StateError>)
    requires
        pre.running,
        pre.ids.len() >= 2,
        pop_step(pre, post, r),
        r is Ok,
    ensures
        post.journal == pre.journal + seq![
            rec(pre.ids.last(), HookKind::Stop, true),
            rec(pre.ids[pre.ids.len() - 2], HookKind::Resume, true),
        ],
        post.ids == pre.ids.drop_last(),
        post.running,
{
    assert(post.journal =~= pre.journal + seq![
        rec(pre.ids.last(), HookKind::Stop, true),
        rec(pre.ids[pre.ids.len() - 2], HookKind::Resume, true),
    ]);
}

/// Law: switching running top A to C dispatches `A.on_stop` strictly
/// before `C.on_start`; no state is paused or resumed, and C takes A's
/// slot with the states beneath untouched.
pub proof fn lemma_switch_hook_order(
    pre: MachineView,
    post: MachineView,
    c: u64,
    r: Result<(), StateError>,
)
    requires
        pre.running,
        pre.ids.len() > 0,
        switch_step(pre, post, c, r),
        r is Ok,
    ensures
        post.journal == pre.journal + seq![
            rec(pre.ids.last(), HookKind::Stop, true),
            rec(c, HookKind::Start, true),
        ],
        forall|i: int|
            pre.journal.len() <= i < post.journal.len() ==> (#[trigger] post.journal[i]).hook
                != HookKind::Resume && post.journal[i].hook != HookKind::Pause,
        post.ids == pre.ids.drop_last().push(c),
        post.running,
{
    assert(post.journal =~= pre.journal + seq![
        rec(pre.ids.last(), HookKind::Stop, true),
        rec(c, HookKind::Start, true),
    ]);
}

/// Law: Quit drains the stack top-down — for a stack [A, B, C] with C on
/// top, `on_stop` is dispatched in the order C, B, A — and leaves the
/// machine not running with an empty stack.
pub proof fn lemma_quit_drains_top_down(
    pre: MachineView,
    post: MachineView,
    r: Result<(), StateError>,
)
    requires
        pre.running,
        quit_step(pre, post, r),
        r is Ok,
    ensures
        post.journal.len() == pre.journal.len() + pre.ids.len(),
        forall|j: int|
            pre.journal.len() <= j < post.journal.len() ==> (#[trigger] post.journal[j]) == rec(
                pre.ids[pre.ids.len() - 1 - (j - pre.journal.len())],
                HookKind::Stop,
                true,
            ),
        !post.running,
        post.ids.len() == 0,
{
}

/// Law: when a dispatching operation's own hook failed — its journal
/// record says so — no transition was applied: the stack and the running
/// flag are unchanged and the dispatch record is the only addition.
pub proof fn lemma_failed_hook_applies_nothing(
    pre: MachineView,
    post: MachineView,
    kind: HookKind,
    r: Result<(), StateError>,
)
    requires
        pre.running,
        pre.ids.len() > 0,
        dispatch_step(pre, post, kind, r),
        r is Err,
        post.journal[pre.journal.len() as int] == rec(pre.ids.last(), kind, false),
    ensures
        post.ids == pre.ids,
        post.running == pre.running,
        post.journal == pre.journal.push(rec(pre.ids.last(), kind, false)),
{
    let mid = MachineView {
        running: pre.running,
        ids: pre.ids,
        journal: pre.journal.push(rec(pre.ids.last(), kind, true)),
    };
    if exists|label: TransitionLabel| transition_step(mid, post, label, r) {
        let label = choose|label: TransitionLabel| transition_step(mid, post, label, r);
        assert(post.journal[pre.journal.len() as int] == rec(pre.ids.last(), kind, true))
            by {
            match label {
                TransitionLabel::Stay => {},
                TransitionLabel::Pop => {},
                TransitionLabel::Push(id) => {},
                TransitionLabel::Switch(id) => {},
                TransitionLabel::Quit => {},
            }
        }
        assert(false);
    }
}

/// Law: a push whose `on_pause` failed — its journal record says so — left
/// the stack as it was; the new state was discarded and never started.
pub proof fn lemma_failed_pause_pushes_nothing(
    pre: MachineView,
    post: MachineView,
    id: u64,
    r: Result<(), StateError>,
)
    requires
        pre.ids.len() > 0,
        push_step(pre, post, id, r),
        r is Err,
        post.journal[pre.journal.len() as int] == rec(pre.ids.last(), HookKind::Pause, false),
    ensures
        post.ids == pre.ids,
        post.running == pre.running,
        post.journal == pre.journal.push(rec(pre.ids.last(), HookKind::Pause, false)),
{
}

/// Law: an interrupted drain halted exactly at the state whose `on_stop`
/// failed: its failing stop is the journal's last record, the states above
/// it are stopped and gone, the states beneath remain, and the running
/// flag still stands.
pub proof fn lemma_quit_halts_at_failing_stop(
    pre: MachineView,
    post: MachineView,
    r: Result<(), StateError>,
)
    requires
        pre.running,
        quit_step(pre, post, r),
        r is Err,
    ensures
        post.running == pre.running,
        post.ids.len() < pre.ids.len(),
        post.ids == pre.ids.take(post.ids.len() as int),
        post.journal.len() == pre.journal.len() + (pre.ids.len() - post.ids.len()),
        post.journal.last() == rec(pre.ids[post.ids.len() as int], HookKind::Stop, false),
{
    let k = choose|k: int| 0 <= k < pre.ids.len() && #[trigger] quit_stopped_at(pre, post, k);
    assert(post.ids == pre.ids.take(pre.ids.len() - 1 - k));
    assert(post.journal.last() == rec(pre.ids[pre.ids.len() - 1 - k], HookKind::Stop, false));
}

/// Law: starting a machine twice in a row dispatches `on_start` on the
/// initial state exactly once — the second call changes nothing.
pub proof fn lemma_start_idempotent(
    s0: MachineView,
    s1: MachineView,
    s2: MachineView,
    r1: Result<(), StateError>,
    r2: Result<(), StateError>,
)
    requires
        !s0.running,
        s0.ids.len() > 0,
        start_step(s0, s1, r1),
        r1 is Ok,
        start_step(s1, s2, r2),
    ensures
        s1.journal == s0.journal.push(rec(s0.ids.last(), HookKind::Start, true)),
        s2 == s1,
        r2 is Ok,
{
}

} // verus!
