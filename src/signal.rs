//! The shared one-shot signal: a flag that goes from "not triggered" to
//! "triggered" once, and the parties (by id) waiting to be woken when it does.
//!
//! Registration follows a register-then-recheck protocol: a waiter is
//! registered first and the flag is read again afterwards, so a trigger can
//! never fall between the check and the registration unseen.
//!
//! `StopSignal` is a deterministic signal for callers that keep their own
//! waker table (a single-threaded executor, a simulation). `StopSource` and
//! `StopToken` do not use it: they run on `async_channel`, whose own waiter
//! registry plays this part. The laws proved here are about `StopSignal`.

use vstd::prelude::*;

verus! {

/// What a signal holds: its flag and the ids of the parties waiting on it.
pub struct SignalView {
    pub triggered: bool,
    pub waiters: Seq<u64>,
}

/// A check-or-register: `(state after, ready)`. Once triggered the check is
/// ready and registers nothing; before, the waiter joins the registry.
pub open spec fn after_register(s: SignalView, waiter: u64) -> (SignalView, bool) {
    if s.triggered {
        (s, true)
    } else {
        (SignalView { triggered: false, waiters: s.waiters.push(waiter) }, false)
    }
}

/// A trigger: `(state after, parties to wake)`. Every registered party is
/// woken, each once, and the registry is emptied.
pub open spec fn after_trigger(s: SignalView) -> (SignalView, Seq<u64>) {
    (SignalView { triggered: true, waiters: Seq::empty() }, s.waiters)
}

/// The registrations that a deregistration of `waiter` keeps.
pub open spec fn other_than(waiter: u64) -> spec_fn(u64) -> bool {
    |w: u64| w != waiter
}

/// A deregistration: every registration of `waiter` is withdrawn.
pub open spec fn after_deregister(s: SignalView, waiter: u64) -> SignalView {
    SignalView { triggered: s.triggered, waiters: s.waiters.filter(other_than(waiter)) }
}

/// The well-formed states: a triggered signal has nobody waiting.
pub open spec fn signal_wf(s: SignalView) -> bool {
    s.triggered ==> s.waiters.len() == 0
}

/// A one-shot broadcast signal with a registry of waiting parties.
pub struct StopSignal {
    triggered: bool,
    waiters: Vec<u64>,
}

impl View for StopSignal {
    type V = SignalView;

    closed spec fn view(&self) -> SignalView {
        SignalView { triggered: self.triggered, waiters: self.waiters@ }
    }
}

impl StopSignal {
    #[verifier::type_invariant]
    spec fn inv(&self) -> bool {
        signal_wf(self@)
    }

    /// A signal that is not triggered, with nobody waiting.
    pub fn new() -> (s: StopSignal)
        ensures
            s@ == (SignalView { triggered: false, waiters: Seq::empty() }),
    {
        StopSignal { triggered: false, waiters: Vec::new() }
    }

    /// Reads the flag without registering anything.
    pub fn is_triggered(&self) -> (b: bool)
        ensures
            b == self@.triggered,
    {
        self.triggered
    }

    /// The parties waiting now.
    pub fn waiters(&self) -> (w: &Vec<u64>)
        ensures
            w@ == self@.waiters,
    {
        &self.waiters
    }

    /// Checks the flag, registering `waiter` to be woken by the trigger if it
    /// is not set. `true` means ready: the signal was triggered, and nothing
    /// was registered.
    pub fn check_or_register(&mut self, waiter: u64) -> (ready: bool)
        ensures
            (final(self)@, ready) == after_register(old(self)@, waiter),
    {
        proof {
            use_type_invariant(&*self);
        }
        // Register first, then read the flag again: a registration made
        // after the trigger is redundant and is withdrawn at once.
        let mut waiters: Vec<u64> = Vec::new();
        std::mem::swap(&mut waiters, &mut self.waiters);
        let ghost before = waiters@;
        waiters.push(waiter);
        if self.triggered {
            waiters.pop();
            assert(waiters@ =~= before);
            self.waiters = waiters;
            true
        } else {
            self.waiters = waiters;
            false
        }
    }

    /// Withdraws every registration of `waiter`, as a party does before it
    /// registers again from another context or gives up waiting.
    pub fn deregister(&mut self, waiter: u64)
        ensures
            final(self)@ == after_deregister(old(self)@, waiter),
    {
        proof {
            use_type_invariant(&*self);
        }
        let mut old_waiters: Vec<u64> = Vec::new();
        std::mem::swap(&mut old_waiters, &mut self.waiters);
        let mut kept: Vec<u64> = Vec::new();
        let mut i: usize = 0;
        while i < old_waiters.len()
            invariant
                i <= old_waiters.len(),
                kept@ == old_waiters@.subrange(0, i as int).filter(other_than(waiter)),
            decreases old_waiters.len() - i,
        {
            let w = old_waiters[i];
            proof {
                let f = other_than(waiter);
                assert(old_waiters@.subrange(0, i + 1) =~= old_waiters@.subrange(0, i as int).push(w));
                old_waiters@.subrange(0, i as int).lemma_filter_push(w, f);
            }
            if w != waiter {
                kept.push(w);
            }
            i += 1;
        }
        assert(old_waiters@.subrange(0, i as int) =~= old_waiters@);
        proof {
            if self.triggered {
                assert(old_waiters@.len() == 0);
                old_waiters@.lemma_filter_len(other_than(waiter));
            }
        }
        self.waiters = kept;
    }

    /// Sets the flag and hands back the parties to wake: every party that was
    /// registered, each once. Triggering again wakes nobody.
    pub fn trigger(&mut self) -> (woken: Vec<u64>)
        ensures
            (final(self)@, woken@) == after_trigger(old(self)@),
    {
        proof {
            use_type_invariant(&*self);
        }
        let mut woken: Vec<u64> = Vec::new();
        std::mem::swap(&mut woken, &mut self.waiters);
        self.triggered = true;
        assert(self.waiters@ =~= Seq::<u64>::empty());
        woken
    }
}

/// One operation on a signal.
pub enum SignalOp {
    Register(u64),
    Deregister(u64),
    Trigger,
}

/// The state after one operation.
pub open spec fn after_op(s: SignalView, op: SignalOp) -> SignalView {
    match op {
        SignalOp::Register(w) => after_register(s, w).0,
        SignalOp::Deregister(w) => after_deregister(s, w),
        SignalOp::Trigger => after_trigger(s).0,
    }
}

/// The state after a series of operations.
pub open spec fn after_ops(s: SignalView, ops: Seq<SignalOp>) -> SignalView
    decreases ops.len(),
{
    if ops.len() == 0 {
        s
    } else {
        after_op(after_ops(s, ops.drop_last()), ops.last())
    }
}

/// The state after each of `ws` has checked and registered in turn.
pub open spec fn after_registers(s: SignalView, ws: Seq<u64>) -> SignalView
    decreases ws.len(),
{
    if ws.len() == 0 {
        s
    } else {
        after_register(after_registers(s, ws.drop_last()), ws.last()).0
    }
}

/// Already-triggered visibility: a check made after the trigger is ready at
/// once and registers nothing.
pub proof fn lemma_triggered_is_ready(s: SignalView, waiter: u64)
    ensures
        after_register(after_trigger(s).0, waiter).1,
        after_register(after_trigger(s).0, waiter).0 == after_trigger(s).0,
{
}

/// No lost wake-up: when parties `ws` check and register while the signal is
/// pending, the trigger wakes every one of them (with the parties that were
/// already waiting), each as often as it registered.
pub proof fn lemma_no_lost_wakeup(s: SignalView, ws: Seq<u64>)
    requires
        !s.triggered,
    ensures
        !after_registers(s, ws).triggered,
        after_trigger(after_registers(s, ws)).1 == s.waiters + ws,
        forall|i: int| 0 <= i < ws.len() ==> after_trigger(after_registers(s, ws)).1.contains(
            #[trigger] ws[i],
        ),
    decreases ws.len(),
{
    if ws.len() == 0 {
        assert(s.waiters + ws =~= s.waiters);
    } else {
        lemma_no_lost_wakeup(s, ws.drop_last());
        assert(s.waiters + ws =~= (s.waiters + ws.drop_last()).push(ws.last()));
    }
    assert forall|i: int| 0 <= i < ws.len() implies after_trigger(
        after_registers(s, ws),
    ).1.contains(#[trigger] ws[i]) by {
        assert((s.waiters + ws)[s.waiters.len() + i] == ws[i]);
    }
}

/// Whether `ops` contains no trigger.
pub open spec fn no_trigger(ops: Seq<SignalOp>) -> bool {
    forall|j: int| 0 <= j < ops.len() ==> !(#[trigger] ops[j] is Trigger)
}

proof fn lemma_pending_without_trigger(s: SignalView, ops: Seq<SignalOp>)
    requires
        !s.triggered,
        no_trigger(ops),
    ensures
        !after_ops(s, ops).triggered,
    decreases ops.len(),
{
    if ops.len() > 0 {
        assert(!(ops[ops.len() - 1] is Trigger));
        lemma_pending_without_trigger(s, ops.drop_last());
    }
}

/// No lost wake-up, whatever the interleaving: a party that checked and
/// registered while the signal was pending, and did not withdraw afterwards,
/// is among the parties that the trigger wakes, however the registrations and
/// withdrawals of the other parties fall around its own.
pub proof fn lemma_no_lost_wakeup_interleaved(s: SignalView, ops: Seq<SignalOp>, i: int, waiter: u64)
    requires
        !s.triggered,
        no_trigger(ops),
        0 <= i < ops.len(),
        ops[i] == SignalOp::Register(waiter),
        forall|j: int| i < j < ops.len() ==> #[trigger] ops[j] != SignalOp::Deregister(waiter),
    ensures
        after_ops(s, ops).waiters.contains(waiter),
        after_trigger(after_ops(s, ops)).1.contains(waiter),
    decreases ops.len(),
{
    let prev = ops.drop_last();
    lemma_pending_without_trigger(s, prev);
    let p = after_ops(s, prev);
    if i == ops.len() - 1 {
        assert(after_ops(s, ops).waiters[p.waiters.len() as int] == waiter);
    } else {
        assert(prev[i] == ops[i]);
        assert forall|j: int| i < j < prev.len() implies #[trigger] prev[j] != SignalOp::Deregister(
            waiter,
        ) by {
            assert(prev[j] == ops[j]);
        }
        lemma_no_lost_wakeup_interleaved(s, prev, i, waiter);
        let k = choose|k: int| 0 <= k < p.waiters.len() && p.waiters[k] == waiter;
        assert(!(ops[ops.len() - 1] is Trigger));
        match ops.last() {
            SignalOp::Register(w) => {
                assert(after_ops(s, ops).waiters[k] == waiter);
            },
            SignalOp::Deregister(w) => {
                assert(ops[ops.len() - 1] != SignalOp::Deregister(waiter));
                p.waiters.lemma_filter_contains(other_than(w), k);
            },
            SignalOp::Trigger => {},
        }
    }
}

/// Monotonicity: once triggered, a signal stays triggered whatever happens
/// next, and every later check is ready.
pub proof fn lemma_triggered_stays(s: SignalView, ops: Seq<SignalOp>, waiter: u64)
    requires
        s.triggered,
    ensures
        after_ops(s, ops).triggered,
        after_register(after_ops(s, ops), waiter).1,
    decreases ops.len(),
{
    if ops.len() > 0 {
        lemma_triggered_stays(s, ops.drop_last(), waiter);
    }
}

/// Well-formedness is kept by every operation.
pub proof fn lemma_ops_keep_wf(s: SignalView, ops: Seq<SignalOp>)
    requires
        signal_wf(s),
    ensures
        signal_wf(after_ops(s, ops)),
    decreases ops.len(),
{
    if ops.len() > 0 {
        lemma_ops_keep_wf(s, ops.drop_last());
        let p = after_ops(s, ops.drop_last());
        match ops.last() {
            SignalOp::Deregister(w) => {
                p.waiters.lemma_filter_len(other_than(w));
            },
            _ => {},
        }
    }
}

} // verus!
