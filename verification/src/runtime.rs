//! The bookkeeping behind every context: who owns it, and which log
//! callbacks are registered.

use vstd::prelude::*;
use crate::log::{resolve, invoked_on, accepts_every_line, LogCallbackMap, LogKey, LogLevel};
use crate::native::NativeCall;

verus! {

/// What is known of one context: the identity that the native library gave
/// it, and the number of owners that keep it alive. A context without owners
/// has been released.
pub struct ContextState {
    pub raw: usize,
    pub owners: nat,
}

/// The state of a [`Runtime`] as a mathematical value.
#[verifier::ext_equal]
pub struct RuntimeState<F> {
    /// Every context created so far, in the order of creation. The position
    /// of a context is its identity in this crate and is never given to
    /// another context.
    pub contexts: Seq<ContextState>,
    /// The registered log callbacks.
    pub callbacks: Map<LogKey, F>,
}

impl<F> RuntimeState<F> {
    /// The state before anything has happened.
    pub open spec fn initial() -> Self {
        RuntimeState { contexts: Seq::empty(), callbacks: Map::empty() }
    }

    /// Whether `id` names a context that has at least one owner.
    pub open spec fn is_live(self, id: int) -> bool {
        0 <= id < self.contexts.len() && self.contexts[id].owners > 0
    }

    /// The number of owners of the context `id`.
    pub open spec fn owners(self, id: int) -> nat {
        if 0 <= id < self.contexts.len() {
            self.contexts[id].owners
        } else {
            0
        }
    }

    /// The native identity of the context `id`.
    pub open spec fn raw(self, id: int) -> usize {
        self.contexts[id].raw
    }

    /// Whether some live context has the native identity `raw`.
    pub open spec fn is_live_identity(self, raw: usize) -> bool {
        exists|id: int| #[trigger] self.is_live(id) && self.contexts[id].raw == raw
    }

    /// Every callback of context scope belongs to a live context.
    pub open spec fn entries_are_live(self) -> bool {
        forall|raw: usize| #[trigger]
            self.callbacks.contains_key(LogKey::Context(raw)) ==> self.is_live_identity(raw)
    }

    /// A new context with the native identity `raw` and one owner.
    pub open spec fn create(self, raw: usize) -> Self {
        RuntimeState { contexts: self.contexts.push(ContextState { raw, owners: 1 }), ..self }
    }

    /// One more owner of the live context `id`.
    pub open spec fn acquire(self, id: int) -> Self {
        if self.is_live(id) {
            RuntimeState {
                contexts: self.contexts.update(
                    id,
                    ContextState { raw: self.raw(id), owners: self.owners(id) + 1 },
                ),
                ..self
            }
        } else {
            self
        }
    }

    /// One owner less of the live context `id`. With its last owner the
    /// context loses its log callback.
    pub open spec fn release(self, id: int) -> Self {
        if !self.is_live(id) {
            self
        } else if self.owners(id) > 1 {
            RuntimeState {
                contexts: self.contexts.update(
                    id,
                    ContextState { raw: self.raw(id), owners: (self.owners(id) - 1) as nat },
                ),
                ..self
            }
        } else {
            RuntimeState {
                contexts: self.contexts.update(id, ContextState { raw: self.raw(id), owners: 0 }),
                callbacks: self.callbacks.remove(LogKey::Context(self.raw(id))),
                ..self
            }
        }
    }

    /// The native calls that giving up one owner of the context `id` asks
    /// for: the release of the native context with the last owner, nothing
    /// before.
    pub open spec fn release_calls(self, id: int) -> Seq<NativeCall> {
        if self.is_live(id) && self.owners(id) == 1 {
            seq![NativeCall::Exit { context: self.raw(id) }]
        } else {
            Seq::empty()
        }
    }

    /// `callback` registered under `key`, in place of an earlier one.
    pub open spec fn register(self, key: LogKey, callback: F) -> Self {
        RuntimeState { callbacks: self.callbacks.insert(key, callback), ..self }
    }

    /// Creating a context keeps every callback with a live context.
    pub proof fn lemma_create_keeps_entries_live(self, raw: usize)
        requires
            self.entries_are_live(),
        ensures
            self.create(raw).entries_are_live(),
    {
        let next = self.create(raw);
        assert forall|key: usize| #[trigger]
            next.callbacks.contains_key(LogKey::Context(key)) implies next.is_live_identity(
            key,
        ) by {
            let id = choose|id: int| #[trigger] self.is_live(id) && self.contexts[id].raw == key;
            assert(next.is_live(id) && next.contexts[id].raw == key);
        }
    }

    /// A further owner keeps every callback with a live context.
    pub proof fn lemma_acquire_keeps_entries_live(self, id: int)
        requires
            self.entries_are_live(),
        ensures
            self.acquire(id).entries_are_live(),
    {
        let next = self.acquire(id);
        assert forall|key: usize| #[trigger]
            next.callbacks.contains_key(LogKey::Context(key)) implies next.is_live_identity(
            key,
        ) by {
            let other = choose|other: int| #[trigger]
                self.is_live(other) && self.contexts[other].raw == key;
            assert(next.is_live(other) && next.contexts[other].raw == key);
        }
    }

    /// Giving up an owner keeps every callback with a live context: the
    /// callback of a context leaves with its last owner.
    pub proof fn lemma_release_keeps_entries_live(self, id: int)
        requires
            self.entries_are_live(),
        ensures
            self.release(id).entries_are_live(),
    {
        let next = self.release(id);
        assert forall|key: usize| #[trigger]
            next.callbacks.contains_key(LogKey::Context(key)) implies next.is_live_identity(
            key,
        ) by {
            let other = choose|other: int| #[trigger]
                self.is_live(other) && self.contexts[other].raw == key;
            assert(next.is_live(other) && next.contexts[other].raw == key);
        }
    }

    /// Registering a callback keeps every callback with a live context, where
    /// a callback of context scope is registered for a live context.
    pub proof fn lemma_register_keeps_entries_live(self, key: LogKey, callback: F)
        requires
            self.entries_are_live(),
            key matches LogKey::Context(raw) ==> self.is_live_identity(raw),
        ensures
            self.register(key, callback).entries_are_live(),
    {
        let next = self.register(key, callback);
        assert forall|raw: usize| #[trigger]
            next.callbacks.contains_key(LogKey::Context(raw)) implies next.is_live_identity(
            raw,
        ) by {
            let id = choose|id: int| #[trigger] self.is_live(id) && self.contexts[id].raw == raw;
            assert(next.is_live(id) && next.contexts[id].raw == raw);
        }
    }
}

/// One step in the life of the owners of a context.
pub enum OwnerStep {
    /// A further owner is made.
    Clone,
    /// An owner is given up.
    Drop,
}

/// The number of owners that `steps` make, less the number that they give
/// up.
pub open spec fn owners_gained(steps: Seq<OwnerStep>) -> int
    decreases steps.len(),
{
    if steps.len() == 0 {
        0
    } else {
        owners_gained(steps.drop_last()) + match steps.last() {
            OwnerStep::Clone => 1int,
            OwnerStep::Drop => -1int,
        }
    }
}

/// `count` owners made one after another.
pub open spec fn clones(count: nat) -> Seq<OwnerStep> {
    Seq::new(count, |index: int| OwnerStep::Clone)
}

/// `count` owners made one after another are `count` owners gained.
pub proof fn lemma_owners_gained_by_clones(count: nat)
    ensures
        owners_gained(clones(count)) == count,
    decreases count,
{
    if count > 0 {
        assert(clones(count).drop_last() =~= clones((count - 1) as nat));
        lemma_owners_gained_by_clones((count - 1) as nat);
    }
}

impl<F> RuntimeState<F> {
    /// The state after the owners of the context `id` were made and given up
    /// as `steps` says, in order.
    pub open spec fn replay(self, id: int, steps: Seq<OwnerStep>) -> Self
        decreases steps.len(),
    {
        if steps.len() == 0 {
            self
        } else {
            let before = self.replay(id, steps.drop_last());
            match steps.last() {
                OwnerStep::Clone => before.acquire(id),
                OwnerStep::Drop => before.release(id),
            }
        }
    }

    /// The native calls that were asked for while the owners of the context
    /// `id` were made and given up as `steps` says, in order.
    pub open spec fn replay_calls(self, id: int, steps: Seq<OwnerStep>) -> Seq<NativeCall>
        decreases steps.len(),
    {
        if steps.len() == 0 {
            Seq::empty()
        } else {
            let before = self.replay(id, steps.drop_last());
            let calls = self.replay_calls(id, steps.drop_last());
            match steps.last() {
                OwnerStep::Clone => calls,
                OwnerStep::Drop => calls + before.release_calls(id),
            }
        }
    }

    /// Shared ownership: however owners of a live context are made and given
    /// up, as long as one owner is left at every moment the context stays
    /// live under the same native identity, its owners are counted exactly,
    /// no native call is asked for and no log callback is touched.
    pub proof fn lemma_owners_keep_context_live(self, id: int, steps: Seq<OwnerStep>)
        requires
            self.is_live(id),
            forall|k: int|
                0 <= k <= steps.len() ==> self.owners(id) + #[trigger] owners_gained(
                    steps.take(k),
                ) >= 1,
        ensures
            self.replay(id, steps).is_live(id),
            self.replay(id, steps).owners(id) == self.owners(id) + owners_gained(steps),
            self.replay(id, steps).raw(id) == self.raw(id),
            self.replay(id, steps).callbacks == self.callbacks,
            self.replay_calls(id, steps) == Seq::<NativeCall>::empty(),
        decreases steps.len(),
    {
        if steps.len() > 0 {
            let shorter = steps.drop_last();
            assert forall|k: int| 0 <= k <= shorter.len() implies self.owners(id)
                + #[trigger] owners_gained(shorter.take(k)) >= 1 by {
                assert(shorter.take(k) =~= steps.take(k));
            }
            self.lemma_owners_keep_context_live(id, shorter);
            assert(steps.take(steps.len() as int) =~= steps);
            assert(self.owners(id) + owners_gained(steps.take(steps.len() as int)) >= 1);
        }
    }

    /// Release exactly once: however owners of a live context are made and
    /// given up, the release of the native context has been asked for once
    /// if no owner is left, and never while one is. A released context stays
    /// released.
    pub proof fn lemma_released_exactly_once(self, id: int, steps: Seq<OwnerStep>)
        requires
            self.is_live(id),
        ensures
            self.replay(id, steps).raw(id) == self.raw(id),
            self.replay(id, steps).contexts.len() == self.contexts.len(),
            self.replay_calls(id, steps) == if self.replay(id, steps).is_live(id) {
                Seq::<NativeCall>::empty()
            } else {
                seq![NativeCall::Exit { context: self.raw(id) }]
            },
        decreases steps.len(),
    {
        if steps.len() > 0 {
            self.lemma_released_exactly_once(id, steps.drop_last());
        }
    }

    /// Contexts are independent: creating a context, and making or giving up
    /// an owner of a context, leaves every other context as it was, and
    /// leaves it its log callback unless both have the same native identity.
    pub proof fn lemma_contexts_are_independent(self, id: int, other: int, created: usize)
        requires
            0 <= other < self.contexts.len(),
            other != id,
        ensures
            self.create(created).contexts[other] == self.contexts[other],
            self.acquire(id).contexts[other] == self.contexts[other],
            self.release(id).contexts[other] == self.contexts[other],
            self.create(created).callbacks == self.callbacks,
            self.acquire(id).callbacks == self.callbacks,
            !self.is_live(id) || self.raw(other) != self.raw(id) ==> resolve(
                self.release(id).callbacks,
                self.raw(other),
            ) == resolve(self.callbacks, self.raw(other)),
    {
    }

    /// Released for good: whatever is tried on the owners of a context that
    /// is not live, nothing changes and no native call is asked for. A
    /// released context is never released again and never comes back.
    pub proof fn lemma_released_stays_released(self, id: int, steps: Seq<OwnerStep>)
        requires
            !self.is_live(id),
        ensures
            self.replay(id, steps) == self,
            self.replay_calls(id, steps) == Seq::<NativeCall>::empty(),
        decreases steps.len(),
    {
        if steps.len() > 0 {
            self.lemma_released_stays_released(id, steps.drop_last());
        }
    }

    /// The last owner: giving it up removes the log callback of the context,
    /// asks for the release of the native context and leaves no live context
    /// behind.
    pub proof fn lemma_last_owner_releases(self, id: int)
        requires
            self.is_live(id),
            self.owners(id) == 1,
        ensures
            !self.release(id).is_live(id),
            !self.release(id).callbacks.contains_key(LogKey::Context(self.raw(id))),
            self.release_calls(id) == seq![NativeCall::Exit { context: self.raw(id) }],
    {
    }

    /// An owner that is made and given up again leaves no trace: while a
    /// device list lives, the devices taken from it may come and go.
    pub proof fn lemma_acquire_release_cancel(self, id: int)
        requires
            self.is_live(id),
        ensures
            self.acquire(id).release(id) == self,
            self.acquire(id).release_calls(id) == Seq::<NativeCall>::empty(),
    {
    }

    /// Silence lasts: where no callback receives the log lines tagged with a
    /// native identity, none does after contexts were created and owners
    /// made or given up. Only a registration makes a context heard.
    pub proof fn lemma_silence_lasts(self, raw: usize, id: int, created: usize)
        requires
            resolve(self.callbacks, raw).is_none(),
        ensures
            resolve(self.create(created).callbacks, raw).is_none(),
            resolve(self.acquire(id).callbacks, raw).is_none(),
            resolve(self.release(id).callbacks, raw).is_none(),
    {
    }

    /// A released context is silent: once the last owner of a context is
    /// given up, and as long as no callback is registered for the whole
    /// process, no callback receives a log line tagged with its native
    /// identity, not even after the native library has given that identity
    /// to a new context.
    pub proof fn lemma_released_context_is_silent(self, id: int, reused: usize)
        requires
            self.is_live(id),
            self.owners(id) == 1,
            !self.callbacks.contains_key(LogKey::Global),
        ensures
            resolve(self.release(id).callbacks, self.raw(id)).is_none(),
            resolve(self.release(id).create(reused).callbacks, self.raw(id)).is_none(),
    {
    }
}

/// One native context: its identity in the native library and the number
/// of its owners. The native context is released when the count falls to
/// zero, and the count stays there.
#[derive(Clone, Copy)]
struct RawContext {
    raw: usize,
    owners: usize,
}

/// The bookkeeping of one process.
pub struct Runtime<F> {
    slots: Vec<RawContext>,
    callbacks: LogCallbackMap<F>,
}

impl<F> View for Runtime<F> {
    type V = RuntimeState<F>;

    closed spec fn view(&self) -> RuntimeState<F> {
        RuntimeState {
            contexts: Seq::new(
                self.slots@.len(),
                |id: int| ContextState { raw: self.slots@[id].raw, owners: self.slots@[id].owners as nat },
            ),
            callbacks: self.callbacks@,
        }
    }
}

impl<F: Fn(LogLevel, String)> Runtime<F> {
    /// The invariant of the bookkeeping: every callback may be invoked on
    /// every log line, and every callback of context scope belongs to a live
    /// context.
    pub closed spec fn wf(&self) -> bool {
        &&& self.callbacks.wf()
        &&& self@.entries_are_live()
    }

    /// What the invariant says of the state: every callback of context
    /// scope belongs to a live context, so no log line reaches the callback
    /// of a context that was released.
    pub proof fn lemma_entries_are_live(&self)
        requires
            self.wf(),
        ensures
            self@.entries_are_live(),
    {
    }

    /// A runtime in which nothing has happened yet.
    pub fn new() -> (runtime: Self)
        ensures
            runtime.wf(),
            runtime@ == RuntimeState::<F>::initial(),
    {
        let runtime = Runtime { slots: Vec::new(), callbacks: LogCallbackMap::new() };
        runtime
    }

    /// Enters a context that the native library has just created under the
    /// identity `raw`, and gives its identity in this crate.
    pub(crate) fn create(&mut self, raw: usize) -> (id: usize)
        requires
            old(self).wf(),
        ensures
            final(self).wf(),
            final(self)@ == old(self)@.create(raw),
            id == old(self)@.contexts.len(),
    {
        let id = self.slots.len();
        self.slots.push(RawContext { raw, owners: 1 });
        proof {
            assert(self@.contexts =~= old(self)@.contexts.push(ContextState { raw, owners: 1 }));
            old(self)@.lemma_create_keeps_entries_live(raw);
        }
        id
    }

    /// Adds one owner to the live context `id`.
    pub(crate) fn acquire(&mut self, id: usize)
        requires
            old(self).wf(),
            old(self)@.is_live(id as int),
            old(self)@.owners(id as int) < usize::MAX,
        ensures
            final(self).wf(),
            final(self)@ == old(self)@.acquire(id as int),
    {
        let slot = self.slots[id];
        self.slots.set(id, RawContext { raw: slot.raw, owners: slot.owners + 1 });
        proof {
            assert(self@.contexts =~= old(self)@.acquire(id as int).contexts);
            old(self)@.lemma_acquire_keeps_entries_live(id as int);
        }
    }

    /// Takes one owner from the live context `id`, and gives the native calls
    /// that this asks for.
    pub(crate) fn release(&mut self, id: usize) -> (calls: Vec<NativeCall>)
        requires
            old(self).wf(),
            old(self)@.is_live(id as int),
        ensures
            final(self).wf(),
            final(self)@ == old(self)@.release(id as int),
            calls@ == old(self)@.release_calls(id as int),
    {
        let slot = self.slots[id];
        let mut calls = Vec::new();
        if slot.owners > 1 {
            self.slots.set(id, RawContext { raw: slot.raw, owners: slot.owners - 1 });
        } else {
            self.callbacks.remove(LogKey::Context(slot.raw));
            self.slots.set(id, RawContext { raw: slot.raw, owners: 0 });
            calls.push(NativeCall::Exit { context: slot.raw });
        }
        proof {
            assert(self@.contexts =~= old(self)@.release(id as int).contexts);
            old(self)@.lemma_release_keeps_entries_live(id as int);
        }
        calls
    }

    /// Registers `callback` under `key`, in place of an earlier one.
    pub(crate) fn register(&mut self, key: LogKey, callback: F)
        requires
            old(self).wf(),
            accepts_every_line(callback),
            key matches LogKey::Context(raw) ==> old(self)@.is_live_identity(raw),
        ensures
            final(self).wf(),
            final(self)@ == old(self)@.register(key, callback),
    {
        self.callbacks.insert(key, callback);
        proof {
            old(self)@.lemma_register_keeps_entries_live(key, callback);
        }
    }

    /// The number of contexts created so far.
    pub fn issued(&self) -> (count: usize)
        ensures
            count == self@.contexts.len(),
    {
        self.slots.len()
    }

    /// The number of owners of the context `id`; zero for a released context
    /// and for an identity that was never given out.
    pub fn owners_of(&self, id: usize) -> (owners: usize)
        ensures
            owners == self@.owners(id as int),
    {
        if id < self.slots.len() {
            self.slots[id].owners
        } else {
            0
        }
    }

    /// The native identity of the context `id`, if it was ever given out.
    pub fn raw_of(&self, id: usize) -> (raw: Option<usize>)
        ensures
            raw == if id < self@.contexts.len() {
                Some(self@.raw(id as int))
            } else {
                None
            },
    {
        if id < self.slots.len() {
            Some(self.slots[id].raw)
        } else {
            None
        }
    }

    /// The callback that receives a log line tagged with the native identity
    /// `context`.
    pub fn resolve(&self, context: usize) -> (found: Option<&F>)
        ensures
            found.is_some() == resolve(self@.callbacks, context).is_some(),
            found matches Some(callback) ==> Some(*callback) == resolve(self@.callbacks, context),
    {
        self.callbacks.resolve(context)
    }

    /// The trampoline: delivers one log line of the native library, tagged
    /// with the native identity of the context it stems from, to the callback
    /// registered for it. The message buffer is decoded as UTF-8; a buffer
    /// that is not UTF-8 is delivered as the empty text. Says whether a
    /// callback was invoked.
    pub fn dispatch(&self, context: usize, level: i32, text: &[u8]) -> (delivered: bool)
        requires
            self.wf(),
        ensures
            delivered == resolve(self@.callbacks, context).is_some(),
            delivered ==> invoked_on(resolve(self@.callbacks, context).unwrap(), level, text@),
    {
        self.callbacks.dispatch(context, level, text)
    }
}

} // verus!
