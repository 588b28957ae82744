//! The record of the two references that the host hands to native code, and
//! what the load, acquire and release hooks do to it.
//!
//! The runtime handle is recorded by the first load hook and never replaced.
//! The platform context is set by each acquire and cleared by each release; it
//! is only ever held while a runtime handle is recorded.
//!
//! Handles are opaque to this library: it keeps the address that the host
//! passed, as an integer, and never looks behind it.

use crate::platform::{jni_version_1_6, version_1_6};
use vstd::prelude::*;

verus! {

/// The version token that stands for a load hook that did not complete.
pub const INVALID_JNI_VERSION: i32 = 0;

/// The mathematical content of a [`Lifecycle`].
pub struct LifecycleView {
    /// The runtime handle, once a load hook has recorded one.
    pub runtime: Option<usize>,
    /// The platform context that is currently held, if any.
    pub context: Option<usize>,
}

impl LifecycleView {
    /// The record before any hook has run.
    pub open spec fn fresh() -> LifecycleView {
        LifecycleView { runtime: None, context: None }
    }

    /// A context is held only while a runtime handle is recorded.
    pub open spec fn wf(self) -> bool {
        self.context is Some ==> self.runtime is Some
    }

    /// The record after a load hook that was handed `vm`: the first handle
    /// stays, a later one is dropped.
    pub open spec fn loaded(self, vm: usize) -> LifecycleView {
        match self.runtime {
            Some(_) => self,
            None => LifecycleView { runtime: Some(vm), context: self.context },
        }
    }

    /// The record after an acquire of `context`: the new context replaces the
    /// one held, unless no runtime handle is recorded, when nothing changes.
    pub open spec fn acquired(self, context: usize) -> LifecycleView {
        match self.runtime {
            Some(_) => LifecycleView { runtime: self.runtime, context: Some(context) },
            None => self,
        }
    }

    /// The record after a release: no context is held.
    pub open spec fn released(self) -> LifecycleView {
        LifecycleView { runtime: self.runtime, context: None }
    }

    /// The record after a series of load hooks, handed `vms` in this order.
    pub open spec fn loaded_all(self, vms: Seq<usize>) -> LifecycleView
        decreases vms.len(),
    {
        if vms.len() == 0 {
            self
        } else {
            self.loaded_all(vms.drop_last()).loaded(vms.last())
        }
    }
}

/// What the embedding program has to do to the platform's own context store
/// after an acquire or a release. That store refuses a second context while it
/// holds one, and a release while it holds none.
#[derive(Clone, Copy, Debug, PartialEq, Eq, Structural)]
pub enum ContextEffect {
    /// Leave the store as it is.
    Nothing,
    /// Hand the store `runtime` and `context`; it holds nothing yet.
    Initialize { runtime: usize, context: usize },
    /// Release what the store holds, then hand it `runtime` and `context`.
    Replace { runtime: usize, context: usize },
    /// Release what the store holds.
    Release,
}

impl ContextEffect {
    /// Whether a store that holds a context (`held`) or none accepts the
    /// effect without a fault.
    pub open spec fn accepted(self, held: bool) -> bool {
        match self {
            ContextEffect::Nothing => true,
            ContextEffect::Initialize { .. } => !held,
            ContextEffect::Replace { .. } => held,
            ContextEffect::Release => held,
        }
    }

    /// What the store holds once the effect is carried out on a store that
    /// held `before`.
    pub open spec fn applied(self, before: Option<usize>) -> Option<usize> {
        match self {
            ContextEffect::Nothing => before,
            ContextEffect::Initialize { context, .. } => Some(context),
            ContextEffect::Replace { context, .. } => Some(context),
            ContextEffect::Release => None,
        }
    }
}

/// The effect of an acquire of `context` on a record `before`.
pub open spec fn acquire_effect(before: LifecycleView, context: usize) -> ContextEffect {
    match before.runtime {
        None => ContextEffect::Nothing,
        Some(runtime) => if before.context is Some {
            ContextEffect::Replace { runtime, context }
        } else {
            ContextEffect::Initialize { runtime, context }
        },
    }
}

/// The effect of a release on a record `before`.
pub open spec fn release_effect(before: LifecycleView) -> ContextEffect {
    if before.context is Some {
        ContextEffect::Release
    } else {
        ContextEffect::Nothing
    }
}

/// What a load hook reports.
#[derive(Clone, Copy, Debug, PartialEq, Eq, Structural)]
pub struct Loaded {
    /// The version token for the host.
    pub version: i32,
    /// Whether this call was the one that recorded the runtime handle.
    pub recorded: bool,
}

/// The record of the runtime handle and of the platform context. The embedding
/// program owns one for the life of the process and lends it to each hook.
#[derive(Debug)]
pub struct Lifecycle {
    runtime: Option<usize>,
    context: Option<usize>,
}

impl View for Lifecycle {
    type V = LifecycleView;

    closed spec fn view(&self) -> LifecycleView {
        LifecycleView { runtime: self.runtime, context: self.context }
    }
}

impl Lifecycle {
    #[verifier::type_invariant]
    spec fn inv(self) -> bool {
        self@.wf()
    }

    /// The record before any hook has run.
    pub fn new() -> (state: Lifecycle)
        ensures
            state@ == LifecycleView::fresh(),
    {
        Lifecycle { runtime: None, context: None }
    }

    /// The platform context that is currently held, if any.
    pub fn current_context(&self) -> (context: Option<usize>)
        ensures
            context == self@.context,
            self@.wf(),
    {
        proof {
            use_type_invariant(self);
        }
        self.context
    }
}

impl Default for Lifecycle {
    fn default() -> (state: Lifecycle)
        ensures
            state@ == LifecycleView::fresh(),
    {
        Lifecycle::new()
    }
}

/// The load hook: records `vm` as the runtime handle unless one is recorded
/// already, and reports the JNI version that this library speaks.
#[allow(non_snake_case)]
pub fn JNI_OnLoad(state: &mut Lifecycle, vm: usize) -> (loaded: Loaded)
    ensures
        final(state)@ == old(state)@.loaded(vm),
        final(state)@.wf(),
        loaded.version == version_1_6(),
        loaded.recorded == (old(state)@.runtime is None),
{
    proof {
        use_type_invariant(&*state);
    }
    let recorded = state.runtime.is_none();
    if recorded {
        state.runtime = Some(vm);
    }
    Loaded { version: jni_version_1_6(), recorded }
}

/// The version token that the host receives: the one that the load hook
/// reported, or [`INVALID_JNI_VERSION`] where the hook did not complete.
pub fn reported_version(outcome: Option<Loaded>) -> (token: i32)
    ensures
        token == match outcome {
            Some(loaded) => loaded.version,
            None => INVALID_JNI_VERSION,
        },
{
    match outcome {
        Some(loaded) => loaded.version,
        None => INVALID_JNI_VERSION,
    }
}

/// The acquire hook: `context` becomes the platform context, in place of the
/// one held. Without a recorded runtime handle nothing is changed and nothing
/// is asked of the platform's store.
#[allow(non_snake_case)]
pub fn Java_one_rachelt_rust_1saf_MainActivity_initializeContext(
    state: &mut Lifecycle,
    context: usize,
) -> (effect: ContextEffect)
    ensures
        final(state)@ == old(state)@.acquired(context),
        final(state)@.wf(),
        effect == acquire_effect(old(state)@, context),
        effect.accepted(old(state)@.context is Some),
        effect.applied(old(state)@.context) == final(state)@.context,
{
    proof {
        use_type_invariant(&*state);
    }
    match state.runtime {
        None => ContextEffect::Nothing,
        Some(runtime) => {
            let held = state.context.is_some();
            state.context = Some(context);
            if held {
                ContextEffect::Replace { runtime, context }
            } else {
                ContextEffect::Initialize { runtime, context }
            }
        },
    }
}

/// The release hook: no platform context is held afterwards. Where none was
/// held, nothing is asked of the platform's store.
#[allow(non_snake_case)]
pub fn Java_one_rachelt_rust_1saf_MainActivity_releaseContext(state: &mut Lifecycle) -> (effect:
    ContextEffect)
    ensures
        final(state)@ == old(state)@.released(),
        final(state)@.wf(),
        effect == release_effect(old(state)@),
        effect.accepted(old(state)@.context is Some),
        effect.applied(old(state)@.context) == final(state)@.context,
{
    let held = state.context.is_some();
    state.context = None;
    if held {
        ContextEffect::Release
    } else {
        ContextEffect::Nothing
    }
}

/// The recorded runtime handle, or `None` while no load hook has completed.
pub fn get_jvm(state: &Lifecycle) -> (runtime: Option<usize>)
    ensures
        runtime == state@.runtime,
        state@.wf(),
{
    proof {
        use_type_invariant(state);
    }
    state.runtime
}

/// A record stays well formed under every hook.
pub proof fn lemma_hooks_keep_wf(before: LifecycleView, vm: usize, context: usize)
    requires
        before.wf(),
    ensures
        LifecycleView::fresh().wf(),
        before.loaded(vm).wf(),
        before.acquired(context).wf(),
        before.released().wf(),
{
}

/// A series of load hooks records the handle of the first one, unless a handle
/// was recorded before, and leaves the context alone.
pub proof fn lemma_loaded_all(before: LifecycleView, vms: Seq<usize>)
    ensures
        before.loaded_all(vms).context == before.context,
        before.loaded_all(vms).runtime == if before.runtime is Some {
            before.runtime
        } else if vms.len() > 0 {
            Some(vms[0])
        } else {
            None
        },
    decreases vms.len(),
{
    if vms.len() > 0 {
        lemma_loaded_all(before, vms.drop_last());
    }
}

/// The runtime handle is recorded exactly once. However many load hooks run,
/// and whatever they are handed: before the first of them no handle is
/// recorded, and after each of them the handle of the first one is.
pub proof fn lemma_first_load_wins(vms: Seq<usize>, k: int)
    requires
        0 <= k <= vms.len(),
    ensures
        LifecycleView::fresh().loaded_all(vms.take(k)).runtime == if k == 0 {
            None
        } else {
            Some(vms[0])
        },
{
    lemma_loaded_all(LifecycleView::fresh(), vms.take(k));
}

/// No context is held after a release, whether one was held before or not,
/// and so after an acquire that a release follows. A release that finds no
/// context changes nothing and asks nothing of the platform's store.
pub proof fn lemma_release_clears(before: LifecycleView, context: usize)
    ensures
        before.released().context is None,
        before.acquired(context).released().context is None,
        before.context is None ==> before.released() == before && release_effect(before)
            == ContextEffect::Nothing,
{
}

/// The last acquire wins: an acquire that finds a context held replaces it,
/// and the record is the one that the new context alone would have given.
pub proof fn lemma_last_acquire_wins(before: LifecycleView, context: usize)
    requires
        before.wf(),
        before.context is Some,
    ensures
        before.acquired(context).context == Some(context),
        before.acquired(context) == before.released().acquired(context),
        acquire_effect(before, context).applied(before.context) == Some(context),
{
}

} // verus!
