//! Modules of precompiled kernels and compute graphs.
use crate::compute_graph::ComputeGraph;
use crate::device::{is_module_archive, release_module_table, DeviceState, ModuleState};
use crate::error::{TaichiError, TaichiResult};
use crate::memory::same_instance;
use crate::runtime::{Runtime, RuntimeState};
use crate::sys::{TiAotModule, TiError, TiRuntime};
use vstd::prelude::*;
use vstd::string::StrSliceExecFns;

verus! {

/// Whether a text holds the terminator character, which no name passed to
/// the backend may hold.
pub open spec fn has_terminator(s: Seq<char>) -> bool {
    s.contains('\0')
}

/// Whether `s` holds the terminator character.
pub fn contains_terminator(s: &str) -> (r: bool)
    ensures
        r == has_terminator(s@),
{
    let n = s.unicode_len();
    let mut i: usize = 0;
    while i < n
        invariant
            n == s@.len(),
            i <= n,
            forall|j: int| 0 <= j < i ==> s@[j] != '\0',
        decreases n - i,
    {
        if s.get_char(i) == '\0' {
            return true;
        }
        i = i + 1;
    }
    false
}

/// A loaded module, held by this value. Further holders come from `share`;
/// each holder lets go with `release`, and the last one destroys it. Each
/// compute graph taken from it holds it too.
pub struct AotModule {
    runtime: TiRuntime,
    handle: TiAotModule,
}

impl AotModule {
    /// The handle that names this module on the device.
    pub closed spec fn id(&self) -> usize {
        self.handle.0
    }

    /// The handle of the runtime this module belongs to.
    pub closed spec fn spec_runtime(&self) -> TiRuntime {
        self.runtime
    }

    /// What a load or creation that the device accepts leaves: where a
    /// handle is free, one more module, held once, offering `graphs`;
    /// otherwise OutOfMemory and no change.
    pub open spec fn added(
        before: RuntimeState,
        graphs: Seq<Seq<char>>,
        after: RuntimeState,
        r: TaichiResult<AotModule>,
    ) -> bool {
        &&& before.device.handle_free() ==> {
            &&& r matches Ok(m) && m.id() == before.device.next_handle && m.spec_runtime()
                == before.handle
            &&& after.device == (DeviceState {
                modules: before.device.modules.insert(
                    before.device.next_handle as usize,
                    ModuleState { graphs, refs: 1 },
                ),
                next_handle: before.device.next_handle + 1,
                ..before.device.with_success()
            })
        }
        &&& !before.device.handle_free() ==> {
            &&& r matches Err(e) && e.code == TiError::OutOfMemory
            &&& after.device.same_resources(before.device)
        }
    }

    /// What `load` does: a path holding the terminator is refused with
    /// InvalidArgument before the device is asked; a path under which no
    /// module is stored gives NameNotFound; otherwise the stored module is
    /// loaded.
    pub open spec fn load_outcome(
        before: RuntimeState,
        path: Seq<char>,
        after: RuntimeState,
        r: TaichiResult<AotModule>,
    ) -> bool {
        &&& has_terminator(path) ==> (r matches Err(e) && e.code == TiError::InvalidArgument)
            && after == before
        &&& !has_terminator(path) ==> {
            &&& same_instance(before, after)
            &&& after.device.error == TiError::Success
            &&& !before.device.store.contains_key(path) ==> {
                &&& r matches Err(e) && e.code == TiError::NameNotFound
                &&& after.device.same_resources(before.device)
            }
            &&& before.device.store.contains_key(path) ==> Self::added(
                before,
                before.device.store[path],
                after,
                r,
            )
        }
    }

    /// What `new` does: a payload that is not a module archive gives
    /// CorruptedData; otherwise a module is created, offering no graph.
    pub open spec fn create_outcome(
        before: RuntimeState,
        tcm: Seq<u8>,
        after: RuntimeState,
        r: TaichiResult<AotModule>,
    ) -> bool {
        &&& same_instance(before, after)
        &&& after.device.error == TiError::Success
        &&& !is_module_archive(tcm) ==> {
            &&& r matches Err(e) && e.code == TiError::CorruptedData
            &&& after.device.same_resources(before.device)
        }
        &&& is_module_archive(tcm) ==> Self::added(before, Seq::empty(), after, r)
    }

    /// Loads the module stored under `module_dir`.
    pub fn load(runtime: &mut Runtime, module_dir: &str) -> (r: TaichiResult<AotModule>)
        requires
            old(runtime)@.wf(),
        ensures
            final(runtime)@.wf(),
            Self::load_outcome(old(runtime)@, module_dir@, final(runtime)@, r),
    {
        if contains_terminator(module_dir) {
            return Err(TaichiError::InvalidArgument(module_dir));
        }
        let handle = runtime.device_mut().load_module(module_dir);
        match runtime.get_last_error() {
            Ok(()) => Ok(AotModule { runtime: runtime.runtime(), handle }),
            Err(e) => Err(e),
        }
    }

    /// Creates a module from an in-memory payload.
    pub fn new(runtime: &mut Runtime, tcm: &[u8]) -> (r: TaichiResult<AotModule>)
        requires
            old(runtime)@.wf(),
        ensures
            final(runtime)@.wf(),
            Self::create_outcome(old(runtime)@, tcm@, final(runtime)@, r),
    {
        let handle = runtime.device_mut().create_module(tcm);
        match runtime.get_last_error() {
            Ok(()) => Ok(AotModule { runtime: runtime.runtime(), handle }),
            Err(e) => Err(e),
        }
    }

    /// Looks up the compute graph named `name`; see `ComputeGraph::new`.
    pub fn get_compute_graph(&self, runtime: &mut Runtime, name: &str) -> (r: TaichiResult<
        ComputeGraph,
    >)
        requires
            old(runtime)@.wf(),
            self.spec_runtime() == old(runtime)@.handle,
        ensures
            final(runtime)@.wf(),
            ComputeGraph::new_outcome(old(runtime)@, *self, name@, final(runtime)@, r),
    {
        ComputeGraph::new(self, runtime, name)
    }

    /// Another holder of this module.
    pub fn share(&self, runtime: &mut Runtime) -> (r: TaichiResult<AotModule>)
        requires
            old(runtime)@.wf(),
            self.spec_runtime() == old(runtime)@.handle,
        ensures
            final(runtime)@.wf(),
            same_instance(old(runtime)@, final(runtime)@),
            final(runtime)@.device.error == TiError::Success,
            r is Ok == (old(runtime)@.device.modules.contains_key(self.id())
                && crate::device::can_share(old(runtime)@.device.modules[self.id()].refs)),
            r matches Ok(m) ==> m.id() == self.id() && m.spec_runtime() == self.spec_runtime()
                && final(runtime)@.device == (DeviceState {
                modules: old(runtime)@.device.modules.insert(
                    self.id(),
                    ModuleState {
                        refs: old(runtime)@.device.modules[self.id()].refs + 1,
                        ..old(runtime)@.device.modules[self.id()]
                    },
                ),
                ..old(runtime)@.device.with_success()
            }),
            r matches Err(e) ==> e.code == (if old(runtime)@.device.modules.contains_key(self.id()) {
                TiError::OutOfMemory
            } else {
                TiError::InvalidArgument
            }),
            r is Err ==> final(runtime)@.device.same_resources(old(runtime)@.device),
    {
        runtime.device_mut().share_module(self.handle);
        match runtime.get_last_error() {
            Ok(()) => Ok(AotModule { runtime: self.runtime, handle: self.handle }),
            Err(e) => Err(e),
        }
    }

    /// Lets go of this holder; the module is destroyed with its last holder.
    /// The result says whether it was destroyed.
    pub fn release(self, runtime: &mut Runtime) -> (r: TaichiResult<bool>)
        requires
            old(runtime)@.wf(),
            self.spec_runtime() == old(runtime)@.handle,
        ensures
            final(runtime)@.wf(),
            same_instance(old(runtime)@, final(runtime)@),
            final(runtime)@.device.error == TiError::Success,
            r is Ok == old(runtime)@.device.modules.contains_key(self.id()),
            r matches Ok(freed) ==> freed == (old(runtime)@.device.modules[self.id()].refs <= 1)
                && final(runtime)@.device == (DeviceState {
                modules: release_module_table(old(runtime)@.device.modules, self.id()),
                ..old(runtime)@.device.with_success()
            }),
            r is Err ==> final(runtime)@.device.same_resources(old(runtime)@.device),
    {
        let freed = runtime.device_mut().release_module(self.handle);
        match runtime.get_last_error() {
            Ok(()) => Ok(freed),
            Err(e) => Err(e),
        }
    }

    pub fn runtime(&self) -> (r: TiRuntime)
        ensures
            r == self.spec_runtime(),
    {
        self.runtime
    }

    pub fn aot_module(&self) -> (r: TiAotModule)
        ensures
            r.0 == self.id(),
    {
        self.handle
    }
}

/// A module table after `n` more holders of `h` join.
pub open spec fn module_share_n(t: Map<usize, ModuleState>, h: usize, n: nat) -> Map<usize, ModuleState>
    decreases n,
{
    if n == 0 {
        t
    } else {
        let s = module_share_n(t, h, (n - 1) as nat);
        s.insert(h, ModuleState { refs: s[h].refs + 1, ..s[h] })
    }
}

/// A module table after `n` holders of `h` let go.
pub open spec fn module_release_n(t: Map<usize, ModuleState>, h: usize, n: nat) -> Map<usize, ModuleState>
    decreases n,
{
    if n == 0 {
        t
    } else {
        release_module_table(module_release_n(t, h, (n - 1) as nat), h)
    }
}

proof fn lemma_module_share_n(t: Map<usize, ModuleState>, h: usize, n: nat)
    requires
        t.contains_key(h),
    ensures
        module_share_n(t, h, n) == t.insert(h, ModuleState { refs: t[h].refs + n, ..t[h] }),
    decreases n,
{
    if n > 0 {
        lemma_module_share_n(t, h, (n - 1) as nat);
        assert(module_share_n(t, h, n) =~= t.insert(h, ModuleState { refs: t[h].refs + n, ..t[h] }));
    } else {
        assert(t.insert(h, ModuleState { refs: t[h].refs + n, ..t[h] }) =~= t);
    }
}

proof fn lemma_module_release_n(t: Map<usize, ModuleState>, h: usize, n: nat, k: nat)
    requires
        t.contains_key(h),
        t[h].refs == k + n,
        k >= 1,
    ensures
        module_release_n(t, h, n) == t.insert(h, ModuleState { refs: k, ..t[h] }),
    decreases n,
{
    if n > 0 {
        lemma_module_release_n(t, h, (n - 1) as nat, k + 1);
        assert(module_release_n(t, h, n) =~= t.insert(h, ModuleState { refs: k, ..t[h] }));
    } else {
        assert(t.insert(h, ModuleState { refs: k, ..t[h] }) =~= t);
    }
}

/// Reference counting destroys a module exactly once: after `n` more holders
/// of a module held once join and `n` holders let go, the module is still
/// there as it was; the next release destroys it, and a release after that finds
/// nothing to free.
pub proof fn lemma_module_release_destroys_once(t: Map<usize, ModuleState>, h: usize, n: nat)
    requires
        t.contains_key(h),
        t[h].refs == 1,
    ensures
        module_release_n(module_share_n(t, h, n), h, n) == t,
        !module_release_n(module_share_n(t, h, n), h, n + 1).contains_key(h),
        module_release_n(module_share_n(t, h, n), h, n + 1) == t.remove(h),
{
    lemma_module_share_n(t, h, n);
    let s = module_share_n(t, h, n);
    lemma_module_release_n(s, h, n, 1);
    assert(module_release_n(s, h, n) =~= t);
    assert(module_release_n(s, h, n + 1) =~= t.remove(h));
}

} // verus!
