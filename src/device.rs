//! The host device: a backend instance that keeps its allocations in host
//! memory. It offers the backend's call surface (allocate, free, map, unmap,
//! load modules, look up graphs, launch, wait) and reports the outcome of each
//! call through a last-error slot, as the native backends do.
use crate::sys::{
    TiAotModule, TiComputeGraph, TiError, TiImage, TiImageAllocateInfo, TiMemory,
    TiMemoryAllocateInfo, TiNamedArgument, TiArgument,
};
use vstd::hash_map::{HashMapWithView, StringHashMap};
use vstd::prelude::*;
use vstd::slice::slice_to_vec;

verus! {

broadcast use vstd::std_specs::hash::group_hash_axioms;

/// The largest memory allocation the host device grants, in bytes.
pub const MAX_ALLOCATION_SIZE: u64 = 1073741824;

/// What the device holds for one memory allocation.
pub struct MemoryState {
    pub info: TiMemoryAllocateInfo,
    pub contents: Seq<u8>,
    pub mapped: bool,
    pub refs: nat,
}

/// What the device holds for one image.
pub struct ImageState {
    pub info: TiImageAllocateInfo,
    pub refs: nat,
}

/// What the device holds for one loaded module: the names of its graphs.
pub struct ModuleState {
    pub graphs: Seq<Seq<char>>,
    pub refs: nat,
}

/// A compute graph retrieved from a module.
pub struct GraphState {
    pub module: usize,
    pub name: Seq<char>,
}

/// A submitted graph launch, with the arguments it was given.
pub struct LaunchState {
    pub graph: usize,
    pub args: Seq<(Seq<char>, TiArgument)>,
}

/// The whole state of the device.
pub struct DeviceState {
    pub memories: Map<usize, MemoryState>,
    pub images: Map<usize, ImageState>,
    pub modules: Map<usize, ModuleState>,
    pub graphs: Map<usize, GraphState>,
    pub store: Map<Seq<char>, Seq<Seq<char>>>,
    pub pending: Seq<LaunchState>,
    pub next_handle: nat,
    pub error: TiError,
    pub message: Seq<char>,
}

impl DeviceState {
    /// This state with the last-error slot set.
    pub open spec fn with_error(self, error: TiError, message: Seq<char>) -> DeviceState {
        DeviceState { error, message, ..self }
    }

    /// This state with the last-error slot cleared.
    pub open spec fn with_success(self) -> DeviceState {
        self.with_error(TiError::Success, Seq::empty())
    }

    /// Whether every live handle lies below the next handle to be given
    /// out, which is never the null handle, and the contents of each memory
    /// allocation are as long as its size.
    pub open spec fn wf(self) -> bool {
        &&& self.next_handle >= 1
        &&& forall|k: usize| #[trigger] self.memories.contains_key(k) ==> k < self.next_handle
        &&& forall|k: usize|
            #[trigger] self.memories.contains_key(k) ==> self.memories[k].contents.len()
                == self.memories[k].info.size
        &&& forall|k: usize| #[trigger] self.images.contains_key(k) ==> k < self.next_handle
        &&& forall|k: usize| #[trigger] self.modules.contains_key(k) ==> k < self.next_handle
        &&& forall|k: usize| #[trigger] self.graphs.contains_key(k) ==> k < self.next_handle
    }

    /// Whether a handle is left to give out.
    pub open spec fn handle_free(self) -> bool {
        self.next_handle < usize::MAX
    }

    /// Whether no resource nor launch differs between the two states.
    pub open spec fn same_resources(self, other: DeviceState) -> bool {
        &&& self.memories == other.memories
        &&& self.images == other.images
        &&& self.modules == other.modules
        &&& self.graphs == other.graphs
        &&& self.store == other.store
        &&& self.pending == other.pending
        &&& self.next_handle == other.next_handle
    }
}

/// Whether a count of holders can grow by one.
pub open spec fn can_share(refs: nat) -> bool {
    refs < 0xffff_ffff_ffff_ffff
}

/// The memory state with one holder more.
pub open spec fn shared_memory(m: MemoryState) -> MemoryState {
    MemoryState { refs: m.refs + 1, ..m }
}

/// The memory state with one holder less.
pub open spec fn released_memory(m: MemoryState) -> MemoryState {
    MemoryState { refs: (m.refs - 1) as nat, ..m }
}

/// The memory table after a holder of `h` lets go: the entry goes with its
/// last holder.
pub open spec fn release_memory_table(t: Map<usize, MemoryState>, h: usize) -> Map<usize, MemoryState> {
    if t[h].refs <= 1 {
        t.remove(h)
    } else {
        t.insert(h, released_memory(t[h]))
    }
}

/// The image table after a holder of `h` lets go.
pub open spec fn release_image_table(t: Map<usize, ImageState>, h: usize) -> Map<usize, ImageState> {
    if t[h].refs <= 1 {
        t.remove(h)
    } else {
        t.insert(h, ImageState { refs: (t[h].refs - 1) as nat, ..t[h] })
    }
}

/// The module table after a holder of `h` lets go.
pub open spec fn release_module_table(t: Map<usize, ModuleState>, h: usize) -> Map<usize, ModuleState> {
    if t[h].refs <= 1 {
        t.remove(h)
    } else {
        t.insert(h, ModuleState { refs: (t[h].refs - 1) as nat, ..t[h] })
    }
}

/// Whether a payload is a module archive: it opens with the signature of a
/// zip local file header, `PK` followed by bytes 3 and 4.
pub open spec fn is_module_archive(p: Seq<u8>) -> bool {
    p.len() >= 4 && p[0] == 0x50u8 && p[1] == 0x4bu8 && p[2] == 3u8 && p[3] == 4u8
}

/// Whether a launch has the memory `h` bound as an array argument.
pub open spec fn launch_binds(l: LaunchState, h: usize) -> bool {
    exists|j: int|
        0 <= j < l.args.len() && match (#[trigger] l.args[j]).1 {
            TiArgument::Ndarray(a) => a.memory.0 == h,
            _ => false,
        }
}

/// Whether some launch of `pending` has the memory `h` bound.
pub open spec fn pending_binds(pending: Seq<LaunchState>, h: usize) -> bool {
    exists|i: int| 0 <= i < pending.len() && launch_binds(#[trigger] pending[i], h)
}

/// What completing the launches of `pending` may do to memory: the same
/// allocations, with the same descriptions, mappings and holders, and
/// contents of the same length; only the contents of memory bound to a
/// launch may change.
pub open spec fn launches_completed(
    before: Map<usize, MemoryState>,
    pending: Seq<LaunchState>,
    after: Map<usize, MemoryState>,
) -> bool {
    &&& after.dom() == before.dom()
    &&& forall|h: usize|
        #[trigger] before.contains_key(h) ==> {
            &&& after[h].info == before[h].info
            &&& after[h].mapped == before[h].mapped
            &&& after[h].refs == before[h].refs
            &&& after[h].contents.len() == before[h].contents.len()
            &&& !pending_binds(pending, h) ==> after[h].contents == before[h].contents
        }
}

/// The status of allocating memory as `info` describes.
pub open spec fn memory_allocation_status(info: TiMemoryAllocateInfo) -> TiError {
    if info.size == 0 {
        TiError::InvalidArgument
    } else if info.size > MAX_ALLOCATION_SIZE {
        TiError::OutOfMemory
    } else {
        TiError::Success
    }
}

/// The status of allocating an image as `info` describes.
pub open spec fn image_allocation_status(info: TiImageAllocateInfo) -> TiError {
    if info.extent.width == 0 || info.extent.height == 0 || info.extent.depth == 0
        || info.extent.array_layer_count == 0 || info.mip_level_count == 0 {
        TiError::InvalidArgument
    } else {
        TiError::Success
    }
}

struct MemorySlot {
    info: TiMemoryAllocateInfo,
    bytes: Vec<u8>,
    mapped: bool,
    refs: u64,
}

impl MemorySlot {
    spec fn state(self) -> MemoryState {
        MemoryState { info: self.info, contents: self.bytes@, mapped: self.mapped, refs: self.refs as nat }
    }
}

struct ImageSlot {
    info: TiImageAllocateInfo,
    refs: u64,
}

impl ImageSlot {
    spec fn state(self) -> ImageState {
        ImageState { info: self.info, refs: self.refs as nat }
    }
}

struct ModuleSlot {
    graphs: Vec<String>,
    refs: u64,
}

/// The texts of a sequence of strings.
pub open spec fn names_of(v: Seq<String>) -> Seq<Seq<char>> {
    v.map_values(|s: String| s@)
}

impl ModuleSlot {
    spec fn state(self) -> ModuleState {
        ModuleState { graphs: names_of(self.graphs@), refs: self.refs as nat }
    }
}

struct GraphSlot {
    module: usize,
    name: String,
}

impl GraphSlot {
    spec fn state(self) -> GraphState {
        GraphState { module: self.module, name: self.name@ }
    }
}

/// Each named argument as its name and value.
pub open spec fn args_of(v: Seq<TiNamedArgument>) -> Seq<(Seq<char>, TiArgument)> {
    v.map_values(|a: TiNamedArgument| (a.name@, a.argument))
}

struct LaunchSlot {
    graph: usize,
    args: Vec<TiNamedArgument>,
}

impl LaunchSlot {
    spec fn state(self) -> LaunchState {
        LaunchState { graph: self.graph, args: args_of(self.args@) }
    }
}

/// A backend instance whose allocations live in host memory.
pub struct Device {
    memories: HashMapWithView<usize, MemorySlot>,
    images: HashMapWithView<usize, ImageSlot>,
    modules: HashMapWithView<usize, ModuleSlot>,
    graphs: HashMapWithView<usize, GraphSlot>,
    store: StringHashMap<Vec<String>>,
    pending: Vec<LaunchSlot>,
    next_handle: usize,
    error: TiError,
    message: String,
}

impl View for Device {
    type V = DeviceState;

    closed spec fn view(&self) -> DeviceState {
        DeviceState {
            memories: self.memories@.map_values(|s: MemorySlot| s.state()),
            images: self.images@.map_values(|s: ImageSlot| s.state()),
            modules: self.modules@.map_values(|s: ModuleSlot| s.state()),
            graphs: self.graphs@.map_values(|s: GraphSlot| s.state()),
            store: self.store@.map_values(|v: Vec<String>| names_of(v@)),
            pending: self.pending@.map_values(|s: LaunchSlot| s.state()),
            next_handle: self.next_handle as nat,
            error: self.error,
            message: self.message@,
        }
    }
}

impl Device {
    /// A device with no resources and a clear error slot.
    pub fn new() -> (r: Device)
        ensures
            r@.memories == Map::<usize, MemoryState>::empty(),
            r@.images == Map::<usize, ImageState>::empty(),
            r@.modules == Map::<usize, ModuleState>::empty(),
            r@.graphs == Map::<usize, GraphState>::empty(),
            r@.store == Map::<Seq<char>, Seq<Seq<char>>>::empty(),
            r@.pending == Seq::<LaunchState>::empty(),
            r@.error == TiError::Success,
            r@.message == Seq::<char>::empty(),
            r@.next_handle == 1,
            r@.wf(),
    {
        let r = Device {
            memories: HashMapWithView::new(),
            images: HashMapWithView::new(),
            modules: HashMapWithView::new(),
            graphs: HashMapWithView::new(),
            store: StringHashMap::new(),
            pending: Vec::new(),
            next_handle: 1,
            error: TiError::Success,
            message: String::new(),
        };
        proof {
            assert(r@.memories =~= Map::<usize, MemoryState>::empty());
            assert(r@.images =~= Map::<usize, ImageState>::empty());
            assert(r@.modules =~= Map::<usize, ModuleState>::empty());
            assert(r@.graphs =~= Map::<usize, GraphState>::empty());
            assert(r@.store =~= Map::<Seq<char>, Seq<Seq<char>>>::empty());
            assert(r@.pending =~= Seq::<LaunchState>::empty());
        }
        r
    }

    fn report(&mut self, error: TiError, message: &str)
        ensures
            final(self)@ == old(self)@.with_error(error, message@),
    {
        self.error = error;
        self.message = message.to_owned();
    }

    fn clear_error(&mut self)
        ensures
            final(self)@ == old(self)@.with_success(),
    {
        self.error = TiError::Success;
        self.message = String::new();
    }

    /// The status in the last-error slot and the length of its text.
    pub fn peek_last_error(&self) -> (r: (TiError, usize))
        ensures
            r.0 == self@.error,
            r.1 == self@.message.len(),
    {
        (self.error, self.message.as_str().unicode_len())
    }

    /// Takes the error in the last-error slot: hands out its status and the
    /// length of its text, and, when `capacity` is at least that length, the
    /// text too, clearing the slot; otherwise the slot stays as it is.
    pub fn take_last_error(&mut self, capacity: usize) -> (r: (TiError, usize, Option<String>))
        requires
            old(self)@.wf(),
        ensures
            final(self)@.wf(),
            r.0 == old(self)@.error,
            r.1 == old(self)@.message.len(),
            capacity >= old(self)@.message.len() ==> {
                &&& r.2 is Some
                &&& r.2.unwrap()@ == old(self)@.message
                &&& final(self)@ == old(self)@.with_success()
            },
            capacity < old(self)@.message.len() ==> r.2 is None && final(self)@ == old(self)@,
    {
        let error = self.error;
        let len = self.message.as_str().unicode_len();
        if capacity >= len {
            let message = self.message.clone();
            self.clear_error();
            (error, len, Some(message))
        } else {
            (error, len, None)
        }
    }

    /// Puts a status and its text in the last-error slot.
    pub fn set_last_error(&mut self, error: TiError, message: &str)
        requires
            old(self)@.wf(),
        ensures
            final(self)@.wf(),
            final(self)@ == old(self)@.with_error(error, message@),
    {
        self.report(error, message);
    }

    fn fresh_handle(&mut self) -> (r: Option<usize>)
        requires
            old(self)@.wf(),
        ensures
            old(self)@.handle_free() ==> r == Some(old(self)@.next_handle as usize) && final(self)@
                == (DeviceState { next_handle: old(self)@.next_handle + 1, ..old(self)@ }),
            !old(self)@.handle_free() ==> r is None && final(self)@ == old(self)@,
    {
        if self.next_handle == usize::MAX {
            return None;
        }
        let h = self.next_handle;
        self.next_handle = self.next_handle + 1;
        Some(h)
    }

    /// Allocates memory as `info` describes, filled with zeros, held once.
    /// Reports InvalidArgument for a zero size and OutOfMemory for a size over
    /// the device's limit or when handles run out; the null handle then.
    pub fn allocate_memory(&mut self, info: &TiMemoryAllocateInfo) -> (r: TiMemory)
        requires
            old(self)@.wf(),
        ensures
            final(self)@.wf(),
            memory_allocation_status(*info) != TiError::Success ==> {
                &&& r.0 == 0
                &&& final(self)@.error == memory_allocation_status(*info)
                &&& final(self)@.same_resources(old(self)@)
            },
            memory_allocation_status(*info) == TiError::Success ==> {
                &&& old(self)@.handle_free() ==> {
                    &&& r.0 == old(self)@.next_handle
                    &&& final(self)@ == (DeviceState {
                        memories: old(self)@.memories.insert(
                            r.0,
                            MemoryState {
                                info: *info,
                                contents: Seq::new(info.size as nat, |i: int| 0u8),
                                mapped: false,
                                refs: 1,
                            },
                        ),
                        next_handle: old(self)@.next_handle + 1,
                        ..old(self)@.with_success()
                    })
                }
                &&& !old(self)@.handle_free() ==> {
                    &&& r.0 == 0
                    &&& final(self)@.error == TiError::OutOfMemory
                    &&& final(self)@.same_resources(old(self)@)
                }
            },
    {
        if info.size == 0 {
            self.report(TiError::InvalidArgument, "memory size must not be zero");
            return TiMemory(0);
        }
        if info.size > MAX_ALLOCATION_SIZE {
            self.report(TiError::OutOfMemory, "memory size exceeds the device limit");
            return TiMemory(0);
        }
        let h = match self.fresh_handle() {
            Some(h) => h,
            None => {
                self.report(TiError::OutOfMemory, "no handle left");
                return TiMemory(0);
            },
        };
        let n = info.size as usize;
        let mut bytes: Vec<u8> = Vec::new();
        let mut i: usize = 0;
        while i < n
            invariant
                i <= n,
                bytes@ =~= Seq::new(i as nat, |j: int| 0u8),
            decreases n - i,
        {
            bytes.push(0u8);
            i = i + 1;
        }
        let ghost before = self@;
        self.memories.insert(h, MemorySlot { info: *info, bytes, mapped: false, refs: 1 });
        self.clear_error();
        proof {
            assert(self@.memories =~= before.memories.insert(
                h,
                MemoryState {
                    info: *info,
                    contents: Seq::new(info.size as nat, |i: int| 0u8),
                    mapped: false,
                    refs: 1,
                },
            ));
        }
        TiMemory(h)
    }

    /// Adds a holder to a memory allocation. Reports InvalidArgument for a
    /// handle that names no allocation, and OutOfMemory when the count is full.
    pub fn share_memory(&mut self, h: TiMemory) -> (ok: bool)
        requires
            old(self)@.wf(),
        ensures
            final(self)@.wf(),
            ok == (old(self)@.memories.contains_key(h.0) && can_share(old(self)@.memories[h.0].refs)),
            ok ==> final(self)@ == (DeviceState {
                memories: old(self)@.memories.insert(h.0, shared_memory(old(self)@.memories[h.0])),
                ..old(self)@.with_success()
            }),
            !ok ==> final(self)@.same_resources(old(self)@) && final(self)@.error == (
            if old(self)@.memories.contains_key(h.0) {
                TiError::OutOfMemory
            } else {
                TiError::InvalidArgument
            }),
    {
        let ghost before = self@;
        match self.memories.remove(&h.0) {
            Some(mut slot) => {
                if slot.refs == 0xffff_ffff_ffff_ffff {
                    self.memories.insert(h.0, slot);
                    proof {
                        assert(self@.memories =~= before.memories);
                    }
                    self.report(TiError::OutOfMemory, "too many holders");
                    return false;
                }
                slot.refs = slot.refs + 1;
                self.memories.insert(h.0, slot);
                self.clear_error();
                proof {
                    assert(self@.memories =~= before.memories.insert(
                        h.0,
                        shared_memory(before.memories[h.0]),
                    ));
                }
                true
            },
            None => {
                self.report(TiError::InvalidArgument, "no such memory");
                false
            },
        }
    }

    /// Removes a holder from a memory allocation and frees it when that was
    /// the last one; `freed` says whether it was freed. Reports
    /// InvalidArgument for a handle that names no allocation.
    pub fn release_memory(&mut self, h: TiMemory) -> (freed: bool)
        requires
            old(self)@.wf(),
        ensures
            final(self)@.wf(),
            old(self)@.memories.contains_key(h.0) ==> {
                &&& freed == (old(self)@.memories[h.0].refs <= 1)
                &&& final(self)@ == (DeviceState {
                    memories: release_memory_table(old(self)@.memories, h.0),
                    ..old(self)@.with_success()
                })
            },
            !old(self)@.memories.contains_key(h.0) ==> {
                &&& !freed
                &&& final(self)@.same_resources(old(self)@)
                &&& final(self)@.error == TiError::InvalidArgument
            },
    {
        let ghost before = self@;
        match self.memories.remove(&h.0) {
            Some(mut slot) => {
                if slot.refs <= 1 {
                    self.clear_error();
                    proof {
                        assert(self@.memories =~= release_memory_table(before.memories, h.0));
                    }
                    true
                } else {
                    slot.refs = slot.refs - 1;
                    self.memories.insert(h.0, slot);
                    self.clear_error();
                    proof {
                        assert(self@.memories =~= release_memory_table(before.memories, h.0));
                    }
                    false
                }
            },
            None => {
                self.report(TiError::InvalidArgument, "no such memory");
                false
            },
        }
    }

    /// Maps a memory allocation for host access. Reports InvalidArgument for a
    /// handle that names no allocation and InvalidState for one already mapped.
    pub fn map_memory(&mut self, h: TiMemory) -> (ok: bool)
        requires
            old(self)@.wf(),
        ensures
            final(self)@.wf(),
            ok == (old(self)@.memories.contains_key(h.0) && !old(self)@.memories[h.0].mapped),
            ok ==> final(self)@ == (DeviceState {
                memories: old(self)@.memories.insert(
                    h.0,
                    MemoryState { mapped: true, ..old(self)@.memories[h.0] },
                ),
                ..old(self)@.with_success()
            }),
            !ok ==> final(self)@.same_resources(old(self)@) && final(self)@.error == (
            if old(self)@.memories.contains_key(h.0) {
                TiError::InvalidState
            } else {
                TiError::InvalidArgument
            }),
    {
        self.set_mapped(h, true)
    }

    /// Ends the host mapping of a memory allocation. Reports InvalidArgument
    /// for a handle that names no allocation and InvalidState for one that is
    /// not mapped.
    pub fn unmap_memory(&mut self, h: TiMemory) -> (ok: bool)
        requires
            old(self)@.wf(),
        ensures
            final(self)@.wf(),
            ok == (old(self)@.memories.contains_key(h.0) && old(self)@.memories[h.0].mapped),
            ok ==> final(self)@ == (DeviceState {
                memories: old(self)@.memories.insert(
                    h.0,
                    MemoryState { mapped: false, ..old(self)@.memories[h.0] },
                ),
                ..old(self)@.with_success()
            }),
            !ok ==> final(self)@.same_resources(old(self)@) && final(self)@.error == (
            if old(self)@.memories.contains_key(h.0) {
                TiError::InvalidState
            } else {
                TiError::InvalidArgument
            }),
    {
        self.set_mapped(h, false)
    }

    fn set_mapped(&mut self, h: TiMemory, mapped: bool) -> (ok: bool)
        requires
            old(self)@.wf(),
        ensures
            final(self)@.wf(),
            ok == (old(self)@.memories.contains_key(h.0) && old(self)@.memories[h.0].mapped
                != mapped),
            ok ==> final(self)@ == (DeviceState {
                memories: old(self)@.memories.insert(
                    h.0,
                    MemoryState { mapped, ..old(self)@.memories[h.0] },
                ),
                ..old(self)@.with_success()
            }),
            !ok ==> final(self)@.same_resources(old(self)@) && final(self)@.error == (
            if old(self)@.memories.contains_key(h.0) {
                TiError::InvalidState
            } else {
                TiError::InvalidArgument
            }),
    {
        let ghost before = self@;
        match self.memories.remove(&h.0) {
            Some(mut slot) => {
                if slot.mapped == mapped {
                    self.memories.insert(h.0, slot);
                    proof {
                        assert(self@.memories =~= before.memories);
                    }
                    if mapped {
                        self.report(TiError::InvalidState, "memory is already mapped");
                    } else {
                        self.report(TiError::InvalidState, "memory is not mapped");
                    }
                    return false;
                }
                slot.mapped = mapped;
                self.memories.insert(h.0, slot);
                self.clear_error();
                proof {
                    assert(self@.memories =~= before.memories.insert(
                        h.0,
                        MemoryState { mapped, ..before.memories[h.0] },
                    ));
                }
                true
            },
            None => {
                self.report(TiError::InvalidArgument, "no such memory");
                false
            },
        }
    }

    /// The bytes of a mapped memory allocation. Reports InvalidArgument for a
    /// handle that names no allocation and InvalidState for one not mapped.
    pub fn read_mapped(&mut self, h: TiMemory) -> (r: Option<Vec<u8>>)
        requires
            old(self)@.wf(),
        ensures
            final(self)@.wf(),
            r is Some == (old(self)@.memories.contains_key(h.0)
                && old(self)@.memories[h.0].mapped),
            r is Some ==> r.unwrap()@ == old(self)@.memories[h.0].contents && final(self)@
                == old(self)@.with_success(),
            r is None ==> final(self)@.same_resources(old(self)@) && final(self)@.error == (
            if old(self)@.memories.contains_key(h.0) {
                TiError::InvalidState
            } else {
                TiError::InvalidArgument
            }),
    {
        let copy = match self.memories.get(&h.0) {
            Some(slot) => {
                if slot.mapped {
                    Some(slice_to_vec(slot.bytes.as_slice()))
                } else {
                    None
                }
            },
            None => None,
        };
        match copy {
            Some(bytes) => {
                self.clear_error();
                Some(bytes)
            },
            None => {
                if self.memories.contains_key(&h.0) {
                    self.report(TiError::InvalidState, "memory is not mapped");
                } else {
                    self.report(TiError::InvalidArgument, "no such memory");
                }
                None
            },
        }
    }

    /// Replaces the bytes of a mapped memory allocation with `bytes`, which
    /// must be as long. Reports InvalidArgument for a handle that names no
    /// allocation or bytes of another length, and InvalidState for memory not
    /// mapped.
    pub fn write_mapped(&mut self, h: TiMemory, bytes: Vec<u8>) -> (ok: bool)
        requires
            old(self)@.wf(),
        ensures
            final(self)@.wf(),
            ok == (old(self)@.memories.contains_key(h.0) && old(self)@.memories[h.0].mapped
                && bytes@.len() == old(self)@.memories[h.0].contents.len()),
            ok ==> final(self)@ == (DeviceState {
                memories: old(self)@.memories.insert(
                    h.0,
                    MemoryState { contents: bytes@, ..old(self)@.memories[h.0] },
                ),
                ..old(self)@.with_success()
            }),
            !ok ==> final(self)@.same_resources(old(self)@) && final(self)@.error == (
            if old(self)@.memories.contains_key(h.0) && old(self)@.memories[h.0].mapped {
                TiError::InvalidArgument
            } else if old(self)@.memories.contains_key(h.0) {
                TiError::InvalidState
            } else {
                TiError::InvalidArgument
            }),
    {
        let ghost before = self@;
        match self.memories.remove(&h.0) {
            Some(mut slot) => {
                if !slot.mapped || bytes.len() != slot.bytes.len() {
                    let mapped = slot.mapped;
                    self.memories.insert(h.0, slot);
                    proof {
                        assert(self@.memories =~= before.memories);
                    }
                    if mapped {
                        self.report(TiError::InvalidArgument, "byte count differs from the size");
                    } else {
                        self.report(TiError::InvalidState, "memory is not mapped");
                    }
                    return false;
                }
                slot.bytes = bytes;
                self.memories.insert(h.0, slot);
                self.clear_error();
                proof {
                    assert(self@.memories =~= before.memories.insert(
                        h.0,
                        MemoryState { contents: bytes@, ..before.memories[h.0] },
                    ));
                }
                true
            },
            None => {
                self.report(TiError::InvalidArgument, "no such memory");
                false
            },
        }
    }

    /// Allocates an image as `info` describes, held once. Reports
    /// InvalidArgument for an empty extent or no mip level, and OutOfMemory
    /// when handles run out; the null handle then.
    pub fn allocate_image(&mut self, info: &TiImageAllocateInfo) -> (r: TiImage)
        requires
            old(self)@.wf(),
        ensures
            final(self)@.wf(),
            image_allocation_status(*info) != TiError::Success ==> {
                &&& r.0 == 0
                &&& final(self)@.error == image_allocation_status(*info)
                &&& final(self)@.same_resources(old(self)@)
            },
            image_allocation_status(*info) == TiError::Success ==> {
                &&& old(self)@.handle_free() ==> {
                    &&& r.0 == old(self)@.next_handle
                    &&& final(self)@ == (DeviceState {
                        images: old(self)@.images.insert(r.0, ImageState { info: *info, refs: 1 }),
                        next_handle: old(self)@.next_handle + 1,
                        ..old(self)@.with_success()
                    })
                }
                &&& !old(self)@.handle_free() ==> {
                    &&& r.0 == 0
                    &&& final(self)@.error == TiError::OutOfMemory
                    &&& final(self)@.same_resources(old(self)@)
                }
            },
    {
        if info.extent.width == 0 || info.extent.height == 0 || info.extent.depth == 0
            || info.extent.array_layer_count == 0 || info.mip_level_count == 0 {
            self.report(TiError::InvalidArgument, "image extent and mip level count must not be zero");
            return TiImage(0);
        }
        let h = match self.fresh_handle() {
            Some(h) => h,
            None => {
                self.report(TiError::OutOfMemory, "no handle left");
                return TiImage(0);
            },
        };
        let ghost before = self@;
        self.images.insert(h, ImageSlot { info: *info, refs: 1 });
        self.clear_error();
        proof {
            assert(self@.images =~= before.images.insert(h, ImageState { info: *info, refs: 1 }));
        }
        TiImage(h)
    }

    /// Adds a holder to an image. Reports InvalidArgument for a handle that
    /// names no image, and OutOfMemory when the count is full.
    pub fn share_image(&mut self, h: TiImage) -> (ok: bool)
        requires
            old(self)@.wf(),
        ensures
            final(self)@.wf(),
            ok == (old(self)@.images.contains_key(h.0) && can_share(old(self)@.images[h.0].refs)),
            ok ==> final(self)@ == (DeviceState {
                images: old(self)@.images.insert(
                    h.0,
                    ImageState { refs: old(self)@.images[h.0].refs + 1, ..old(self)@.images[h.0] },
                ),
                ..old(self)@.with_success()
            }),
            !ok ==> final(self)@.same_resources(old(self)@) && final(self)@.error == (
            if old(self)@.images.contains_key(h.0) {
                TiError::OutOfMemory
            } else {
                TiError::InvalidArgument
            }),
    {
        let ghost before = self@;
        match self.images.remove(&h.0) {
            Some(mut slot) => {
                if slot.refs == 0xffff_ffff_ffff_ffff {
                    self.images.insert(h.0, slot);
                    proof {
                        assert(self@.images =~= before.images);
                    }
                    self.report(TiError::OutOfMemory, "too many holders");
                    return false;
                }
                slot.refs = slot.refs + 1;
                self.images.insert(h.0, slot);
                self.clear_error();
                proof {
                    assert(self@.images =~= before.images.insert(
                        h.0,
                        ImageState { refs: before.images[h.0].refs + 1, ..before.images[h.0] },
                    ));
                }
                true
            },
            None => {
                self.report(TiError::InvalidArgument, "no such image");
                false
            },
        }
    }

    /// Removes a holder from an image and frees it when that was the last
    /// one. Reports InvalidArgument for a handle that names no image.
    pub fn release_image(&mut self, h: TiImage) -> (freed: bool)
        requires
            old(self)@.wf(),
        ensures
            final(self)@.wf(),
            old(self)@.images.contains_key(h.0) ==> {
                &&& freed == (old(self)@.images[h.0].refs <= 1)
                &&& final(self)@ == (DeviceState {
                    images: release_image_table(old(self)@.images, h.0),
                    ..old(self)@.with_success()
                })
            },
            !old(self)@.images.contains_key(h.0) ==> {
                &&& !freed
                &&& final(self)@.same_resources(old(self)@)
                &&& final(self)@.error == TiError::InvalidArgument
            },
    {
        let ghost before = self@;
        match self.images.remove(&h.0) {
            Some(mut slot) => {
                if slot.refs <= 1 {
                    self.clear_error();
                    proof {
                        assert(self@.images =~= release_image_table(before.images, h.0));
                    }
                    true
                } else {
                    slot.refs = slot.refs - 1;
                    self.images.insert(h.0, slot);
                    self.clear_error();
                    proof {
                        assert(self@.images =~= release_image_table(before.images, h.0));
                    }
                    false
                }
            },
            None => {
                self.report(TiError::InvalidArgument, "no such image");
                false
            },
        }
    }

    /// Makes a module with the given graphs available under `path`, in
    /// place of any module stored there before.
    pub fn store_module(&mut self, path: &str, graphs: Vec<String>)
        requires
            old(self)@.wf(),
        ensures
            final(self)@.wf(),
            final(self)@ == (DeviceState {
                store: old(self)@.store.insert(path@, names_of(graphs@)),
                ..old(self)@
            }),
    {
        let ghost before = self@;
        self.store.insert(path.to_owned(), graphs);
        proof {
            assert(self@.store =~= before.store.insert(path@, names_of(graphs@)));
        }
    }

    fn add_module(&mut self, graphs: Vec<String>) -> (r: TiAotModule)
        requires
            old(self)@.wf(),
        ensures
            final(self)@.wf(),
            old(self)@.handle_free() ==> {
                &&& r.0 == old(self)@.next_handle
                &&& final(self)@ == (DeviceState {
                    modules: old(self)@.modules.insert(
                        r.0,
                        ModuleState { graphs: names_of(graphs@), refs: 1 },
                    ),
                    next_handle: old(self)@.next_handle + 1,
                    ..old(self)@.with_success()
                })
            },
            !old(self)@.handle_free() ==> {
                &&& r.0 == 0
                &&& final(self)@.error == TiError::OutOfMemory
                &&& final(self)@.same_resources(old(self)@)
            },
    {
        let h = match self.fresh_handle() {
            Some(h) => h,
            None => {
                self.report(TiError::OutOfMemory, "no handle left");
                return TiAotModule(0);
            },
        };
        let ghost before = self@;
        let ghost names = names_of(graphs@);
        self.modules.insert(h, ModuleSlot { graphs, refs: 1 });
        self.clear_error();
        proof {
            assert(self@.modules =~= before.modules.insert(
                h,
                ModuleState { graphs: names, refs: 1 },
            ));
        }
        TiAotModule(h)
    }

    /// Loads the module stored under `path`. Reports NameNotFound where no
    /// module is stored there; the null handle then.
    pub fn load_module(&mut self, path: &str) -> (r: TiAotModule)
        requires
            old(self)@.wf(),
        ensures
            final(self)@.wf(),
            !old(self)@.store.contains_key(path@) ==> {
                &&& r.0 == 0
                &&& final(self)@.error == TiError::NameNotFound
                &&& final(self)@.same_resources(old(self)@)
            },
            old(self)@.store.contains_key(path@) ==> {
                &&& old(self)@.handle_free() ==> {
                    &&& r.0 == old(self)@.next_handle
                    &&& final(self)@ == (DeviceState {
                        modules: old(self)@.modules.insert(
                            r.0,
                            ModuleState { graphs: old(self)@.store[path@], refs: 1 },
                        ),
                        next_handle: old(self)@.next_handle + 1,
                        ..old(self)@.with_success()
                    })
                }
                &&& !old(self)@.handle_free() ==> {
                    &&& r.0 == 0
                    &&& final(self)@.error == TiError::OutOfMemory
                    &&& final(self)@.same_resources(old(self)@)
                }
            },
    {
        let graphs = match self.store.get(path) {
            Some(names) => clone_names(names),
            None => {
                self.report(TiError::NameNotFound, "no module is stored under this path");
                return TiAotModule(0);
            },
        };
        self.add_module(graphs)
    }

    /// Creates a module from an in-memory payload: an archive of compiled
    /// artifacts. The host device runs no precompiled code, so such a module
    /// offers no graph. Reports CorruptedData for a payload that is not an
    /// archive; the null handle then.
    pub fn create_module(&mut self, payload: &[u8]) -> (r: TiAotModule)
        requires
            old(self)@.wf(),
        ensures
            final(self)@.wf(),
            !is_module_archive(payload@) ==> {
                &&& r.0 == 0
                &&& final(self)@.error == TiError::CorruptedData
                &&& final(self)@.same_resources(old(self)@)
            },
            is_module_archive(payload@) && old(self)@.handle_free() ==> {
                &&& r.0 == old(self)@.next_handle
                &&& final(self)@ == (DeviceState {
                    modules: old(self)@.modules.insert(
                        r.0,
                        ModuleState { graphs: Seq::empty(), refs: 1 },
                    ),
                    next_handle: old(self)@.next_handle + 1,
                    ..old(self)@.with_success()
                })
            },
            is_module_archive(payload@) && !old(self)@.handle_free() ==> {
                &&& r.0 == 0
                &&& final(self)@.error == TiError::OutOfMemory
                &&& final(self)@.same_resources(old(self)@)
            },
    {
        if payload.len() < 4 || payload[0] != 0x50u8 || payload[1] != 0x4bu8 || payload[2] != 3u8
            || payload[3] != 4u8 {
            self.report(TiError::CorruptedData, "the payload is not a module archive");
            return TiAotModule(0);
        }
        let graphs: Vec<String> = Vec::new();
        proof {
            assert(names_of(graphs@) =~= Seq::<Seq<char>>::empty());
        }
        self.add_module(graphs)
    }

    /// Adds a holder to a module. Reports InvalidArgument for a handle that
    /// names no module, and OutOfMemory when the count is full.
    pub fn share_module(&mut self, h: TiAotModule) -> (ok: bool)
        requires
            old(self)@.wf(),
        ensures
            final(self)@.wf(),
            ok == (old(self)@.modules.contains_key(h.0) && can_share(old(self)@.modules[h.0].refs)),
            ok ==> final(self)@ == (DeviceState {
                modules: old(self)@.modules.insert(
                    h.0,
                    ModuleState { refs: old(self)@.modules[h.0].refs + 1, ..old(self)@.modules[h.0] },
                ),
                ..old(self)@.with_success()
            }),
            !ok ==> final(self)@.same_resources(old(self)@) && final(self)@.error == (
            if old(self)@.modules.contains_key(h.0) {
                TiError::OutOfMemory
            } else {
                TiError::InvalidArgument
            }),
    {
        let ghost before = self@;
        match self.modules.remove(&h.0) {
            Some(mut slot) => {
                if slot.refs == 0xffff_ffff_ffff_ffff {
                    self.modules.insert(h.0, slot);
                    proof {
                        assert(self@.modules =~= before.modules);
                    }
                    self.report(TiError::OutOfMemory, "too many holders");
                    return false;
                }
                slot.refs = slot.refs + 1;
                self.modules.insert(h.0, slot);
                self.clear_error();
                proof {
                    assert(self@.modules =~= before.modules.insert(
                        h.0,
                        ModuleState { refs: before.modules[h.0].refs + 1, ..before.modules[h.0] },
                    ));
                }
                true
            },
            None => {
                self.report(TiError::InvalidArgument, "no such module");
                false
            },
        }
    }

    /// Removes a holder from a module and destroys it when that was the last
    /// one. Reports InvalidArgument for a handle that names no module.
    pub fn release_module(&mut self, h: TiAotModule) -> (freed: bool)
        requires
            old(self)@.wf(),
        ensures
            final(self)@.wf(),
            old(self)@.modules.contains_key(h.0) ==> {
                &&& freed == (old(self)@.modules[h.0].refs <= 1)
                &&& final(self)@ == (DeviceState {
                    modules: release_module_table(old(self)@.modules, h.0),
                    ..old(self)@.with_success()
                })
            },
            !old(self)@.modules.contains_key(h.0) ==> {
                &&& !freed
                &&& final(self)@.same_resources(old(self)@)
                &&& final(self)@.error == TiError::InvalidArgument
            },
    {
        let ghost before = self@;
        match self.modules.remove(&h.0) {
            Some(mut slot) => {
                if slot.refs <= 1 {
                    self.clear_error();
                    proof {
                        assert(self@.modules =~= release_module_table(before.modules, h.0));
                    }
                    true
                } else {
                    slot.refs = slot.refs - 1;
                    self.modules.insert(h.0, slot);
                    self.clear_error();
                    proof {
                        assert(self@.modules =~= release_module_table(before.modules, h.0));
                    }
                    false
                }
            },
            None => {
                self.report(TiError::InvalidArgument, "no such module");
                false
            },
        }
    }

    /// Looks up the graph named `name` in a module. Reports InvalidArgument
    /// for a handle that names no module and NameNotFound for a name the
    /// module does not offer; the null handle then.
    pub fn get_compute_graph(&mut self, module: TiAotModule, name: &str) -> (r: TiComputeGraph)
        requires
            old(self)@.wf(),
        ensures
            final(self)@.wf(),
            !old(self)@.modules.contains_key(module.0) ==> {
                &&& r.0 == 0
                &&& final(self)@.error == TiError::InvalidArgument
                &&& final(self)@.same_resources(old(self)@)
            },
            old(self)@.modules.contains_key(module.0) && !old(self)@.modules[module.0].graphs.contains(
                name@,
            ) ==> {
                &&& r.0 == 0
                &&& final(self)@.error == TiError::NameNotFound
                &&& final(self)@.same_resources(old(self)@)
            },
            old(self)@.modules.contains_key(module.0) && old(self)@.modules[module.0].graphs.contains(
                name@,
            ) ==> {
                &&& old(self)@.handle_free() ==> {
                    &&& r.0 == old(self)@.next_handle
                    &&& final(self)@ == (DeviceState {
                        graphs: old(self)@.graphs.insert(
                            r.0,
                            GraphState { module: module.0, name: name@ },
                        ),
                        next_handle: old(self)@.next_handle + 1,
                        ..old(self)@.with_success()
                    })
                }
                &&& !old(self)@.handle_free() ==> {
                    &&& r.0 == 0
                    &&& final(self)@.error == TiError::OutOfMemory
                    &&& final(self)@.same_resources(old(self)@)
                }
            },
    {
        let found = match self.modules.get(&module.0) {
            Some(slot) => Some(contains_name(&slot.graphs, name)),
            None => None,
        };
        match found {
            None => {
                self.report(TiError::InvalidArgument, "no such module");
                TiComputeGraph(0)
            },
            Some(false) => {
                self.report(TiError::NameNotFound, "the module offers no graph of this name");
                TiComputeGraph(0)
            },
            Some(true) => {
                let h = match self.fresh_handle() {
                    Some(h) => h,
                    None => {
                        self.report(TiError::OutOfMemory, "no handle left");
                        return TiComputeGraph(0);
                    },
                };
                let ghost before = self@;
                let owned = name.to_owned();
                self.graphs.insert(h, GraphSlot { module: module.0, name: owned });
                self.clear_error();
                proof {
                    assert(self@.graphs =~= before.graphs.insert(
                        h,
                        GraphState { module: module.0, name: name@ },
                    ));
                }
                TiComputeGraph(h)
            },
        }
    }

    /// Queues a launch of a graph with the given arguments. Reports
    /// InvalidArgument for a handle that names no graph, or a graph whose
    /// module is gone.
    pub fn launch_compute_graph(&mut self, graph: TiComputeGraph, args: Vec<TiNamedArgument>) -> (ok: bool)
        requires
            old(self)@.wf(),
        ensures
            final(self)@.wf(),
            ok == (old(self)@.graphs.contains_key(graph.0) && old(self)@.modules.contains_key(
                old(self)@.graphs[graph.0].module,
            )),
            ok ==> final(self)@ == (DeviceState {
                pending: old(self)@.pending.push(
                    LaunchState { graph: graph.0, args: args_of(args@) },
                ),
                ..old(self)@.with_success()
            }),
            !ok ==> final(self)@.same_resources(old(self)@) && final(self)@.error
                == TiError::InvalidArgument,
    {
        let live = match self.graphs.get(&graph.0) {
            Some(slot) => self.modules.contains_key(&slot.module),
            None => false,
        };
        if !live {
            self.report(TiError::InvalidArgument, "no such compute graph");
            return false;
        }
        let ghost before = self@;
        self.pending.push(LaunchSlot { graph: graph.0, args });
        self.clear_error();
        proof {
            assert(self@.pending =~= before.pending.push(
                LaunchState { graph: graph.0, args: args_of(args@) },
            ));
        }
        true
    }

    /// The number of launches queued and not yet complete.
    pub fn pending_launch_count(&self) -> (r: usize)
        ensures
            r == self@.pending.len(),
    {
        self.pending.len()
    }

    /// Completes every queued launch. A graph may write the arrays bound to
    /// it, so their contents afterwards are whatever the graph left; all else
    /// stays. The host device runs no precompiled code: here the arrays keep
    /// their contents, one of the outcomes allowed.
    pub fn wait(&mut self)
        requires
            old(self)@.wf(),
        ensures
            final(self)@.wf(),
            final(self)@ == (DeviceState {
                pending: Seq::empty(),
                memories: final(self)@.memories,
                ..old(self)@.with_success()
            }),
            launches_completed(old(self)@.memories, old(self)@.pending, final(self)@.memories),
    {
        self.pending = Vec::new();
        self.clear_error();
        proof {
            assert(self@.pending =~= Seq::<LaunchState>::empty());
        }
    }
}

fn clone_names(names: &Vec<String>) -> (r: Vec<String>)
    ensures
        names_of(r@) == names_of(names@),
{
    let mut out: Vec<String> = Vec::new();
    let mut i: usize = 0;
    while i < names.len()
        invariant
            i <= names@.len(),
            out@ =~= names@.subrange(0, i as int),
        decreases names@.len() - i,
    {
        out.push(names[i].clone());
        i = i + 1;
    }
    assert(names@.subrange(0, names@.len() as int) =~= names@);
    out
}

fn contains_name(names: &Vec<String>, name: &str) -> (r: bool)
    ensures
        r == names_of(names@).contains(name@),
{
    let target = name.to_owned();
    let mut i: usize = 0;
    while i < names.len()
        invariant
            i <= names@.len(),
            target@ == name@,
            forall|j: int| 0 <= j < i ==> names@[j]@ != name@,
        decreases names@.len() - i,
    {
        if names[i] == target {
            assert(names_of(names@)[i as int] == name@);
            return true;
        }
        i = i + 1;
    }
    assert forall|j: int| 0 <= j < names_of(names@).len() implies names_of(names@)[j] != name@ by {
    }
    false
}

} // verus!
