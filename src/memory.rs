//! Device memory: allocation, host mapping and typed reads and writes.
use crate::device::{
    can_share, memory_allocation_status, release_memory_table, shared_memory, DeviceState,
    MemoryState, MAX_ALLOCATION_SIZE,
};
use crate::element::{decode_all, decode_seq, encode_all, encode_seq, Element};
use crate::error::{TaichiError, TaichiResult};
use crate::runtime::{Runtime, RuntimeState};
use crate::sys::{
    TiError, TiMemory, TiMemoryAllocateInfo, TiMemoryUsageFlags, TiRuntime,
    MEMORY_USAGE_STORAGE_BIT, TI_FALSE, TI_TRUE,
};
use vstd::prelude::*;

verus! {

/// The flag value that stands for `value`.
pub open spec fn flag(value: bool) -> u32 {
    if value {
        TI_TRUE
    } else {
        TI_FALSE
    }
}

/// Whether the two states are of the same runtime instance: same
/// architecture, device and handle (the device state may differ).
pub open spec fn same_instance(a: RuntimeState, b: RuntimeState) -> bool {
    &&& a.arch == b.arch
    &&& a.device_index == b.device_index
    &&& a.handle == b.handle
}

/// Allows host reads only of memory made with host read access; an
/// InvalidState error otherwise.
pub fn check_host_read(info: &TiMemoryAllocateInfo) -> (r: TaichiResult<()>)
    ensures
        r is Ok == (info.host_read != TI_FALSE),
        r matches Err(e) ==> e.code == TiError::InvalidState,
{
    if info.host_read == TI_FALSE {
        Err(TaichiError::InvalidState("attempting to map non-host-readable memory"))
    } else {
        Ok(())
    }
}

/// Allows host writes only to memory made with host write access; an
/// InvalidState error otherwise.
pub fn check_host_write(info: &TiMemoryAllocateInfo) -> (r: TaichiResult<()>)
    ensures
        r is Ok == (info.host_write != TI_FALSE),
        r matches Err(e) ==> e.code == TiError::InvalidState,
{
    if info.host_write == TI_FALSE {
        Err(TaichiError::InvalidState("attempting to map non-host-writable memory"))
    } else {
        Ok(())
    }
}

/// Allows a copy of `count` values of `width` bytes each only where they
/// cover `size` bytes exactly; an InvalidArgument error otherwise.
pub fn check_cover(size: u64, width: usize, count: usize) -> (r: TaichiResult<()>)
    requires
        1 <= width <= 8,
    ensures
        r is Ok == (size as int == count as int * width as int),
        r matches Err(e) ==> e.code == TiError::InvalidArgument,
{
    let w = width as u64;
    if size % w != 0 || size / w != count as u64 {
        proof {
            assert(size as int != count as int * width as int) by (nonlinear_arith)
                requires
                    (size as int) % (w as int) != 0 || (size as int) / (w as int) != count as int,
                    w as int == width as int,
                    w >= 1,
            ;
        }
        return Err(TaichiError::InvalidArgument("the values do not cover the memory exactly"));
    }
    proof {
        assert(size as int == count as int * width as int) by (nonlinear_arith)
            requires
                (size as int) % (w as int) == 0,
                (size as int) / (w as int) == count as int,
                w as int == width as int,
                w >= 1,
        ;
    }
    Ok(())
}

/// Describes a memory allocation before it is made.
pub struct MemoryBuilder {
    info: TiMemoryAllocateInfo,
}

impl View for MemoryBuilder {
    type V = TiMemoryAllocateInfo;

    closed spec fn view(&self) -> TiMemoryAllocateInfo {
        self.info
    }
}

impl MemoryBuilder {
    /// No bytes, storage usage, no host access, no export sharing.
    pub open spec fn default_info() -> TiMemoryAllocateInfo {
        TiMemoryAllocateInfo {
            size: 0,
            host_write: TI_FALSE,
            host_read: TI_FALSE,
            export_sharing: TI_FALSE,
            usage: TiMemoryUsageFlags { bits: MEMORY_USAGE_STORAGE_BIT },
        }
    }

    pub fn new() -> (r: Self)
        ensures
            r@ == Self::default_info(),
    {
        MemoryBuilder {
            info: TiMemoryAllocateInfo {
                size: 0,
                host_write: TI_FALSE,
                host_read: TI_FALSE,
                export_sharing: TI_FALSE,
                usage: TiMemoryUsageFlags::storage(),
            },
        }
    }

    pub fn size(&mut self, size: usize) -> (r: &mut Self)
        ensures
            r@ == (TiMemoryAllocateInfo { size: size as u64, ..old(self)@ }),
            *final(self) == *final(r),
    {
        self.info.size = size as u64;
        self
    }

    pub fn host_read(&mut self, value: bool) -> (r: &mut Self)
        ensures
            r@ == (TiMemoryAllocateInfo { host_read: flag(value), ..old(self)@ }),
            *final(self) == *final(r),
    {
        self.info.host_read = if value {
            TI_TRUE
        } else {
            TI_FALSE
        };
        self
    }

    pub fn host_write(&mut self, value: bool) -> (r: &mut Self)
        ensures
            r@ == (TiMemoryAllocateInfo { host_write: flag(value), ..old(self)@ }),
            *final(self) == *final(r),
    {
        self.info.host_write = if value {
            TI_TRUE
        } else {
            TI_FALSE
        };
        self
    }

    pub fn export_sharing(&mut self, value: bool) -> (r: &mut Self)
        ensures
            r@ == (TiMemoryAllocateInfo { export_sharing: flag(value), ..old(self)@ }),
            *final(self) == *final(r),
    {
        self.info.export_sharing = if value {
            TI_TRUE
        } else {
            TI_FALSE
        };
        self
    }

    pub fn usage(&mut self, usage: TiMemoryUsageFlags) -> (r: &mut Self)
        ensures
            r@ == (TiMemoryAllocateInfo { usage, ..old(self)@ }),
            *final(self) == *final(r),
    {
        self.info.usage = usage;
        self
    }

    /// The description so far.
    pub fn clone_info(&self) -> (r: TiMemoryAllocateInfo)
        ensures
            r == self@,
    {
        self.info
    }

    /// Allocates the memory described so far.
    pub fn build(&self, runtime: &mut Runtime) -> (r: TaichiResult<Memory>)
        requires
            old(runtime)@.wf(),
        ensures
            final(runtime)@.wf(),
            Memory::new_outcome(old(runtime)@, self@, final(runtime)@, r),
    {
        Memory::new(runtime, &self.info)
    }
}

/// A device memory allocation, held by this value. Further holders come from
/// `share`; each holder lets go with `release`, and the last one frees it.
pub struct Memory {
    runtime: TiRuntime,
    handle: TiMemory,
    info: TiMemoryAllocateInfo,
}

impl Memory {
    #[verifier::type_invariant]
    spec fn inv(&self) -> bool {
        0 < self.info.size <= MAX_ALLOCATION_SIZE
    }

    /// The handle that names this allocation on the device.
    pub closed spec fn id(&self) -> usize {
        self.handle.0
    }

    /// The handle of the runtime this allocation belongs to.
    pub closed spec fn spec_runtime(&self) -> TiRuntime {
        self.runtime
    }

    /// How this allocation was described.
    pub closed spec fn spec_info(&self) -> TiMemoryAllocateInfo {
        self.info
    }

    /// What `new` does: on success the device holds one more allocation, of
    /// zeros, held once; otherwise the status of the request is reported and
    /// no resource changes.
    pub open spec fn new_outcome(
        before: RuntimeState,
        info: TiMemoryAllocateInfo,
        after: RuntimeState,
        r: TaichiResult<Memory>,
    ) -> bool {
        &&& same_instance(before, after)
        &&& after.device.error == TiError::Success
        &&& memory_allocation_status(info) != TiError::Success ==> {
            &&& r matches Err(e) && e.code == memory_allocation_status(info)
            &&& after.device.same_resources(before.device)
        }
        &&& memory_allocation_status(info) == TiError::Success && before.device.handle_free() ==> {
            &&& r matches Ok(m) && m.id() == before.device.next_handle && m.spec_info() == info
                && m.spec_runtime() == before.handle
            &&& after.device == (DeviceState {
                memories: before.device.memories.insert(
                    before.device.next_handle as usize,
                    MemoryState {
                        info,
                        contents: Seq::new(info.size as nat, |i: int| 0u8),
                        mapped: false,
                        refs: 1,
                    },
                ),
                next_handle: before.device.next_handle + 1,
                ..before.device.with_success()
            })
        }
        &&& memory_allocation_status(info) == TiError::Success && !before.device.handle_free() ==> {
            &&& r matches Err(e) && e.code == TiError::OutOfMemory
            &&& after.device.same_resources(before.device)
        }
    }

    /// Allocates memory as `allocate_info` describes. Fails with
    /// InvalidArgument for a zero size and OutOfMemory where the device
    /// cannot grant it.
    pub fn new(runtime: &mut Runtime, allocate_info: &TiMemoryAllocateInfo) -> (r: TaichiResult<
        Memory,
    >)
        requires
            old(runtime)@.wf(),
        ensures
            final(runtime)@.wf(),
            Self::new_outcome(old(runtime)@, *allocate_info, final(runtime)@, r),
    {
        let handle = runtime.device_mut().allocate_memory(allocate_info);
        match runtime.get_last_error() {
            Ok(()) => Ok(Memory { runtime: runtime.runtime(), handle, info: *allocate_info }),
            Err(e) => Err(e),
        }
    }

    /// Another holder of this allocation.
    pub fn share(&self, runtime: &mut Runtime) -> (r: TaichiResult<Memory>)
        requires
            old(runtime)@.wf(),
            self.spec_runtime() == old(runtime)@.handle,
        ensures
            final(runtime)@.wf(),
            same_instance(old(runtime)@, final(runtime)@),
            final(runtime)@.device.error == TiError::Success,
            r is Ok == (old(runtime)@.device.memories.contains_key(self.id()) && can_share(
                old(runtime)@.device.memories[self.id()].refs,
            )),
            r matches Ok(m) ==> m.id() == self.id() && m.spec_info() == self.spec_info()
                && m.spec_runtime() == self.spec_runtime() && final(runtime)@.device == (DeviceState {
                memories: old(runtime)@.device.memories.insert(
                    self.id(),
                    shared_memory(old(runtime)@.device.memories[self.id()]),
                ),
                ..old(runtime)@.device.with_success()
            }),
            r matches Err(e) ==> e.code == (if old(runtime)@.device.memories.contains_key(self.id()) {
                TiError::OutOfMemory
            } else {
                TiError::InvalidArgument
            }),
            r is Err ==> final(runtime)@.device.same_resources(old(runtime)@.device),
    {
        proof {
            use_type_invariant(self);
        }
        runtime.device_mut().share_memory(self.handle);
        match runtime.get_last_error() {
            Ok(()) => Ok(Memory { runtime: self.runtime, handle: self.handle, info: self.info }),
            Err(e) => Err(e),
        }
    }

    /// Lets go of this holder; the allocation is freed with its last holder.
    /// The result says whether it was freed.
    pub fn release(self, runtime: &mut Runtime) -> (r: TaichiResult<bool>)
        requires
            old(runtime)@.wf(),
            self.spec_runtime() == old(runtime)@.handle,
        ensures
            final(runtime)@.wf(),
            same_instance(old(runtime)@, final(runtime)@),
            final(runtime)@.device.error == TiError::Success,
            r is Ok == old(runtime)@.device.memories.contains_key(self.id()),
            r matches Ok(freed) ==> freed == (old(runtime)@.device.memories[self.id()].refs <= 1)
                && final(runtime)@.device == (DeviceState {
                memories: release_memory_table(old(runtime)@.device.memories, self.id()),
                ..old(runtime)@.device.with_success()
            }),
            r matches Err(e) ==> e.code == TiError::InvalidArgument
                && final(runtime)@.device.same_resources(old(runtime)@.device),
    {
        let freed = runtime.device_mut().release_memory(self.handle);
        match runtime.get_last_error() {
            Ok(()) => Ok(freed),
            Err(e) => Err(e),
        }
    }

    /// Maps this allocation for host access until `unmap`.
    pub fn map(&self, runtime: &mut Runtime) -> (r: TaichiResult<MappedMemory>)
        requires
            old(runtime)@.wf(),
            self.spec_runtime() == old(runtime)@.handle,
        ensures
            final(runtime)@.wf(),
            same_instance(old(runtime)@, final(runtime)@),
            final(runtime)@.device.error == TiError::Success,
            r is Ok == (old(runtime)@.device.memories.contains_key(self.id())
                && !old(runtime)@.device.memories[self.id()].mapped),
            r matches Ok(m) ==> m.id() == self.id() && m.spec_runtime() == self.spec_runtime()
                && final(runtime)@.device == (DeviceState {
                memories: old(runtime)@.device.memories.insert(
                    self.id(),
                    MemoryState { mapped: true, ..old(runtime)@.device.memories[self.id()] },
                ),
                ..old(runtime)@.device.with_success()
            }),
            r matches Err(e) ==> final(runtime)@.device.same_resources(old(runtime)@.device)
                && e.code == (if old(runtime)@.device.memories.contains_key(self.id()) {
                TiError::InvalidState
            } else {
                TiError::InvalidArgument
            }),
    {
        MappedMemory::new(self, runtime)
    }

    /// Copies the whole allocation into `dst`, read as values of `T`.
    /// Fails with InvalidState for memory made without host read access or
    /// already mapped, and InvalidArgument for a released allocation or a
    /// `dst` whose values do not cover the allocation exactly. No resource
    /// changes: the mapping made for the copy is undone on every path.
    pub fn read<T: Element>(&self, runtime: &mut Runtime, dst: &mut Vec<T>) -> (r: TaichiResult<()>)
        requires
            old(runtime)@.wf(),
            self.spec_runtime() == old(runtime)@.handle,
        ensures
            final(runtime)@.wf(),
            same_instance(old(runtime)@, final(runtime)@),
            final(runtime)@.device.same_resources(old(runtime)@.device),
            self.spec_info().host_read == TI_FALSE ==> {
                &&& r matches Err(e) && e.code == TiError::InvalidState
                &&& final(runtime)@ == old(runtime)@
            },
            self.spec_info().host_read != TI_FALSE ==> final(runtime)@.device.error
                == TiError::Success,
            r is Ok == (self.spec_info().host_read != TI_FALSE
                && old(runtime)@.device.memories.contains_key(self.id())
                && !old(runtime)@.device.memories[self.id()].mapped
                && old(runtime)@.device.memories[self.id()].contents.len() == old(dst)@.len()
                * T::spec_width()),
            r is Ok ==> final(dst)@ == decode_seq::<T>(
                old(runtime)@.device.memories[self.id()].contents,
                old(dst)@.len(),
            ),
            r is Err ==> final(dst)@ == old(dst)@,
            r matches Err(e) ==> e.code == (if self.spec_info().host_read == TI_FALSE {
                TiError::InvalidState
            } else if !old(runtime)@.device.memories.contains_key(self.id()) {
                TiError::InvalidArgument
            } else if old(runtime)@.device.memories[self.id()].mapped {
                TiError::InvalidState
            } else {
                TiError::InvalidArgument
            }),
    {
        if let Err(e) = check_host_read(&self.info) {
            return Err(e);
        }
        let ghost before = runtime@;
        let mapped = match MappedMemory::new(self, runtime) {
            Ok(m) => m,
            Err(e) => return Err(e),
        };
        let bytes = mapped.read_bytes(runtime);
        if let Err(e) = mapped.unmap(runtime) {
            return Err(e);
        }
        proof {
            assert(runtime@.device.memories =~= before.device.memories);
        }
        let bytes = match bytes {
            Ok(b) => b,
            Err(e) => return Err(e),
        };
        let w = T::width();
        let n = dst.len();
        if bytes.len() % w != 0 || bytes.len() / w != n {
            proof {
                assert(bytes@.len() != n * w) by (nonlinear_arith)
                    requires
                        (bytes@.len() as int) % (w as int) != 0 || (bytes@.len() as int) / (w as int) != n,
                        w >= 1,
                ;
            }
            return Err(
                TaichiError::InvalidArgument("the values do not cover the memory exactly"),
            );
        }
        proof {
            assert(n * w == bytes@.len()) by (nonlinear_arith)
                requires
                    (bytes@.len() as int) % (w as int) == 0,
                    (bytes@.len() as int) / (w as int) == n,
                    w >= 1,
            ;
        }
        *dst = decode_all::<T>(&bytes, n);
        Ok(())
    }

    /// Copies the values of `src` into the whole allocation. Fails with
    /// InvalidState for memory made without host write access or already
    /// mapped, and InvalidArgument for a released allocation or values that
    /// do not cover the allocation exactly. Only the contents change: the
    /// mapping made for the copy is undone on every path.
    pub fn write<T: Element>(&self, runtime: &mut Runtime, src: &[T]) -> (r: TaichiResult<()>)
        requires
            old(runtime)@.wf(),
            self.spec_runtime() == old(runtime)@.handle,
        ensures
            final(runtime)@.wf(),
            same_instance(old(runtime)@, final(runtime)@),
            self.spec_info().host_write == TI_FALSE ==> {
                &&& r matches Err(e) && e.code == TiError::InvalidState
                &&& final(runtime)@ == old(runtime)@
            },
            self.spec_info().host_write != TI_FALSE ==> final(runtime)@.device.error
                == TiError::Success,
            r is Ok == (self.spec_info().host_write != TI_FALSE
                && old(runtime)@.device.memories.contains_key(self.id())
                && !old(runtime)@.device.memories[self.id()].mapped
                && old(runtime)@.device.memories[self.id()].contents.len() == src@.len()
                * T::spec_width()),
            encode_seq(src@).len() == src@.len() * T::spec_width(),
            r is Ok ==> final(runtime)@.device == (DeviceState {
                memories: old(runtime)@.device.memories.insert(
                    self.id(),
                    MemoryState {
                        contents: encode_seq(src@),
                        ..old(runtime)@.device.memories[self.id()]
                    },
                ),
                ..old(runtime)@.device.with_success()
            }),
            r is Err ==> final(runtime)@.device.same_resources(old(runtime)@.device),
            r matches Err(e) ==> e.code == (if self.spec_info().host_write == TI_FALSE {
                TiError::InvalidState
            } else if !old(runtime)@.device.memories.contains_key(self.id()) {
                TiError::InvalidArgument
            } else if old(runtime)@.device.memories[self.id()].mapped {
                TiError::InvalidState
            } else {
                TiError::InvalidArgument
            }),
    {
        proof {
            crate::element::lemma_encode_seq_layout::<T>(src@);
        }
        if let Err(e) = check_host_write(&self.info) {
            return Err(e);
        }
        let bytes = encode_all(src);
        let ghost before = runtime@;
        let mapped = match MappedMemory::new(self, runtime) {
            Ok(m) => m,
            Err(e) => return Err(e),
        };
        let written = mapped.write_bytes(runtime, bytes);
        if let Err(e) = mapped.unmap(runtime) {
            return Err(e);
        }
        match written {
            Ok(()) => {
                proof {
                    assert(runtime@.device.memories =~= before.device.memories.insert(
                        self.id(),
                        MemoryState {
                            contents: encode_seq(src@),
                            ..before.device.memories[self.id()]
                        },
                    ));
                }
                Ok(())
            },
            Err(e) => {
                proof {
                    assert(runtime@.device.memories =~= before.device.memories);
                }
                Err(e)
            },
        }
    }

    /// The handle of the runtime this allocation belongs to.
    pub fn runtime(&self) -> (r: TiRuntime)
        ensures
            r == self.spec_runtime(),
    {
        self.runtime
    }

    /// The handle of this allocation.
    pub fn memory(&self) -> (r: TiMemory)
        ensures
            r.0 == self.id(),
    {
        self.handle
    }

    pub fn size(&self) -> (r: usize)
        ensures
            r == self.spec_info().size,
    {
        proof {
            use_type_invariant(self);
        }
        self.info.size as usize
    }

    pub fn host_read(&self) -> (r: bool)
        ensures
            r == (self.spec_info().host_read != TI_FALSE),
    {
        self.info.host_read != TI_FALSE
    }

    pub fn host_write(&self) -> (r: bool)
        ensures
            r == (self.spec_info().host_write != TI_FALSE),
    {
        self.info.host_write != TI_FALSE
    }

    pub fn export_sharing(&self) -> (r: bool)
        ensures
            r == (self.spec_info().export_sharing != TI_FALSE),
    {
        self.info.export_sharing != TI_FALSE
    }

    pub fn usage(&self) -> (r: TiMemoryUsageFlags)
        ensures
            r == self.spec_info().usage,
    {
        self.info.usage
    }
}

/// A memory allocation mapped for host access. It lasts until `unmap`.
pub struct MappedMemory {
    runtime: TiRuntime,
    handle: TiMemory,
}

impl MappedMemory {
    /// The handle of the runtime the mapped allocation belongs to.
    pub closed spec fn spec_runtime(&self) -> TiRuntime {
        self.runtime
    }

    /// The handle of the mapped allocation.
    pub closed spec fn id(&self) -> usize {
        self.handle.0
    }

    /// Maps `memory` for host access.
    pub fn new(memory: &Memory, runtime: &mut Runtime) -> (r: TaichiResult<MappedMemory>)
        requires
            old(runtime)@.wf(),
            memory.spec_runtime() == old(runtime)@.handle,
        ensures
            final(runtime)@.wf(),
            same_instance(old(runtime)@, final(runtime)@),
            final(runtime)@.device.error == TiError::Success,
            r is Ok == (old(runtime)@.device.memories.contains_key(memory.id())
                && !old(runtime)@.device.memories[memory.id()].mapped),
            r matches Ok(m) ==> m.id() == memory.id() && m.spec_runtime() == memory.spec_runtime()
                && final(runtime)@.device == (DeviceState {
                memories: old(runtime)@.device.memories.insert(
                    memory.id(),
                    MemoryState { mapped: true, ..old(runtime)@.device.memories[memory.id()] },
                ),
                ..old(runtime)@.device.with_success()
            }),
            r matches Err(e) ==> final(runtime)@.device.same_resources(old(runtime)@.device)
                && e.code == (if old(runtime)@.device.memories.contains_key(memory.id()) {
                TiError::InvalidState
            } else {
                TiError::InvalidArgument
            }),
    {
        runtime.device_mut().map_memory(memory.handle);
        match runtime.get_last_error() {
            Ok(()) => Ok(MappedMemory { runtime: memory.runtime, handle: memory.handle }),
            Err(e) => Err(e),
        }
    }

    /// The handle of the mapped allocation.
    pub fn memory(&self) -> (r: TiMemory)
        ensures
            r.0 == self.id(),
    {
        self.handle
    }

    /// The bytes of the mapped allocation.
    pub fn read_bytes(&self, runtime: &mut Runtime) -> (r: TaichiResult<Vec<u8>>)
        requires
            old(runtime)@.wf(),
            self.spec_runtime() == old(runtime)@.handle,
        ensures
            final(runtime)@.wf(),
            same_instance(old(runtime)@, final(runtime)@),
            final(runtime)@.device == old(runtime)@.device.with_success() || (r is Err
                && final(runtime)@.device.same_resources(old(runtime)@.device)
                && final(runtime)@.device.error == TiError::Success),
            r is Ok == (old(runtime)@.device.memories.contains_key(self.id())
                && old(runtime)@.device.memories[self.id()].mapped),
            r matches Ok(b) ==> b@ == old(runtime)@.device.memories[self.id()].contents
                && final(runtime)@.device == old(runtime)@.device.with_success(),
    {
        let bytes = runtime.device_mut().read_mapped(self.handle);
        match runtime.get_last_error() {
            Ok(()) => match bytes {
                Some(b) => Ok(b),
                None => Err(TaichiError::InvalidState("memory is not mapped")),
            },
            Err(e) => Err(e),
        }
    }

    /// Replaces the bytes of the mapped allocation with `bytes`, which must be
    /// as long.
    pub fn write_bytes(&self, runtime: &mut Runtime, bytes: Vec<u8>) -> (r: TaichiResult<()>)
        requires
            old(runtime)@.wf(),
            self.spec_runtime() == old(runtime)@.handle,
        ensures
            final(runtime)@.wf(),
            same_instance(old(runtime)@, final(runtime)@),
            final(runtime)@.device.error == TiError::Success,
            r is Ok == (old(runtime)@.device.memories.contains_key(self.id())
                && old(runtime)@.device.memories[self.id()].mapped && bytes@.len() == old(
                runtime,
            )@.device.memories[self.id()].contents.len()),
            r is Ok ==> final(runtime)@.device == (DeviceState {
                memories: old(runtime)@.device.memories.insert(
                    self.id(),
                    MemoryState { contents: bytes@, ..old(runtime)@.device.memories[self.id()] },
                ),
                ..old(runtime)@.device.with_success()
            }),
            r matches Err(e) ==> final(runtime)@.device.same_resources(old(runtime)@.device)
                && e.code == (if old(runtime)@.device.memories.contains_key(self.id())
                && old(runtime)@.device.memories[self.id()].mapped {
                TiError::InvalidArgument
            } else if old(runtime)@.device.memories.contains_key(self.id()) {
                TiError::InvalidState
            } else {
                TiError::InvalidArgument
            }),
    {
        runtime.device_mut().write_mapped(self.handle, bytes);
        runtime.get_last_error()
    }

    /// Ends the mapping.
    pub fn unmap(self, runtime: &mut Runtime) -> (r: TaichiResult<()>)
        requires
            old(runtime)@.wf(),
            self.spec_runtime() == old(runtime)@.handle,
        ensures
            final(runtime)@.wf(),
            same_instance(old(runtime)@, final(runtime)@),
            final(runtime)@.device.error == TiError::Success,
            r is Ok == (old(runtime)@.device.memories.contains_key(self.id())
                && old(runtime)@.device.memories[self.id()].mapped),
            r is Ok ==> final(runtime)@.device == (DeviceState {
                memories: old(runtime)@.device.memories.insert(
                    self.id(),
                    MemoryState { mapped: false, ..old(runtime)@.device.memories[self.id()] },
                ),
                ..old(runtime)@.device.with_success()
            }),
            r is Err ==> final(runtime)@.device.same_resources(old(runtime)@.device),
    {
        runtime.device_mut().unmap_memory(self.handle);
        runtime.get_last_error()
    }
}

/// A memory table after `n` more holders of `h` join.
pub open spec fn share_n(t: Map<usize, MemoryState>, h: usize, n: nat) -> Map<usize, MemoryState>
    decreases n,
{
    if n == 0 {
        t
    } else {
        let s = share_n(t, h, (n - 1) as nat);
        s.insert(h, shared_memory(s[h]))
    }
}

/// A memory table after `n` holders of `h` let go.
pub open spec fn release_n(t: Map<usize, MemoryState>, h: usize, n: nat) -> Map<usize, MemoryState>
    decreases n,
{
    if n == 0 {
        t
    } else {
        release_memory_table(release_n(t, h, (n - 1) as nat), h)
    }
}

proof fn lemma_share_n(t: Map<usize, MemoryState>, h: usize, n: nat)
    requires
        t.contains_key(h),
    ensures
        share_n(t, h, n) == t.insert(h, MemoryState { refs: t[h].refs + n, ..t[h] }),
    decreases n,
{
    if n > 0 {
        lemma_share_n(t, h, (n - 1) as nat);
        assert(share_n(t, h, n) =~= t.insert(h, MemoryState { refs: t[h].refs + n, ..t[h] }));
    } else {
        assert(t.insert(h, MemoryState { refs: t[h].refs + n, ..t[h] }) =~= t);
    }
}

proof fn lemma_release_n(t: Map<usize, MemoryState>, h: usize, n: nat, k: nat)
    requires
        t.contains_key(h),
        t[h].refs == k + n,
        k >= 1,
    ensures
        release_n(t, h, n) == t.insert(h, MemoryState { refs: k, ..t[h] }),
    decreases n,
{
    if n > 0 {
        lemma_release_n(t, h, (n - 1) as nat, k + 1);
        assert(release_n(t, h, n) =~= t.insert(h, MemoryState { refs: k, ..t[h] }));
    } else {
        assert(t.insert(h, MemoryState { refs: k, ..t[h] }) =~= t);
    }
}

/// Reference counting frees exactly once: after `n` more holders of a memory
/// allocation held once join and `n` holders let go, the allocation is still
/// there as it was; the next release frees it, and a release after that finds
/// nothing to free.
pub proof fn lemma_release_frees_once(t: Map<usize, MemoryState>, h: usize, n: nat)
    requires
        t.contains_key(h),
        t[h].refs == 1,
    ensures
        release_n(share_n(t, h, n), h, n) == t,
        !release_n(share_n(t, h, n), h, n + 1).contains_key(h),
        release_n(share_n(t, h, n), h, n + 1) == t.remove(h),
{
    lemma_share_n(t, h, n);
    let s = share_n(t, h, n);
    lemma_release_n(s, h, n, 1);
    assert(release_n(s, h, n) =~= t);
    assert(release_n(s, h, n + 1) =~= t.remove(h));
}

/// Writing values and reading the same number of values back gives them
/// back: `write` leaves the encoding of its values as the contents, and
/// `read` decodes the contents.
pub proof fn lemma_write_read_round_trip<T: Element>(written: Seq<T>, contents: Seq<u8>, read: Seq<T>)
    requires
        contents == encode_seq(written),
        read == decode_seq::<T>(contents, written.len()),
    ensures
        read == written,
{
    crate::element::lemma_round_trip::<T>(written);
}

} // verus!
