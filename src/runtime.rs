//! The runtime: one backend instance, the root of every other resource.
use crate::aot_module::AotModule;
use crate::device::{Device, DeviceState};
use crate::element::Element;
use crate::error::{check_status, TaichiError, TaichiResult};
use crate::image::ImageBuilder;
use crate::memory::MemoryBuilder;
use crate::ndarray::NdArrayBuilder;
use crate::sys::{TiArch, TiError, TiRuntime};
use crate::texture::TextureBuilder;
use vstd::prelude::*;

verus! {

/// What the runtime is: the backend it was made for and the state of its
/// device.
pub struct RuntimeState {
    pub arch: TiArch,
    pub device_index: u32,
    pub handle: TiRuntime,
    pub device: DeviceState,
}

impl RuntimeState {
    /// Whether the runtime has a handle and its device state is well formed.
    pub open spec fn wf(self) -> bool {
        self.handle.0 != 0 && self.device.wf()
    }
}

/// Whether the host device can stand for `arch` at `device_index`: every
/// architecture but the reserved one, at the first device.
pub open spec fn runtime_available(arch: TiArch, device_index: u32) -> bool {
    arch != TiArch::Reserved && device_index == 0
}

/// One backend instance. Every resource is made through it, and every
/// operation on a resource is carried out by it.
pub struct Runtime {
    arch: TiArch,
    device_index: u32,
    handle: TiRuntime,
    device: Device,
}

impl View for Runtime {
    type V = RuntimeState;

    closed spec fn view(&self) -> RuntimeState {
        RuntimeState {
            arch: self.arch,
            device_index: self.device_index,
            handle: self.handle,
            device: self.device@,
        }
    }
}

impl Runtime {
    /// A runtime on the first device of `arch`.
    pub fn new(arch: TiArch) -> (r: TaichiResult<Runtime>)
        ensures
            r is Ok == runtime_available(arch, 0),
            r matches Ok(rt) ==> rt@.wf() && rt@.device.next_handle == 1 && rt@.arch == arch && rt@.device_index == 0
                && rt@.device.memories.is_empty() && rt@.device.images.is_empty()
                && rt@.device.modules.is_empty() && rt@.device.graphs.is_empty()
                && rt@.device.store.is_empty() && rt@.device.pending.len() == 0 && rt@.device.error == TiError::Success,
            r matches Err(e) ==> e.code == TiError::NotSupported,
    {
        Self::with_device_index(arch, 0)
    }

    /// A runtime on device `device_index` of `arch`. Fails with NotSupported
    /// where no such device is available.
    pub fn with_device_index(arch: TiArch, device_index: u32) -> (r: TaichiResult<Runtime>)
        ensures
            r is Ok == runtime_available(arch, device_index),
            r matches Ok(rt) ==> rt@.wf() && rt@.device.next_handle == 1 && rt@.arch == arch && rt@.device_index == device_index
                && rt@.device.memories.is_empty() && rt@.device.images.is_empty()
                && rt@.device.modules.is_empty() && rt@.device.graphs.is_empty()
                && rt@.device.store.is_empty() && rt@.device.pending.len() == 0 && rt@.device.error == TiError::Success,
            r matches Err(e) ==> e.code == TiError::NotSupported,
    {
        if arch == TiArch::Reserved {
            return Err(TaichiError::NotSupported("the reserved architecture names no backend"));
        }
        if device_index != 0 {
            return Err(TaichiError::NotSupported("no device at this index"));
        }
        let device = Device::new();
        proof {
            assert(device@.memories.is_empty());
            assert(device@.images.is_empty());
            assert(device@.modules.is_empty());
            assert(device@.graphs.is_empty());
            assert(device@.store.is_empty());
        }
        Ok(Runtime { arch, device_index, handle: TiRuntime(1), device })
    }

    pub fn arch(&self) -> (r: TiArch)
        ensures
            r == self@.arch,
    {
        self.arch
    }

    pub fn device_index(&self) -> (r: u32)
        ensures
            r == self@.device_index,
    {
        self.device_index
    }

    /// The handle of this instance.
    pub fn runtime(&self) -> (r: TiRuntime)
        ensures
            r == self@.handle,
    {
        self.handle
    }

    /// The device, for the resource types of this crate.
    pub(crate) fn device_mut(&mut self) -> (r: &mut Device)
        ensures
            r@ == old(self)@.device,
            final(self)@ == (RuntimeState { device: final(r)@, ..old(self)@ }),
    {
        &mut self.device
    }

    /// Turns the last-error slot into a result and clears it. The first query
    /// gives the status and the length of the text; only where there is text
    /// is a second query made, with room for that length.
    pub fn get_last_error(&mut self) -> (r: TaichiResult<()>)
        requires
            old(self)@.wf(),
        ensures
            final(self)@.wf(),
            final(self)@ == (RuntimeState { device: old(self)@.device.with_success(), ..old(self)@ }),
            r is Ok == (old(self)@.device.error == TiError::Success),
            r matches Err(e) ==> e.code == old(self)@.device.error && e.message@ == old(
                self,
            )@.device.message,
    {
        let (error, len, message) = self.device.take_last_error(0);
        let text = match message {
            Some(text) => text,
            None => match self.device.take_last_error(len) {
                (_, _, Some(text)) => text,
                (_, _, None) => String::new(),
            },
        };
        check_status(error.code(), text)
    }

    /// Puts an error in the last-error slot.
    pub fn set_last_error(&mut self, error: &TaichiError)
        requires
            old(self)@.wf(),
        ensures
            final(self)@.wf(),
            final(self)@ == (RuntimeState {
                device: old(self)@.device.with_error(error.code, error.message@),
                ..old(self)@
            }),
    {
        self.device.set_last_error(error.code, error.message.as_str());
    }

    /// Starts describing a memory allocation.
    pub fn allocate_memory(&self) -> (r: MemoryBuilder)
        ensures
            r@ == MemoryBuilder::default_info(),
    {
        MemoryBuilder::new()
    }

    /// Starts describing an array of `T`.
    pub fn allocate_ndarray<T: Element>(&self) -> (r: NdArrayBuilder<T>)
        ensures
            r.wf(),
            r.spec_memory_info() == MemoryBuilder::default_info(),
            r.spec_shape().len() == 0,
            r.spec_elem_shape().len() == 0,
    {
        NdArrayBuilder::new()
    }

    /// Starts describing an image.
    pub fn allocate_image(&self) -> (r: ImageBuilder)
        ensures
            r@ == ImageBuilder::default_info(),
    {
        ImageBuilder::new()
    }

    /// Starts describing a texture.
    pub fn allocate_texture(&self) -> (r: TextureBuilder)
        ensures
            r.wf(),
            r.spec_image_info() == ImageBuilder::default_info(),
    {
        TextureBuilder::new()
    }

    /// Makes a module with the given graphs available under `path`.
    pub fn store_module(&mut self, path: &str, graphs: Vec<String>)
        requires
            old(self)@.wf(),
        ensures
            final(self)@.wf(),
            final(self)@ == (RuntimeState {
                device: DeviceState {
                    store: old(self)@.device.store.insert(path@, crate::device::names_of(graphs@)),
                    ..old(self)@.device
                },
                ..old(self)@
            }),
    {
        self.device.store_module(path, graphs);
    }

    /// Loads the module stored under `module_dir`.
    pub fn load_aot_module(&mut self, module_dir: &str) -> (r: TaichiResult<AotModule>)
        requires
            old(self)@.wf(),
        ensures
            final(self)@.wf(),
            AotModule::load_outcome(old(self)@, module_dir@, final(self)@, r),
    {
        AotModule::load(self, module_dir)
    }

    /// Creates a module from an in-memory payload.
    pub fn create_aot_module(&mut self, tcm: &[u8]) -> (r: TaichiResult<AotModule>)
        requires
            old(self)@.wf(),
        ensures
            final(self)@.wf(),
            AotModule::create_outcome(old(self)@, tcm@, final(self)@, r),
    {
        AotModule::new(self, tcm)
    }

    /// The number of submitted commands not yet complete.
    pub fn pending_launch_count(&self) -> (r: usize)
        ensures
            r == self@.device.pending.len(),
    {
        self.device.pending_launch_count()
    }

    /// Blocks until every submitted command has completed; see
    /// `Device::wait` for what completing a launch may change.
    pub fn wait(&mut self) -> (r: TaichiResult<()>)
        requires
            old(self)@.wf(),
        ensures
            final(self)@.wf(),
            r is Ok,
            final(self)@ == (RuntimeState {
                device: DeviceState {
                    pending: Seq::empty(),
                    memories: final(self)@.device.memories,
                    ..old(self)@.device.with_success()
                },
                ..old(self)@
            }),
            crate::device::launches_completed(
                old(self)@.device.memories,
                old(self)@.device.pending,
                final(self)@.device.memories,
            ),
    {
        self.device.wait();
        self.get_last_error()
    }
}

} // verus!
