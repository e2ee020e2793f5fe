//! Device images.
use crate::device::{image_allocation_status, release_image_table, DeviceState, ImageState};
use crate::error::TaichiResult;
use crate::memory::{flag, same_instance};
use crate::runtime::{Runtime, RuntimeState};
use crate::sys::{
    TiError, TiFormat, TiImage, TiImageAllocateInfo, TiImageDimension, TiImageExtent,
    TiImageUsageFlags, TiRuntime, IMAGE_USAGE_SAMPLED_BIT, IMAGE_USAGE_STORAGE_BIT, TI_FALSE,
    TI_TRUE,
};
use vstd::prelude::*;

verus! {

/// Describes an image before it is made.
pub struct ImageBuilder {
    info: TiImageAllocateInfo,
}

impl View for ImageBuilder {
    type V = TiImageAllocateInfo;

    closed spec fn view(&self) -> TiImageAllocateInfo {
        self.info
    }
}

impl ImageBuilder {
    /// Two dimensions, one texel in each direction, one layer, one mip
    /// level, RGBA8 texels, sampled and storage usage, no export sharing.
    pub open spec fn default_info() -> TiImageAllocateInfo {
        TiImageAllocateInfo {
            dimension: TiImageDimension::D2D,
            extent: TiImageExtent { width: 1, height: 1, depth: 1, array_layer_count: 1 },
            mip_level_count: 1,
            format: TiFormat::Rgba8,
            export_sharing: TI_FALSE,
            usage: TiImageUsageFlags { bits: IMAGE_USAGE_SAMPLED_BIT | IMAGE_USAGE_STORAGE_BIT },
        }
    }

    pub fn new() -> (r: Self)
        ensures
            r@ == Self::default_info(),
    {
        ImageBuilder {
            info: TiImageAllocateInfo {
                dimension: TiImageDimension::D2D,
                extent: TiImageExtent { width: 1, height: 1, depth: 1, array_layer_count: 1 },
                mip_level_count: 1,
                format: TiFormat::Rgba8,
                export_sharing: TI_FALSE,
                usage: TiImageUsageFlags::sampled().union(TiImageUsageFlags::storage()),
            },
        }
    }

    pub fn dimension(&mut self, dimension: TiImageDimension) -> (r: &mut Self)
        ensures
            r@ == (TiImageAllocateInfo { dimension, ..old(self)@ }),
            *final(self) == *final(r),
    {
        self.info.dimension = dimension;
        self
    }

    pub fn width(&mut self, width: usize) -> (r: &mut Self)
        ensures
            r@ == (TiImageAllocateInfo { extent: TiImageExtent { width: width as u32, ..old(self)@.extent }, ..old(self)@ }),
            *final(self) == *final(r),
    {
        self.info.extent.width = #[verifier::truncate] (width as u32);
        self
    }

    pub fn height(&mut self, height: usize) -> (r: &mut Self)
        ensures
            r@ == (TiImageAllocateInfo { extent: TiImageExtent { height: height as u32, ..old(self)@.extent }, ..old(self)@ }),
            *final(self) == *final(r),
    {
        self.info.extent.height = #[verifier::truncate] (height as u32);
        self
    }

    pub fn depth(&mut self, depth: usize) -> (r: &mut Self)
        ensures
            r@ == (TiImageAllocateInfo { extent: TiImageExtent { depth: depth as u32, ..old(self)@.extent }, ..old(self)@ }),
            *final(self) == *final(r),
    {
        self.info.extent.depth = #[verifier::truncate] (depth as u32);
        self
    }

    pub fn array_layer_count(&mut self, array_layer_count: usize) -> (r: &mut Self)
        ensures
            r@ == (TiImageAllocateInfo { extent: TiImageExtent { array_layer_count: array_layer_count as u32, ..old(self)@.extent }, ..old(self)@ }),
            *final(self) == *final(r),
    {
        self.info.extent.array_layer_count = #[verifier::truncate] (array_layer_count as u32);
        self
    }

    pub fn mip_level_count(&mut self, mip_level_count: usize) -> (r: &mut Self)
        ensures
            r@ == (TiImageAllocateInfo { mip_level_count: mip_level_count as u32, ..old(self)@ }),
            *final(self) == *final(r),
    {
        self.info.mip_level_count = #[verifier::truncate] (mip_level_count as u32);
        self
    }

    pub fn format(&mut self, format: TiFormat) -> (r: &mut Self)
        ensures
            r@ == (TiImageAllocateInfo { format, ..old(self)@ }),
            *final(self) == *final(r),
    {
        self.info.format = format;
        self
    }

    pub fn export_sharing(&mut self, export_sharing: bool) -> (r: &mut Self)
        ensures
            r@ == (TiImageAllocateInfo { export_sharing: flag(export_sharing), ..old(self)@ }),
            *final(self) == *final(r),
    {
        self.info.export_sharing = if export_sharing {
            TI_TRUE
        } else {
            TI_FALSE
        };
        self
    }

    pub fn usage(&mut self, usage: TiImageUsageFlags) -> (r: &mut Self)
        ensures
            r@ == (TiImageAllocateInfo { usage, ..old(self)@ }),
            *final(self) == *final(r),
    {
        self.info.usage = usage;
        self
    }

    /// Allocates the image described so far.
    pub fn build(&self, runtime: &mut Runtime) -> (r: TaichiResult<Image>)
        requires
            old(runtime)@.wf(),
        ensures
            final(runtime)@.wf(),
            Image::new_outcome(old(runtime)@, self@, final(runtime)@, r),
    {
        Image::new(runtime, &self.info)
    }
}

/// A device image, held by this value. Further holders come from `share`;
/// each holder lets go with `release`, and the last one frees it.
pub struct Image {
    runtime: TiRuntime,
    handle: TiImage,
    info: TiImageAllocateInfo,
}

impl Image {
    /// The handle that names this image on the device.
    pub closed spec fn id(&self) -> usize {
        self.handle.0
    }

    /// How this image was described.
    pub closed spec fn spec_info(&self) -> TiImageAllocateInfo {
        self.info
    }

    /// The handle of the runtime this image belongs to.
    pub closed spec fn spec_runtime(&self) -> TiRuntime {
        self.runtime
    }

    /// What `new` does: on success the device holds one more image, held
    /// once; otherwise the status of the request is reported and no resource
    /// changes.
    pub open spec fn new_outcome(
        before: RuntimeState,
        info: TiImageAllocateInfo,
        after: RuntimeState,
        r: TaichiResult<Image>,
    ) -> bool {
        &&& same_instance(before, after)
        &&& after.device.error == TiError::Success
        &&& image_allocation_status(info) != TiError::Success ==> {
            &&& r matches Err(e) && e.code == image_allocation_status(info)
            &&& after.device.same_resources(before.device)
        }
        &&& image_allocation_status(info) == TiError::Success && before.device.handle_free() ==> {
            &&& r matches Ok(m) && m.id() == before.device.next_handle && m.spec_info() == info
                && m.spec_runtime() == before.handle
            &&& after.device == (DeviceState {
                images: before.device.images.insert(
                    before.device.next_handle as usize,
                    ImageState { info, refs: 1 },
                ),
                next_handle: before.device.next_handle + 1,
                ..before.device.with_success()
            })
        }
        &&& image_allocation_status(info) == TiError::Success && !before.device.handle_free() ==> {
            &&& r matches Err(e) && e.code == TiError::OutOfMemory
            &&& after.device.same_resources(before.device)
        }
    }

    /// Allocates an image as `allocate_info` describes. Fails with
    /// InvalidArgument for an empty extent or no mip level.
    pub fn new(runtime: &mut Runtime, allocate_info: &TiImageAllocateInfo) -> (r: TaichiResult<Image>)
        requires
            old(runtime)@.wf(),
        ensures
            final(runtime)@.wf(),
            Self::new_outcome(old(runtime)@, *allocate_info, final(runtime)@, r),
    {
        let handle = runtime.device_mut().allocate_image(allocate_info);
        match runtime.get_last_error() {
            Ok(()) => Ok(Image { runtime: runtime.runtime(), handle, info: *allocate_info }),
            Err(e) => Err(e),
        }
    }

    /// Another holder of this image.
    pub fn share(&self, runtime: &mut Runtime) -> (r: TaichiResult<Image>)
        requires
            old(runtime)@.wf(),
            self.spec_runtime() == old(runtime)@.handle,
        ensures
            final(runtime)@.wf(),
            same_instance(old(runtime)@, final(runtime)@),
            final(runtime)@.device.error == TiError::Success,
            r is Ok == (old(runtime)@.device.images.contains_key(self.id())
                && crate::device::can_share(old(runtime)@.device.images[self.id()].refs)),
            r matches Ok(m) ==> m.id() == self.id() && m.spec_info() == self.spec_info()
                && m.spec_runtime() == self.spec_runtime() && final(runtime)@.device == (DeviceState {
                images: old(runtime)@.device.images.insert(
                    self.id(),
                    ImageState {
                        refs: old(runtime)@.device.images[self.id()].refs + 1,
                        ..old(runtime)@.device.images[self.id()]
                    },
                ),
                ..old(runtime)@.device.with_success()
            }),
            r matches Err(e) ==> e.code == (if old(runtime)@.device.images.contains_key(self.id()) {
                TiError::OutOfMemory
            } else {
                TiError::InvalidArgument
            }),
            r is Err ==> final(runtime)@.device.same_resources(old(runtime)@.device),
    {
        runtime.device_mut().share_image(self.handle);
        match runtime.get_last_error() {
            Ok(()) => Ok(Image { runtime: self.runtime, handle: self.handle, info: self.info }),
            Err(e) => Err(e),
        }
    }

    /// Lets go of this holder; the image is freed with its last holder. The
    /// result says whether it was freed.
    pub fn release(self, runtime: &mut Runtime) -> (r: TaichiResult<bool>)
        requires
            old(runtime)@.wf(),
            self.spec_runtime() == old(runtime)@.handle,
        ensures
            final(runtime)@.wf(),
            same_instance(old(runtime)@, final(runtime)@),
            final(runtime)@.device.error == TiError::Success,
            r is Ok == old(runtime)@.device.images.contains_key(self.id()),
            r matches Ok(freed) ==> freed == (old(runtime)@.device.images[self.id()].refs <= 1)
                && final(runtime)@.device == (DeviceState {
                images: release_image_table(old(runtime)@.device.images, self.id()),
                ..old(runtime)@.device.with_success()
            }),
            r is Err ==> final(runtime)@.device.same_resources(old(runtime)@.device),
    {
        let freed = runtime.device_mut().release_image(self.handle);
        match runtime.get_last_error() {
            Ok(()) => Ok(freed),
            Err(e) => Err(e),
        }
    }

    pub fn runtime(&self) -> (r: TiRuntime)
        ensures
            r == self.spec_runtime(),
    {
        self.runtime
    }

    pub fn image(&self) -> (r: TiImage)
        ensures
            r.0 == self.id(),
    {
        self.handle
    }

    pub fn dimension(&self) -> (r: TiImageDimension)
        ensures
            r == self.spec_info().dimension,
    {
        self.info.dimension
    }

    pub fn width(&self) -> (r: u32)
        ensures
            r == self.spec_info().extent.width,
    {
        self.info.extent.width
    }

    pub fn height(&self) -> (r: u32)
        ensures
            r == self.spec_info().extent.height,
    {
        self.info.extent.height
    }

    pub fn depth(&self) -> (r: u32)
        ensures
            r == self.spec_info().extent.depth,
    {
        self.info.extent.depth
    }

    pub fn array_layer_count(&self) -> (r: u32)
        ensures
            r == self.spec_info().extent.array_layer_count,
    {
        self.info.extent.array_layer_count
    }

    pub fn mip_level_count(&self) -> (r: u32)
        ensures
            r == self.spec_info().mip_level_count,
    {
        self.info.mip_level_count
    }

    pub fn format(&self) -> (r: TiFormat)
        ensures
            r == self.spec_info().format,
    {
        self.info.format
    }

    pub fn export_sharing(&self) -> (r: bool)
        ensures
            r == (self.spec_info().export_sharing != TI_FALSE),
    {
        self.info.export_sharing != TI_FALSE
    }

    pub fn usage(&self) -> (r: TiImageUsageFlags)
        ensures
            r == self.spec_info().usage,
    {
        self.info.usage
    }
}

} // verus!
