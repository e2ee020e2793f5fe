//! Textures: an image bound to a sampler.
use crate::error::TaichiResult;
use crate::image::{Image, ImageBuilder};
use crate::memory::flag;
use crate::runtime::Runtime;
use crate::sys::{
    TiFormat, TiImage, TiImageAllocateInfo, TiImageDimension, TiImageExtent, TiImageUsageFlags,
    TiSampler, TiTexture, TI_FALSE,
};
use vstd::prelude::*;

verus! {

/// Describes a texture before it is made. The texture takes the default
/// sampler of the backend.
pub struct TextureBuilder {
    image_builder: ImageBuilder,
    texture: TiTexture,
}

/// The texture description that matches an image description, with no image
/// yet and the default sampler.
pub open spec fn texture_of(info: TiImageAllocateInfo) -> TiTexture {
    TiTexture {
        image: TiImage(0),
        sampler: TiSampler(0),
        dimension: info.dimension,
        extent: info.extent,
        format: info.format,
    }
}

impl TextureBuilder {
    /// How the image is described so far.
    pub closed spec fn spec_image_info(&self) -> TiImageAllocateInfo {
        self.image_builder@
    }

    /// Whether the cached texture description matches the image description.
    pub closed spec fn wf(&self) -> bool {
        self.texture == texture_of(self.image_builder@)
    }

    pub fn new() -> (r: Self)
        ensures
            r.wf(),
            r.spec_image_info() == ImageBuilder::default_info(),
    {
        let image_builder = ImageBuilder::new();
        let texture = TiTexture {
            image: TiImage::null(),
            sampler: TiSampler::null(),
            dimension: TiImageDimension::D2D,
            extent: TiImageExtent { width: 1, height: 1, depth: 1, array_layer_count: 1 },
            format: TiFormat::Rgba8,
        };
        TextureBuilder { image_builder, texture }
    }

    pub fn dimension(&mut self, dimension: TiImageDimension) -> (r: &mut Self)
        requires
            old(self).wf(),
        ensures
            r.wf(),
            r.spec_image_info() == (TiImageAllocateInfo { dimension, ..old(self).spec_image_info() }),
            *final(self) == *final(r),
    {
        self.image_builder.dimension(dimension);
        self.texture.dimension = dimension;
        self
    }

    pub fn width(&mut self, width: usize) -> (r: &mut Self)
        requires
            old(self).wf(),
        ensures
            r.wf(),
            r.spec_image_info() == (TiImageAllocateInfo { extent: TiImageExtent { width: width as u32, ..old(self).spec_image_info().extent }, ..old(self).spec_image_info() }),
            *final(self) == *final(r),
    {
        self.image_builder.width(width);
        self.texture.extent.width = #[verifier::truncate] (width as u32);
        self
    }

    pub fn height(&mut self, height: usize) -> (r: &mut Self)
        requires
            old(self).wf(),
        ensures
            r.wf(),
            r.spec_image_info() == (TiImageAllocateInfo { extent: TiImageExtent { height: height as u32, ..old(self).spec_image_info().extent }, ..old(self).spec_image_info() }),
            *final(self) == *final(r),
    {
        self.image_builder.height(height);
        self.texture.extent.height = #[verifier::truncate] (height as u32);
        self
    }

    pub fn depth(&mut self, depth: usize) -> (r: &mut Self)
        requires
            old(self).wf(),
        ensures
            r.wf(),
            r.spec_image_info() == (TiImageAllocateInfo { extent: TiImageExtent { depth: depth as u32, ..old(self).spec_image_info().extent }, ..old(self).spec_image_info() }),
            *final(self) == *final(r),
    {
        self.image_builder.depth(depth);
        self.texture.extent.depth = #[verifier::truncate] (depth as u32);
        self
    }

    pub fn array_layer_count(&mut self, array_layer_count: usize) -> (r: &mut Self)
        requires
            old(self).wf(),
        ensures
            r.wf(),
            r.spec_image_info() == (TiImageAllocateInfo { extent: TiImageExtent { array_layer_count: array_layer_count as u32, ..old(self).spec_image_info().extent }, ..old(self).spec_image_info() }),
            *final(self) == *final(r),
    {
        self.image_builder.array_layer_count(array_layer_count);
        self.texture.extent.array_layer_count = #[verifier::truncate] (array_layer_count as u32);
        self
    }

    pub fn mip_level_count(&mut self, mip_level_count: usize) -> (r: &mut Self)
        requires
            old(self).wf(),
        ensures
            r.wf(),
            r.spec_image_info() == (TiImageAllocateInfo { mip_level_count: mip_level_count as u32, ..old(self).spec_image_info() }),
            *final(self) == *final(r),
    {
        self.image_builder.mip_level_count(mip_level_count);
        self
    }

    pub fn format(&mut self, format: TiFormat) -> (r: &mut Self)
        requires
            old(self).wf(),
        ensures
            r.wf(),
            r.spec_image_info() == (TiImageAllocateInfo { format, ..old(self).spec_image_info() }),
            *final(self) == *final(r),
    {
        self.image_builder.format(format);
        self.texture.format = format;
        self
    }

    pub fn export_sharing(&mut self, export_sharing: bool) -> (r: &mut Self)
        requires
            old(self).wf(),
        ensures
            r.wf(),
            r.spec_image_info() == (TiImageAllocateInfo { export_sharing: flag(export_sharing), ..old(self).spec_image_info() }),
            *final(self) == *final(r),
    {
        self.image_builder.export_sharing(export_sharing);
        self
    }

    pub fn usage(&mut self, usage: TiImageUsageFlags) -> (r: &mut Self)
        requires
            old(self).wf(),
        ensures
            r.wf(),
            r.spec_image_info() == (TiImageAllocateInfo { usage, ..old(self).spec_image_info() }),
            *final(self) == *final(r),
    {
        self.image_builder.usage(usage);
        self
    }

    /// Allocates the image and binds it to the default sampler.
    pub fn build(&self, runtime: &mut Runtime) -> (r: TaichiResult<Texture>)
        requires
            old(runtime)@.wf(),
            self.wf(),
        ensures
            final(runtime)@.wf(),
            r matches Ok(tex) ==> Image::new_outcome(
                old(runtime)@,
                self.spec_image_info(),
                final(runtime)@,
                Ok(tex.spec_image()),
            ) && tex.spec_texture() == (TiTexture {
                image: TiImage(tex.spec_image().id()),
                ..texture_of(self.spec_image_info())
            }),
            r matches Err(e) ==> Image::new_outcome(
                old(runtime)@,
                self.spec_image_info(),
                final(runtime)@,
                Err(e),
            ),
    {
        let image = match self.image_builder.build(runtime) {
            Ok(image) => image,
            Err(e) => return Err(e),
        };
        let texture = TiTexture { image: image.image(), ..self.texture };
        Ok(Texture { image, texture })
    }
}

/// An image bound to a sampler, with the image's shape cached.
pub struct Texture {
    image: Image,
    texture: TiTexture,
}

impl Texture {
    /// The image.
    pub closed spec fn spec_image(&self) -> Image {
        self.image
    }

    /// The description handed to the backend.
    pub closed spec fn spec_texture(&self) -> TiTexture {
        self.texture
    }

    pub fn image(&self) -> (r: &Image)
        ensures
            *r == self.spec_image(),
    {
        &self.image
    }

    pub fn dimension(&self) -> (r: TiImageDimension)
        ensures
            r == self.spec_texture().dimension,
    {
        self.texture.dimension
    }

    pub fn width(&self) -> (r: usize)
        ensures
            r == self.spec_texture().extent.width,
    {
        self.texture.extent.width as usize
    }

    pub fn height(&self) -> (r: usize)
        ensures
            r == self.spec_texture().extent.height,
    {
        self.texture.extent.height as usize
    }

    pub fn depth(&self) -> (r: usize)
        ensures
            r == self.spec_texture().extent.depth,
    {
        self.texture.extent.depth as usize
    }

    pub fn array_layer_count(&self) -> (r: usize)
        ensures
            r == self.spec_texture().extent.array_layer_count,
    {
        self.texture.extent.array_layer_count as usize
    }

    pub fn mip_level_count(&self) -> (r: u32)
        ensures
            r == self.spec_image().spec_info().mip_level_count,
    {
        self.image.mip_level_count()
    }

    pub fn format(&self) -> (r: TiFormat)
        ensures
            r == self.spec_texture().format,
    {
        self.texture.format
    }

    pub fn export_sharing(&self) -> (r: bool)
        ensures
            r == (self.spec_image().spec_info().export_sharing != TI_FALSE),
    {
        self.image.export_sharing()
    }

    pub fn usage(&self) -> (r: TiImageUsageFlags)
        ensures
            r == self.spec_image().spec_info().usage,
    {
        self.image.usage()
    }

    /// The description handed to the backend.
    pub fn texture(&self) -> (r: &TiTexture)
        ensures
            *r == self.spec_texture(),
    {
        &self.texture
    }
}

} // verus!
