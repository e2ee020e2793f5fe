use taichi::runtime::Runtime;
use taichi::sys::{
    TiArch, TiArgument, TiDataType, TiError, TiFormat, TiImageDimension, TiImageUsageFlags,
    TiScalar,
};
use taichi::version::Version;

fn runtime() -> Runtime {
    Runtime::new(TiArch::Vulkan).unwrap()
}

#[test]
fn ndarray_counts_are_shape_products() {
    let mut rt = runtime();
    let a = rt
        .allocate_ndarray::<u16>()
        .shape(&[4, 3])
        .elem_shape(&[2])
        .host_access(true)
        .build(&mut rt)
        .unwrap();
    assert_eq!(a.elem_count(), 12);
    assert_eq!(a.scalar_count(), 24);
    assert_eq!(a.memory().size(), 48);
    assert_eq!(a.shape(), vec![4, 3]);
    assert_eq!(a.elem_shape(), vec![2]);
    assert_eq!(a.elem_type(), TiDataType::U16);
    assert_eq!(a.ndarray().memory, a.memory().memory());
    let values = a.to_vec::<u16>(&mut rt).unwrap();
    assert_eq!(values, vec![0u16; 24]);
    let input: Vec<u16> = (0..24).collect();
    a.write(&mut rt, &input).unwrap();
    assert_eq!(a.to_vec::<u16>(&mut rt).unwrap(), input);
    let mapped = a.map(&mut rt).unwrap();
    assert_eq!(mapped.memory(), a.memory().memory());
    mapped.unmap(&mut rt).unwrap();
}

#[test]
fn ndarray_size_edge_cases() {
    let mut rt = runtime();
    let e = rt
        .allocate_ndarray::<i32>()
        .shape(&[4, 0])
        .build(&mut rt)
        .err()
        .unwrap();
    assert_eq!(e.code(), TiError::InvalidArgument);
    let e = rt
        .allocate_ndarray::<u64>()
        .shape(&[65536, 65536, 65536])
        .elem_shape(&[0, 0])
        .build(&mut rt)
        .err()
        .unwrap();
    assert_eq!(e.code(), TiError::InvalidArgument);
    let e = rt
        .allocate_ndarray::<u64>()
        .shape(&[65536, 65536, 65536])
        .build(&mut rt)
        .err()
        .unwrap();
    assert_eq!(e.code(), TiError::OutOfMemory);
    let scalar = rt.allocate_ndarray::<i8>().host_read(true).build(&mut rt).unwrap();
    assert_eq!(scalar.elem_count(), 1);
    assert_eq!(scalar.scalar_count(), 1);
    assert_eq!(scalar.memory().size(), 1);
}

#[test]
fn ndarray_needs_host_access() {
    let mut rt = runtime();
    let a = rt.allocate_ndarray::<i32>().shape(&[2]).build(&mut rt).unwrap();
    let e = a.write(&mut rt, &[1i32, 2]).err().unwrap();
    assert_eq!(e.code(), TiError::InvalidState);
    let e = a.to_vec::<i32>(&mut rt).err().unwrap();
    assert_eq!(e.code(), TiError::InvalidState);
}

#[test]
fn image_builder_defaults_and_errors() {
    let mut rt = runtime();
    let image = rt.allocate_image().build(&mut rt).unwrap();
    assert_eq!(image.dimension(), TiImageDimension::D2D);
    assert_eq!(image.width(), 1);
    assert_eq!(image.height(), 1);
    assert_eq!(image.depth(), 1);
    assert_eq!(image.array_layer_count(), 1);
    assert_eq!(image.mip_level_count(), 1);
    assert_eq!(image.format(), TiFormat::Rgba8);
    assert!(!image.export_sharing());
    assert!(image.usage().contains(TiImageUsageFlags::sampled()));
    assert!(image.usage().contains(TiImageUsageFlags::storage()));
    assert_ne!(image.image().0, 0);

    let e = rt.allocate_image().width(0).build(&mut rt).err().unwrap();
    assert_eq!(e.code(), TiError::InvalidArgument);
    let e = rt.allocate_image().mip_level_count(0).build(&mut rt).err().unwrap();
    assert_eq!(e.code(), TiError::InvalidArgument);

    let big = rt
        .allocate_image()
        .dimension(TiImageDimension::D3D)
        .width(64)
        .height(32)
        .depth(8)
        .format(TiFormat::R32F)
        .export_sharing(true)
        .usage(TiImageUsageFlags::storage())
        .build(&mut rt)
        .unwrap();
    assert_eq!(big.width(), 64);
    assert_eq!(big.height(), 32);
    assert_eq!(big.depth(), 8);
    assert_eq!(big.format(), TiFormat::R32F);
    assert!(big.export_sharing());
    let other = big.share(&mut rt).unwrap();
    assert_eq!(big.release(&mut rt).unwrap(), false);
    assert_eq!(other.release(&mut rt).unwrap(), true);
}

#[test]
fn texture_caches_image_shape() {
    let mut rt = runtime();
    let tex = rt
        .allocate_texture()
        .dimension(TiImageDimension::D2DArray)
        .width(16)
        .height(8)
        .array_layer_count(4)
        .mip_level_count(2)
        .format(TiFormat::Rgba16F)
        .build(&mut rt)
        .unwrap();
    assert_eq!(tex.dimension(), TiImageDimension::D2DArray);
    assert_eq!(tex.width(), 16);
    assert_eq!(tex.height(), 8);
    assert_eq!(tex.depth(), 1);
    assert_eq!(tex.array_layer_count(), 4);
    assert_eq!(tex.mip_level_count(), 2);
    assert_eq!(tex.format(), TiFormat::Rgba16F);
    assert_eq!(tex.texture().image, tex.image().image());
    assert_eq!(tex.texture().sampler.0, 0);
    assert!(!tex.export_sharing());
    let e = rt.allocate_texture().height(0).build(&mut rt).err().unwrap();
    assert_eq!(e.code(), TiError::InvalidArgument);
}

#[test]
fn rebinding_keeps_one_latest_value_per_name() {
    let mut rt = runtime();
    rt.store_module("mod", vec!["g_run".to_string()]);
    let module = rt.load_aot_module("mod").unwrap();
    let mut graph = module.get_compute_graph(&mut rt, "g_run").unwrap();
    graph.set_arg_i32("a", 1).unwrap();
    graph.set_arg_f32_bits("b", 2.5f32.to_bits()).unwrap();
    graph.set_arg_i32("a", 3).unwrap();
    let args = graph.args();
    assert_eq!(args.len(), 2);
    let a: Vec<_> = args.iter().filter(|x| x.name == "a").collect();
    assert_eq!(a.len(), 1);
    assert_eq!(a[0].argument, TiArgument::I32(3));
    let b: Vec<_> = args.iter().filter(|x| x.name == "b").collect();
    assert_eq!(b[0].argument, TiArgument::F32(2.5f32.to_bits()));
    let e = graph.set_arg_i32("bad\0name", 1).err().unwrap();
    assert_eq!(e.code(), TiError::InvalidArgument);
    assert_eq!(graph.args().len(), 2);
}

#[test]
fn launch_queues_and_wait_drains() {
    let mut rt = runtime();
    rt.store_module("../assets/chess_board/module", vec!["g_run".to_string()]);
    let ndarray = rt
        .allocate_ndarray::<i32>()
        .shape(&[16, 16])
        .host_read(true)
        .build(&mut rt)
        .unwrap();
    let module = rt.load_aot_module("../assets/chess_board/module").unwrap();
    let mut g_run = module.get_compute_graph(&mut rt, "g_run").unwrap();
    g_run.set_arg_ndarray("arr", &ndarray).unwrap();
    g_run.set_arg_scalar("s", TiScalar { data_type: TiDataType::U8, bits: 7 }).unwrap();
    g_run.launch(&mut rt).unwrap();
    g_run.launch(&mut rt).unwrap();
    assert_eq!(rt.pending_launch_count(), 2);
    rt.wait().unwrap();
    assert_eq!(rt.pending_launch_count(), 0);
    let e = module.get_compute_graph(&mut rt, "missing").err().unwrap();
    assert_eq!(e.code(), TiError::NameNotFound);
    assert_eq!(g_run.runtime(), rt.runtime());
    assert_ne!(g_run.compute_graph().0, 0);
}

#[test]
fn version_fields() {
    let v = Version::new(1, 2, 3);
    assert_eq!(u32::from(v), 1002003);
    assert!(Version::new(1, 2, 3) < Version::new(1, 3, 0));
    assert_eq!(v.major(), 1);
    assert_eq!(v.minor(), 2);
    assert_eq!(v.patch(), 3);
    assert_eq!(Version::from(4005006u32).minor(), 5);
}
