use taichi::runtime::Runtime;
use taichi::sys::{TiArch, TiError};

fn get_platform_arch() -> TiArch {
    TiArch::Vulkan
}

#[test]
fn test_create_runtime() {
    Runtime::new(get_platform_arch()).unwrap();
}

#[test]
fn test_host_accessible_memory_read_write() {
    let mut runtime = Runtime::new(get_platform_arch()).unwrap();
    let memory = runtime
        .allocate_memory()
        .size(128 * std::mem::size_of::<u32>())
        .host_read(true)
        .host_write(true)
        .build(&mut runtime)
        .unwrap();

    let input = (0..128).into_iter().collect::<Vec<u32>>();
    memory.write(&mut runtime, &input).unwrap();
    let mut output = [0u32; 128].to_vec();
    memory.read(&mut runtime, &mut output).unwrap();
    assert_eq!(input, output);
}

#[test]
fn test_host_accessible_ndarray_read_write() {
    let mut runtime = Runtime::new(get_platform_arch()).unwrap();
    let ndarray = runtime
        .allocate_ndarray::<u32>()
        .shape(&[128])
        .host_read(true)
        .host_write(true)
        .build(&mut runtime)
        .unwrap();

    let input = (0..128).into_iter().collect::<Vec<u32>>();
    ndarray.write(&mut runtime, &input).unwrap();
    let mut output = [0u32; 128].to_vec();
    ndarray.read(&mut runtime, &mut output).unwrap();
    assert_eq!(input, output);
}

#[test]
fn test_load_aot_module() {
    let mut runtime = Runtime::new(get_platform_arch()).unwrap();
    runtime.store_module("../assets/chess_board/module", vec!["g_run".to_string()]);
    runtime.load_aot_module("../assets/chess_board/module").unwrap();
}

#[test]
fn reserved_arch_is_not_supported() {
    let e = Runtime::new(TiArch::Reserved).err().unwrap();
    assert_eq!(e.code(), TiError::NotSupported);
    let e = Runtime::with_device_index(TiArch::Vulkan, 1).err().unwrap();
    assert_eq!(e.code(), TiError::NotSupported);
    let rt = Runtime::with_device_index(TiArch::Metal, 0).unwrap();
    assert_eq!(rt.arch(), TiArch::Metal);
    assert_eq!(rt.device_index(), 0);
}

#[test]
fn last_error_is_consumed_by_one_query() {
    let mut runtime = Runtime::new(TiArch::X64).unwrap();
    assert!(runtime.get_last_error().is_ok());
    let err = taichi::error::TaichiError::OutOfMemory("no room");
    runtime.set_last_error(&err);
    let got = runtime.get_last_error().err().unwrap();
    assert_eq!(got.code(), TiError::OutOfMemory);
    assert_eq!(got.message(), "no room");
    assert!(runtime.get_last_error().is_ok());
    runtime.set_last_error(&taichi::error::TaichiError::InvalidState(""));
    let got = runtime.get_last_error().err().unwrap();
    assert_eq!(got.code(), TiError::InvalidState);
    assert_eq!(got.message(), "");
    assert!(runtime.get_last_error().is_ok());
}

#[test]
fn missing_module_path_is_name_not_found() {
    let mut runtime = Runtime::new(TiArch::Vulkan).unwrap();
    let e = runtime.load_aot_module("no/such/module").err().unwrap();
    assert_eq!(e.code(), TiError::NameNotFound);
    let e = runtime.load_aot_module("bad\0path").err().unwrap();
    assert_eq!(e.code(), TiError::InvalidArgument);
}

#[test]
fn module_from_bytes() {
    let mut runtime = Runtime::new(TiArch::Vulkan).unwrap();
    let e = runtime.create_aot_module(&[]).err().unwrap();
    assert_eq!(e.code(), TiError::CorruptedData);
    let e = runtime.create_aot_module(&[1, 2, 3]).err().unwrap();
    assert_eq!(e.code(), TiError::CorruptedData);
    let e = runtime.create_aot_module(&[0x50, 0x4b, 5, 6, 0]).err().unwrap();
    assert_eq!(e.code(), TiError::CorruptedData);
    let module = runtime.create_aot_module(&[0x50, 0x4b, 3, 4, 0, 0]).unwrap();
    let e = module.get_compute_graph(&mut runtime, "g_run").err().unwrap();
    assert_eq!(e.code(), TiError::NameNotFound);
    assert_ne!(module.aot_module().0, 0);
}

#[test]
fn module_holders_keep_it_alive() {
    let mut runtime = Runtime::new(TiArch::Vulkan).unwrap();
    runtime.store_module("m", vec!["g".to_string()]);
    let module = runtime.load_aot_module("m").unwrap();
    let second = module.share(&mut runtime).unwrap();
    assert_eq!(second.aot_module(), module.aot_module());
    assert_eq!(second.release(&mut runtime).unwrap(), false);
    let graph = module.get_compute_graph(&mut runtime, "g").unwrap();
    assert_eq!(module.release(&mut runtime).unwrap(), false);
    assert_eq!(graph.release(&mut runtime).unwrap(), true);
}
