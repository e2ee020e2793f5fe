use taichi::compute_graph::ArgumentList;
use taichi::error::check_status;
use taichi::memory::{check_cover, check_host_read, check_host_write, MemoryBuilder};
use taichi::ndarray::NdArrayBuilder;
use taichi::sys::{TiArgument, TiError};

#[test]
fn status_codes_become_results() {
    assert!(check_status(0, String::new()).is_ok());
    assert!(check_status(1, "truncated".to_string()).is_ok());
    let e = check_status(-3, "missing".to_string()).err().unwrap();
    assert_eq!(e.code(), TiError::NameNotFound);
    assert_eq!(e.message(), "missing");
    let e = check_status(-10, String::new()).err().unwrap();
    assert_eq!(e.code(), TiError::IncompatibleModule);
    let e = check_status(-11, String::new()).err().unwrap();
    assert_eq!(e.code(), TiError::OutOfMemory);
    let e = check_status(-99, String::new()).err().unwrap();
    assert_eq!(e.code(), TiError::InvalidState);
}

#[test]
fn host_access_and_cover_checks() {
    let mut b = MemoryBuilder::new();
    b.size(8);
    let e = check_host_read(&b.clone_info()).err().unwrap();
    assert_eq!(e.code(), TiError::InvalidState);
    let e = check_host_write(&b.clone_info()).err().unwrap();
    assert_eq!(e.code(), TiError::InvalidState);
    b.host_read(true).host_write(true);
    assert!(check_host_read(&b.clone_info()).is_ok());
    assert!(check_host_write(&b.clone_info()).is_ok());
    assert!(check_cover(8, 4, 2).is_ok());
    assert!(check_cover(8, 1, 8).is_ok());
    let e = check_cover(8, 4, 3).err().unwrap();
    assert_eq!(e.code(), TiError::InvalidArgument);
    assert!(check_cover(6, 4, 1).is_err());
}

#[test]
fn argument_list_keeps_latest_binding() {
    let mut list = ArgumentList::new();
    list.set("a", TiArgument::I32(1)).unwrap();
    list.set("b", TiArgument::I32(2)).unwrap();
    list.set("a", TiArgument::I32(3)).unwrap();
    let snapshot = list.snapshot();
    assert_eq!(snapshot.len(), 2);
    assert_eq!(snapshot[0].name, "a");
    assert_eq!(snapshot[0].argument, TiArgument::I32(3));
    assert_eq!(snapshot[1].argument, TiArgument::I32(2));
    assert!(list.set("x\0y", TiArgument::I32(0)).is_err());
    assert_eq!(list.snapshot().len(), 2);
}

#[test]
fn ndarray_descriptor() {
    let mut b = NdArrayBuilder::<i32>::new();
    b.shape(&[16, 16]).elem_shape(&[3]).host_read(true);
    let info = b.allocation_info();
    assert_eq!(info.size, 4 * 16 * 16 * 3);
    assert_eq!(info.host_read, 1);
    assert_eq!(b.shape_info().dim_count, 2);
    assert_eq!(&b.shape_info().dims[..2], &[16, 16]);
    assert_eq!(b.elem_shape_info().dims[0], 3);
    let mut huge = NdArrayBuilder::<u64>::new();
    huge.shape(&[65536, 65536, 65536]);
    assert_eq!(huge.allocation_info().size, 1073741825);
}
