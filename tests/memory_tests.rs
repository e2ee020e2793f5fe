use taichi::runtime::Runtime;
use taichi::sys::{TiArch, TiError, TiMemoryUsageFlags};

fn runtime() -> Runtime {
    Runtime::new(TiArch::Vulkan).unwrap()
}

#[test]
fn memory_builder_defaults() {
    let mut rt = runtime();
    let e = rt.allocate_memory().build(&mut rt).err().unwrap();
    assert_eq!(e.code(), TiError::InvalidArgument);
    let m = rt.allocate_memory().size(16).build(&mut rt).unwrap();
    assert_eq!(m.size(), 16);
    assert!(!m.host_read());
    assert!(!m.host_write());
    assert!(!m.export_sharing());
    assert_eq!(m.usage(), TiMemoryUsageFlags::storage());
    assert_ne!(m.memory().0, 0);
    assert_eq!(m.runtime(), rt.runtime());
}

#[test]
fn oversized_memory_is_out_of_memory() {
    let mut rt = runtime();
    let e = rt
        .allocate_memory()
        .size(1073741825)
        .build(&mut rt)
        .err()
        .unwrap();
    assert_eq!(e.code(), TiError::OutOfMemory);
}

#[test]
fn read_and_write_need_host_access() {
    let mut rt = runtime();
    let m = rt.allocate_memory().size(8).build(&mut rt).unwrap();
    let mut out = vec![0u32; 2];
    let e = m.read(&mut rt, &mut out).err().unwrap();
    assert_eq!(e.code(), TiError::InvalidState);
    let e = m.write(&mut rt, &[1u32, 2]).err().unwrap();
    assert_eq!(e.code(), TiError::InvalidState);

    let w = rt.allocate_memory().size(8).host_write(true).build(&mut rt).unwrap();
    w.write(&mut rt, &[1u32, 2]).unwrap();
    let e = w.read(&mut rt, &mut out).err().unwrap();
    assert_eq!(e.code(), TiError::InvalidState);
}

#[test]
fn values_must_cover_the_memory() {
    let mut rt = runtime();
    let m = rt
        .allocate_memory()
        .size(8)
        .host_read(true)
        .host_write(true)
        .build(&mut rt)
        .unwrap();
    let e = m.write(&mut rt, &[1u32, 2, 3]).err().unwrap();
    assert_eq!(e.code(), TiError::InvalidArgument);
    let mut out = vec![0u16; 3];
    let e = m.read(&mut rt, &mut out).err().unwrap();
    assert_eq!(e.code(), TiError::InvalidArgument);
    assert_eq!(out, vec![0u16; 3]);
}

#[test]
fn fresh_memory_reads_zero_and_bytes_are_little_endian() {
    let mut rt = runtime();
    let m = rt
        .allocate_memory()
        .size(4)
        .host_read(true)
        .host_write(true)
        .build(&mut rt)
        .unwrap();
    let mut out = vec![7u8; 4];
    m.read(&mut rt, &mut out).unwrap();
    assert_eq!(out, vec![0u8; 4]);
    m.write(&mut rt, &[0x0403_0201u32]).unwrap();
    m.read(&mut rt, &mut out).unwrap();
    assert_eq!(out, vec![1u8, 2, 3, 4]);
    let mut halves = vec![0u16; 2];
    m.read(&mut rt, &mut halves).unwrap();
    assert_eq!(halves, vec![0x0201u16, 0x0403]);
}

#[test]
fn signed_values_round_trip() {
    let mut rt = runtime();
    let m = rt
        .allocate_memory()
        .size(32)
        .host_read(true)
        .host_write(true)
        .build(&mut rt)
        .unwrap();
    let input = vec![-1i64, i64::MIN, i64::MAX, 42];
    m.write(&mut rt, &input).unwrap();
    let mut output = vec![0i64; 4];
    m.read(&mut rt, &mut output).unwrap();
    assert_eq!(input, output);
    let mut small = vec![0i8; 32];
    m.read(&mut rt, &mut small).unwrap();
    assert_eq!(small[0], -1);
    assert_eq!(small[8], 0);
    assert_eq!(small[15], i8::MIN);
}

#[test]
fn mapping_is_exclusive() {
    let mut rt = runtime();
    let m = rt
        .allocate_memory()
        .size(4)
        .host_read(true)
        .host_write(true)
        .build(&mut rt)
        .unwrap();
    let mapped = m.map(&mut rt).unwrap();
    assert_eq!(mapped.memory(), m.memory());
    let e = m.map(&mut rt).err().unwrap();
    assert_eq!(e.code(), TiError::InvalidState);
    let mut out = vec![0u32; 1];
    let e = m.read(&mut rt, &mut out).err().unwrap();
    assert_eq!(e.code(), TiError::InvalidState);
    mapped.write_bytes(&mut rt, vec![9, 0, 0, 0]).unwrap();
    assert_eq!(mapped.read_bytes(&mut rt).unwrap(), vec![9, 0, 0, 0]);
    let e = mapped.write_bytes(&mut rt, vec![1]).err().unwrap();
    assert_eq!(e.code(), TiError::InvalidArgument);
    mapped.unmap(&mut rt).unwrap();
    m.read(&mut rt, &mut out).unwrap();
    assert_eq!(out, vec![9]);
}

#[test]
fn last_release_frees_exactly_once() {
    let mut rt = runtime();
    let m = rt.allocate_memory().size(4).host_read(true).build(&mut rt).unwrap();
    let copies: Vec<_> = (0..3).map(|_| m.share(&mut rt).unwrap()).collect();
    for c in copies {
        assert_eq!(c.release(&mut rt).unwrap(), false);
    }
    let again = m.share(&mut rt).unwrap();
    assert_eq!(again.release(&mut rt).unwrap(), false);
    let stale = m.share(&mut rt).unwrap();
    assert_eq!(m.release(&mut rt).unwrap(), false);
    assert_eq!(stale.release(&mut rt).unwrap(), true);
}

#[test]
fn released_memory_is_gone() {
    let mut rt = runtime();
    let m = rt.allocate_memory().size(4).host_read(true).build(&mut rt).unwrap();
    let other = m.share(&mut rt).unwrap();
    assert_eq!(m.release(&mut rt).unwrap(), false);
    assert_eq!(other.share(&mut rt).unwrap().release(&mut rt).unwrap(), false);
    let last = other.share(&mut rt).unwrap();
    assert_eq!(other.release(&mut rt).unwrap(), false);
    assert_eq!(last.share(&mut rt).unwrap().release(&mut rt).unwrap(), false);
    let mut out = vec![0u32; 1];
    let handle = last.memory();
    assert_eq!(last.release(&mut rt).unwrap(), true);
    let _ = handle;
    let fresh = rt.allocate_memory().size(4).host_read(true).build(&mut rt).unwrap();
    assert_ne!(fresh.memory(), handle);
    fresh.read(&mut rt, &mut out).unwrap();
}
