use windows_win::host::Host;
use windows_win::sys::{MEMORY_BASIC_INFORMATION, MEM_FREE, MEM_COMMIT, ERROR_PARTIAL_COPY, ERROR_ACCESS_DENIED};
use windows_win::memory::{virtual_query_ex, Virtual};
use windows_win::process::{open, read_memory, write_memory};

fn region(base: usize, size: usize, state: u32) -> MEMORY_BASIC_INFORMATION {
    MEMORY_BASIC_INFORMATION {
        BaseAddress: base,
        AllocationBase: base,
        AllocationProtect: 0,
        RegionSize: size,
        State: state,
        Protect: 0,
        Type: 0,
    }
}

#[test]
fn query() {
    let mut host = Host::new();
    host.add_process(42, "C:\\self.exe");
    host.add_process_region(42, region(0, 0x10000, MEM_FREE));
    let handle = open(&mut host, 42, 0x0400).unwrap();
    let result = virtual_query_ex(&mut host, handle, 0);

    assert!(result.is_ok());

    let result = result.unwrap();
    assert!(result.is_free());
}

#[test]
fn virtual_walks_the_regions() {
    let mut host = Host::new();
    host.add_process(42, "C:\\self.exe");
    host.add_process_region(42, region(0, 0x1000, MEM_FREE));
    host.add_process_region(42, region(0x1000, 0x2000, MEM_COMMIT));
    let handle = open(&mut host, 42, 0x0400).unwrap();

    let mut walker = Virtual::new(handle);
    let first = walker.next(&mut host).unwrap();
    assert!(first.is_free());
    assert_eq!(first.base_addr(), 0);
    assert_eq!(first.size(), 0x1000);
    let second = walker.next(&mut host).unwrap();
    assert!(second.is_commit());
    assert_eq!(second.alloc_base(), 0x1000);
    assert!(!second.is_reserved());
    assert!(walker.next(&mut host).is_none());
}

#[test]
fn read_and_write_round_trip() {
    let mut host = Host::new();
    host.add_process(9, "C:\\w.exe");
    host.set_process_memory(9, 0x400, vec![0u8; 16]);
    let handle = open(&mut host, 9, 0x0010 | 0x0020).unwrap();

    assert!(write_memory(&mut host, handle, 0x404, &[1, 2, 3, 4]).is_ok());
    let mut buf = vec![0u8; 6];
    assert!(read_memory(&mut host, handle, 0x403, &mut buf).is_ok());
    assert_eq!(buf, vec![0, 1, 2, 3, 4, 0]);
}

#[test]
fn read_outside_the_mapped_span_is_partial_copy() {
    let mut host = Host::new();
    host.add_process(9, "C:\\w.exe");
    host.set_process_memory(9, 0x400, vec![0u8; 16]);
    let handle = open(&mut host, 9, 0x0010).unwrap();
    let mut buf = vec![0u8; 32];
    let res = read_memory(&mut host, handle, 0x400, &mut buf);
    assert!(res.is_err());
    assert_eq!(res.err().unwrap().raw_code(), ERROR_PARTIAL_COPY);
}

#[test]
fn access_rights_guard_memory_operations() {
    let mut host = Host::new();
    host.add_process(9, "C:\\w.exe");
    host.set_process_memory(9, 0, vec![0u8; 8]);
    let read_only = open(&mut host, 9, 0x0010).unwrap();
    let res = write_memory(&mut host, read_only, 0, &[1]);
    assert!(res.is_err());
    assert_eq!(res.err().unwrap().raw_code(), ERROR_ACCESS_DENIED);
    let mut buf = vec![0u8; 1];
    let no_rights = open(&mut host, 9, 0).unwrap();
    let res = read_memory(&mut host, no_rights, 0, &mut buf);
    assert!(res.is_err());
    assert_eq!(res.err().unwrap().raw_code(), ERROR_ACCESS_DENIED);
}
