use rd_fly::injector::{exe_name_bytes, find_process_by_name, process_name_from_entry, ProcessEntry};

fn entry(pid: u32, name: &str) -> ProcessEntry {
    let mut exe_file: Vec<i8> = name.bytes().map(|b| b as i8).collect();
    exe_file.resize(260, 0);
    ProcessEntry { pid, exe_file }
}

#[test]
fn name_bytes_stop_at_nul() {
    assert_eq!(exe_name_bytes(&[b'a' as i8, b'b' as i8, 0, b'c' as i8]), b"ab".to_vec());
    assert_eq!(exe_name_bytes(&[b'a' as i8, b'b' as i8]), b"ab".to_vec());
    assert_eq!(exe_name_bytes(&[0, b'a' as i8]), Vec::<u8>::new());
    assert_eq!(exe_name_bytes(&[-1, -2, 0]), vec![0xFF, 0xFE]);
}

#[test]
fn process_name_decodes() {
    assert_eq!(process_name_from_entry(&entry(1, "javaw.exe")), "javaw.exe");
    let bad = ProcessEntry { pid: 2, exe_file: vec![b'x' as i8, -1, 0] };
    assert_eq!(process_name_from_entry(&bad), "x\u{FFFD}");
}

#[test]
fn find_process_ignores_case() {
    let entries = vec![entry(4, "System"), entry(100, "Javaw.EXE"), entry(200, "javaw.exe")];
    assert_eq!(find_process_by_name("JAVAW.exe", &entries), Some(100));
    assert_eq!(find_process_by_name("system", &entries), Some(4));
    assert_eq!(find_process_by_name("notepad.exe", &entries), None);
    assert_eq!(find_process_by_name("javaw", &entries), None);
    assert_eq!(find_process_by_name("x", &Vec::new()), None);
}

#[test]
fn process_name_stops_at_nul_and_keeps_case() {
    let mut exe_file: Vec<i8> = "JavaW.exe".bytes().map(|b| b as i8).collect();
    exe_file.push(0);
    exe_file.extend("junk".bytes().map(|b| b as i8));
    let e = ProcessEntry { pid: 9, exe_file };
    assert_eq!(process_name_from_entry(&e), "JavaW.exe");
    assert_eq!(find_process_by_name("JAVAW.EXE", &vec![e]), Some(9));
}
