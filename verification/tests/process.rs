use crusty::process::{distinct_pids, parse_pid_file, pid_file_name, pids_from_lsof, pids_from_netstat};

#[test]
fn pid_file_names() {
    assert_eq!(pid_file_name("9router"), "process_9router.pid");
    assert_eq!(pid_file_name(""), "process_.pid");
}

#[test]
fn pid_file_contents() {
    assert_eq!(parse_pid_file("1234\n"), Some(1234));
    assert_eq!(parse_pid_file("  42  "), Some(42));
    assert_eq!(parse_pid_file(""), None);
    assert_eq!(parse_pid_file("abc"), None);
    assert_eq!(parse_pid_file("12 34"), None);
    assert_eq!(parse_pid_file("4294967295"), Some(4294967295));
    assert_eq!(parse_pid_file("4294967296"), None);
}

#[test]
fn lsof_output() {
    assert_eq!(pids_from_lsof("123\n456\n"), vec![123, 456]);
    assert_eq!(pids_from_lsof("123\r\n\nxyz\n 7 \n"), vec![123, 7]);
    assert_eq!(pids_from_lsof(""), Vec::<u32>::new());
}

#[test]
fn netstat_output_windows() {
    let out = "  Proto  Local Address          Foreign Address        State           PID\n  TCP    0.0.0.0:20128          0.0.0.0:0              LISTENING       4321\n  TCP    0.0.0.0:201280         0.0.0.0:0              LISTENING       99\n  TCP    [::]:20128             [::]:0                 LISTENING       0\n";
    assert_eq!(pids_from_netstat(out, 20128, 5, true), vec![4321]);
    assert_eq!(pids_from_netstat(out, 20128, 5, false), vec![4321, 0]);
    assert_eq!(pids_from_netstat(out, 20128, 6, false), Vec::<u32>::new());
    assert_eq!(pids_from_netstat(out, 80, 2, false), Vec::<u32>::new());
}

#[test]
fn distinct_pids_keep_first() {
    assert_eq!(distinct_pids(&vec![5, 3, 5, 1, 3]), vec![5, 3, 1]);
    assert_eq!(distinct_pids(&vec![]), Vec::<u32>::new());
    assert_eq!(distinct_pids(&vec![7, 7, 7]), vec![7]);
}

use crusty::process::{names_process, process_matches};

#[test]
fn process_identity() {
    assert!(process_matches("node", "C:\\Program Files\\9Router\\9router.EXE", "9Router"));
    assert!(process_matches("9router", "", "9ROUTER"));
    assert!(!process_matches("node", "/usr/bin/node", "9router"));
    assert!(names_process("x9routerx", "", "9router"));
    assert!(!names_process("9Router", "", "9router"));
}

use crusty::process::pid_file_content;

#[test]
fn pid_file_round_trip() {
    for pid in [0u32, 7, 10, 4321, u32::MAX] {
        assert_eq!(pid_file_content(pid), pid.to_string());
        assert_eq!(parse_pid_file(&pid_file_content(pid)), Some(pid));
    }
}
