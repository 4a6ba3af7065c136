//! File operations and transfers.

use base64::Engine;
use nobase::command::CommandOutput;
use nobase::config::SecurityConfig;
use nobase::encoding::sha256_of;
use nobase::handlers::fs::{
    decode_content, encode_content, handle_fs_delete, handle_fs_list, handle_fs_mkdir,
    handle_fs_read, handle_fs_rename, handle_fs_search, handle_fs_stat, handle_fs_write,
    ExitReport, FoundFile, FsDeletePlan, FsListPlan, FsMkdirPlan, FsReadPlan, FsRenamePlan,
    FsStatPlan, Removal, StatFailure, TeeOutcome,
};
use nobase::handlers::fs_entry::{
    gid_to_name, metadata_to_entry, mode_to_string, parse_ls, parse_ls_line, parse_stat,
    sort_entries, uid_to_name, FileMeta,
};
use nobase::handlers::transfer::{
    handle_fs_download, handle_fs_upload_chunk, handle_fs_upload_end, handle_fs_upload_start,
    ChunkOutcome, SyncOutcome, UploadTransfer, UploadVerdict,
};
use nobase::methods::{
    FsDeleteRequest, FsDownloadRequest, FsEncoding, FsEntry, FsEntryType, FsListRequest,
    FsMkdirRequest, FsReadRequest, FsRenameRequest, FsSearchRequest, FsStatRequest,
    FsUploadChunkRequest, FsUploadEndRequest, FsUploadStartRequest, FsWriteRequest,
};
use nobase::registry::Registry;
use nobase::rpc::RpcResponse;

/// The largest file that the default settings let be read or written whole.
const LIMIT: u64 = 104_857_600;

fn id() -> String {
    "7".to_string()
}

fn unrestricted() -> SecurityConfig {
    SecurityConfig::default()
}

fn below(directories: Vec<&str>) -> SecurityConfig {
    let mut security = SecurityConfig::default();
    security.allowed_paths = directories.into_iter().map(s).collect();
    security
}

fn s(text: &str) -> String {
    text.to_string()
}

fn error_of<V>(response: &RpcResponse<V>) -> (i32, String) {
    assert_eq!(response.id, "7");
    assert!(response.result.is_none());
    let e = response.error.as_ref().unwrap();
    (e.code, e.message.clone())
}

fn failed(message: &str) -> (i32, String) {
    (-32003, s(message))
}

fn refused(reason: &str) -> (i32, String) {
    (-32602, format!("Invalid params: {reason}"))
}

fn base64_of(bytes: &[u8]) -> String {
    base64::engine::general_purpose::STANDARD.encode(bytes)
}

fn output(success: bool, stdout: &[u8], stderr: &[u8]) -> CommandOutput {
    CommandOutput { success, code: Some(0), stdout: stdout.to_vec(), stderr: stderr.to_vec() }
}

fn meta(is_dir: bool, is_symlink: bool, mode: u32) -> FileMeta {
    FileMeta {
        is_dir,
        is_symlink,
        len: 12,
        mode,
        uid: 1000,
        gid: 100,
        modified_secs: Some(1577837400),
        owner: Some(s("ann")),
        group: None,
    }
}

#[test]
fn modes_are_written() {
    assert_eq!(mode_to_string(0o040755), "drwxr-xr-x");
    assert_eq!(mode_to_string(0o120777), "lrwxrwxrwx");
    assert_eq!(mode_to_string(0o100640), "-rw-r-----");
    assert_eq!(mode_to_string(0o060000), "----------");
    assert_eq!(mode_to_string(0o104711), "-rwx--x--x");
}

#[test]
fn names_or_numbers() {
    assert_eq!(uid_to_name(Some(s("root")), 0), "root");
    assert_eq!(uid_to_name(None, 1001), "1001");
    assert_eq!(gid_to_name(Some(s("wheel")), 0), "wheel");
    assert_eq!(gid_to_name(None, 7), "7");
}

#[test]
fn entries_from_metadata() {
    let e = metadata_to_entry("a", meta(false, false, 0o100644));
    assert!(matches!(e.entry_type, FsEntryType::File));
    assert_eq!(e.name, "a");
    assert_eq!(e.size, 12);
    assert_eq!(e.permissions, "-rw-r--r--");
    assert_eq!(e.modified, "2020-01-01T00:10:00+00:00");
    assert_eq!((e.owner.as_str(), e.group.as_str()), ("ann", "100"));
    let mut m = meta(true, false, 0o040700);
    m.modified_secs = None;
    let e = metadata_to_entry("d", m);
    assert!(matches!(e.entry_type, FsEntryType::Directory));
    assert_eq!(e.modified, "");
    let mut m = meta(false, true, 0o120777);
    m.modified_secs = Some(8_210_266_876_800);
    let e = metadata_to_entry("l", m);
    assert!(matches!(e.entry_type, FsEntryType::Symlink));
    assert_eq!(e.modified, "");
}

#[test]
fn ls_lines_are_read() {
    let e = parse_ls_line("drwxr-xr-x 2 root wheel 4096 2026-01-01 10:00:00.0 +0000 my dir").unwrap();
    assert_eq!(e.name, "my dir");
    assert!(matches!(e.entry_type, FsEntryType::Directory));
    assert_eq!((e.owner.as_str(), e.group.as_str(), e.size), ("root", "wheel", 4096));
    assert_eq!(e.modified, "2026-01-01 10:00:00.0");
    assert_eq!(e.permissions, "drwxr-xr-x");
    assert!(parse_ls_line("drwxr-xr-x 2 r w 1 d t z .").is_none());
    assert!(parse_ls_line("drwxr-xr-x 2 r w 1 d t z ..").is_none());
    assert!(parse_ls_line("short line").is_none());
    let l = parse_ls_line("lrwxrwxrwx 1 r w x d t z a -> b").unwrap();
    assert!(matches!(l.entry_type, FsEntryType::Symlink));
    assert_eq!((l.size, l.name.as_str()), (0, "a -> b"));
    let all = parse_ls("total 8\n-rw-r--r-- 1 r w 3 d t z f\ndrwxr-xr-x 2 r w 1 d t z .\n");
    assert_eq!(all.len(), 1);
    assert_eq!(all[0].name, "f");
    assert!(parse_ls("").is_empty());
}

#[test]
fn padded_ls_lines_are_read() {
    let line = "-rw-r--r--  1 root root 5 2026-01-01 00:00:00.000000000 +0000 a.txt";
    let e = parse_ls_line(line).unwrap();
    assert_eq!(e.name, "a.txt");
    assert!(matches!(e.entry_type, FsEntryType::File));
    assert_eq!((e.size, e.permissions.as_str()), (5, "-rw-r--r--"));
    assert_eq!(e.modified, "2026-01-01 00:00:00.000000000");
    assert_eq!((e.owner.as_str(), e.group.as_str()), ("root", "root"));
    let all = parse_ls(
        "total 12\n\
         drwxr-xr-x  12 ann  staff   4096 d t z .\n\
         drwxr-xr-x   2 root wheel     64 d t z sub dir\n\
         -rw-r--r--   1 ann  staff 123456 d t z  two  spaces \n",
    );
    let names: Vec<&str> = all.iter().map(|e| e.name.as_str()).collect();
    assert_eq!(names, vec!["sub dir", " two  spaces "]);
    assert_eq!((all[0].size, all[0].group.as_str()), (64, "wheel"));
    assert_eq!((all[1].size, all[1].owner.as_str()), (123456, "ann"));
    assert!(parse_ls_line("-rw-r--r--  1 root root 5 d t z").is_none());
    assert_eq!(parse_ls_line("- 1 r w 5 d t z ").unwrap().name, "");
}

#[test]
fn paths_outside_the_allowed_directories_are_refused() {
    let security = below(vec!["/srv/data/", "/etc"]);
    for path in ["/srv/data", "/srv/data/", "/srv/data/a/b", "/etc", "/etc/hosts"] {
        assert!(security.allows_path(path), "{path}");
    }
    for path in ["/srv", "/srv/database", "/etcetera", "/srv/data/../x", "srv/data", "", "/"] {
        assert!(!security.allows_path(path), "{path}");
    }
    assert!(below(vec!["/"]).allows_path("/any/where"));
    assert!(!below(vec![""]).allows_path("/any/where"));
    assert!(unrestricted().allows_path("/srv/data/../x"));

    let no = failed("Path not allowed: /root/x");
    let path = || s("/root/x");
    let r = handle_fs_list(id(), Ok(FsListRequest { path: path(), sudo: None }), &security);
    assert_eq!(error_of(&r.err().unwrap()), no);
    let request = FsReadRequest { path: path(), encoding: None, sudo: Some(true) };
    assert_eq!(error_of(&handle_fs_read(id(), Ok(request), &security).err().unwrap()), no);
    let request = FsWriteRequest {
        path: path(),
        content: s("x"),
        encoding: None,
        mode: None,
        sudo: None,
    };
    assert_eq!(error_of(&handle_fs_write(id(), Ok(request), &security).err().unwrap()), no);
    let request = FsStatRequest { path: path(), sudo: None };
    assert_eq!(error_of(&handle_fs_stat(id(), Ok(request), &security).err().unwrap()), no);
    let request = FsMkdirRequest { path: path(), recursive: None, sudo: None };
    assert_eq!(error_of(&handle_fs_mkdir(id(), Ok(request), &security).err().unwrap()), no);
    let request = FsDeleteRequest { path: path(), recursive: None, sudo: None };
    assert_eq!(error_of(&handle_fs_delete(id(), Ok(request), &security).err().unwrap()), no);
    let request = FsRenameRequest { old_path: s("/etc/a"), new_path: path(), sudo: None };
    assert_eq!(error_of(&handle_fs_rename(id(), Ok(request), &security).err().unwrap()), no);
    let request = FsRenameRequest { old_path: path(), new_path: s("/etc/a"), sudo: None };
    assert_eq!(error_of(&handle_fs_rename(id(), Ok(request), &security).err().unwrap()), no);
    let request = FsSearchRequest { path: path(), pattern: s("*"), max_depth: None };
    assert_eq!(error_of(&handle_fs_search(id(), Ok(request), &security).err().unwrap()), no);
    let mut request = start(false);
    request.path = path();
    assert_eq!(error_of(&handle_fs_upload_start(id(), Ok(request), &security).err().unwrap()), no);
    let request = FsDownloadRequest { transfer_id: s("t"), path: path(), sudo: None };
    assert_eq!(error_of(&handle_fs_download(id(), Ok(request), &security).err().unwrap()), no);
    let r = handle_fs_list(id(), Ok(FsListRequest { path: s("/etc"), sudo: None }), &security);
    assert!(r.is_ok());
}

#[test]
fn the_size_limit_is_that_of_the_settings() {
    let mut security = unrestricted();
    assert_eq!(security.max_file_bytes(), LIMIT);
    security.max_file_size_mb = u64::MAX;
    assert_eq!(security.max_file_bytes(), u64::MAX);
    security.max_file_size_mb = 1;
    assert_eq!(security.max_file_bytes(), 1_048_576);
    let ask = || {
        let request = FsReadRequest { path: s("/f"), encoding: None, sudo: None };
        let FsReadPlan::Direct(plan) = handle_fs_read(id(), Ok(request), &security).ok().unwrap()
        else {
            panic!("sudo")
        };
        plan
    };
    assert!(ask().on_size(Ok(1_048_576)).is_ok());
    assert_eq!(
        error_of(&ask().on_size(Ok(1_048_577)).err().unwrap()),
        failed("File too large: 1048577 bytes (max 1048576)")
    );
    let big = "a".repeat(1_048_577);
    assert_eq!(
        error_of(&handle_fs_write(id(), Ok(write(&big, None, false, None)), &security).err().unwrap()),
        failed("Data too large: 1048577 bytes (max 1048576)")
    );
    assert!(handle_fs_write(id(), Ok(write(&big[1..], None, false, None)), &security).is_ok());
}

#[test]
fn stat_output_is_read() {
    let e = parse_stat(s("f"), "regular file|12|644|ann|staff|1577837400\n").unwrap();
    assert!(matches!(e.entry_type, FsEntryType::File));
    assert_eq!((e.size, e.permissions.as_str(), e.modified.as_str()), (12, "644", "1577837400"));
    assert_eq!((e.owner.as_str(), e.group.as_str()), ("ann", "staff"));
    let d = parse_stat(s("d"), "directory|1|755|a|b|0").unwrap();
    assert!(matches!(d.entry_type, FsEntryType::Directory));
    let l = parse_stat(s("l"), "symbolic link|1|777|a|b|0").unwrap();
    assert!(matches!(l.entry_type, FsEntryType::Symlink));
    assert!(parse_stat(s("x"), "a|b|c|d|e").is_none());
}

fn entry(name: &str, dir: bool) -> FsEntry {
    metadata_to_entry(name, meta(dir, false, 0o644))
}

#[test]
fn listings_have_directories_first_then_names() {
    let list = vec![
        entry("b", false),
        entry("Zed", true),
        entry("A", false),
        entry("a", false),
        entry("alpha", true),
    ];
    let names: Vec<String> = sort_entries(&list).into_iter().map(|e| e.name).collect();
    assert_eq!(names, vec!["alpha", "Zed", "A", "a", "b"]);
}

#[test]
fn list_directly() {
    let ask = || handle_fs_list(id(), Ok(FsListRequest { path: s("/x"), sudo: None }), &unrestricted());
    let FsListPlan::Direct(plan) = ask().ok().unwrap() else { panic!("sudo") };
    assert_eq!(plan.path, "/x");
    let found = vec![
        FoundFile { name: s("z"), meta: Some(meta(false, false, 0)) },
        FoundFile { name: s("gone"), meta: None },
        FoundFile { name: s("d"), meta: Some(meta(true, false, 0)) },
    ];
    let r = plan.on_entries(Ok(found)).result.unwrap();
    let names: Vec<&str> = r.entries.iter().map(|e| e.name.as_str()).collect();
    assert_eq!(names, vec!["d", "z"]);
    let FsListPlan::Direct(plan) = ask().ok().unwrap() else { panic!("sudo") };
    assert_eq!(
        error_of(&plan.on_entries(Err(s("no")))),
        failed("Cannot read directory '/x': no")
    );
    assert_eq!(error_of(&handle_fs_list(id(), Err(s("p")), &unrestricted()).err().unwrap()), refused("p"));
}

#[test]
fn list_as_root() {
    let ask = || {
        let r = handle_fs_list(id(), Ok(FsListRequest { path: s("/x"), sudo: Some(true) }), &unrestricted());
        let FsListPlan::Sudo(plan) = r.ok().unwrap() else { panic!("direct") };
        plan
    };
    assert_eq!(ask().command.program, "sudo");
    assert_eq!(ask().command.args, vec!["ls", "-la", "--time-style=full-iso", "/x"]);
    let r = ask().on_output(Ok(output(true, b"total 0\n-rw- 1 r w 3 d t z f\n", b"")));
    assert_eq!(r.result.unwrap().entries[0].name, "f");
    let padded = b"total 4\n-rw-r--r--  1 root root 5 2026-01-01 00:00:00.000000000 +0000 a.txt\n";
    let entries = ask().on_output(Ok(output(true, padded, b""))).result.unwrap().entries;
    assert_eq!((entries.len(), entries[0].name.as_str()), (1, "a.txt"));
    assert_eq!((entries[0].size, entries[0].owner.as_str()), (5, "root"));
    assert_eq!(error_of(&ask().on_output(Ok(output(false, b"", b"den")))), failed("ls failed: den"));
    assert_eq!(error_of(&ask().on_output(Err(s("e")))), failed("exec failed: e"));
}

fn read_direct(encoding: Option<FsEncoding>) -> nobase::handlers::fs::FsReadDirect {
    let r = handle_fs_read(id(), Ok(FsReadRequest { path: s("/f"), encoding, sudo: None }), &unrestricted());
    let FsReadPlan::Direct(plan) = r.ok().unwrap() else { panic!("sudo") };
    plan
}

#[test]
fn read_directly() {
    let r = read_direct(None).on_size(Ok(2)).ok().unwrap().on_data(Ok(b"hi".to_vec()));
    let r = r.result.unwrap();
    assert_eq!((r.content.as_str(), r.size), ("hi", 2));
    assert!(matches!(r.encoding, FsEncoding::Utf8));
    let r = read_direct(None).on_size(Ok(1)).ok().unwrap().on_data(Ok(vec![255]));
    let r = r.result.unwrap();
    assert_eq!(r.content, "/w==");
    assert!(matches!(r.encoding, FsEncoding::Base64));
    let r = read_direct(Some(FsEncoding::Base64)).on_size(Ok(2)).ok().unwrap().on_data(Ok(b"hi".to_vec()));
    assert_eq!(r.result.unwrap().content, "aGk=");
    assert!(read_direct(None).on_size(Ok(LIMIT)).is_ok());
    assert_eq!(
        error_of(&read_direct(None).on_size(Ok(LIMIT + 1)).err().unwrap()),
        failed("File too large: 104857601 bytes (max 104857600)")
    );
    assert_eq!(
        error_of(&read_direct(None).on_size(Err(s("no"))).err().unwrap()),
        failed("Cannot stat '/f': no")
    );
    assert_eq!(
        error_of(&read_direct(None).on_size(Ok(1)).ok().unwrap().on_data(Err(s("no")))),
        failed("Cannot read '/f': no")
    );
    assert_eq!(error_of(&handle_fs_read(id(), Err(s("p")), &unrestricted()).err().unwrap()), refused("p"));
}

#[test]
fn read_as_root() {
    let ask = || {
        let request = FsReadRequest { path: s("/f"), encoding: None, sudo: Some(true) };
        let FsReadPlan::Sudo(plan) = handle_fs_read(id(), Ok(request), &unrestricted()).ok().unwrap() else {
            panic!("direct")
        };
        plan
    };
    assert_eq!(ask().command.args, vec!["cat", "/f"]);
    let r = ask().on_output(Ok(output(true, b"abc", b""))).result.unwrap();
    assert_eq!((r.content.as_str(), r.size), ("abc", 3));
    assert_eq!(
        error_of(&ask().on_output(Ok(output(false, b"", b"x")))),
        failed("sudo cat failed: x")
    );
    assert_eq!(error_of(&ask().on_output(Err(s("e")))), failed("exec failed: e"));
}

#[test]
fn what_is_read_stands_for_the_bytes() {
    for bytes in [b"plain".to_vec(), vec![0, 255, 128], vec![], "é→".as_bytes().to_vec()] {
        for encoding in [FsEncoding::Utf8, FsEncoding::Base64] {
            let (text, used) = encode_content(bytes.clone(), encoding);
            assert_eq!(decode_content(&text, used).unwrap(), bytes);
        }
    }
}

fn write(content: &str, encoding: Option<FsEncoding>, sudo: bool, mode: Option<&str>) -> FsWriteRequest {
    FsWriteRequest {
        path: s("/f"),
        content: s(content),
        encoding,
        sudo: Some(sudo),
        mode: mode.map(s),
    }
}

#[test]
fn write_directly() {
    let ask = |mode| handle_fs_write(id(), Ok(write("aGk=", Some(FsEncoding::Base64), false, mode)), &unrestricted()).ok().unwrap();
    assert_eq!(ask(None).data, b"hi");
    assert!(ask(None).command.is_none());
    let (response, mode) = ask(Some("0600")).on_written(Ok(()));
    let r = response.result.unwrap();
    assert!(r.ok);
    assert_eq!((r.size, mode), (2, Some(0o600)));
    assert_eq!(ask(Some("rw")).on_written(Ok(())).1, None);
    assert_eq!(ask(None).on_written(Ok(())).1, None);
    let (response, mode) = ask(Some("0600")).on_written(Err(s("ro")));
    assert_eq!(error_of(&response), failed("Cannot write '/f': ro"));
    assert_eq!(mode, None);
    let plan = handle_fs_write(id(), Ok(write("é", None, false, None)), &unrestricted()).ok().unwrap();
    assert_eq!(plan.data, "é".as_bytes());
}

#[test]
fn write_errors() {
    let bad = handle_fs_write(id(), Ok(write("%", Some(FsEncoding::Base64), false, None)), &unrestricted()).err().unwrap();
    let (code, message) = error_of(&bad);
    assert_eq!(code, -32602);
    assert!(message.starts_with("Invalid base64: "), "{message}");
    let big = "a".repeat(LIMIT as usize + 1);
    let response = handle_fs_write(id(), Ok(write(&big, None, false, None)), &unrestricted()).err().unwrap();
    assert_eq!(error_of(&response), failed("Data too large: 104857601 bytes (max 104857600)"));
    assert_eq!(error_of(&handle_fs_write(id(), Err(s("p")), &unrestricted()).err().unwrap()), refused("p"));
}

#[test]
fn write_as_root() {
    let ask = |mode| handle_fs_write(id(), Ok(write("hi", None, true, mode)), &unrestricted()).ok().unwrap();
    assert_eq!(ask(None).command.unwrap().args, vec!["tee", "/f"]);
    let exited = |success, code| TeeOutcome::Exited(ExitReport { success, code });
    let (response, chmod) = ask(Some("u+x")).on_tee(exited(true, Some(0)));
    assert_eq!(response.result.unwrap().size, 2);
    assert_eq!(chmod.unwrap().args, vec!["chmod", "u+x", "/f"]);
    let (response, chmod) = ask(None).on_tee(TeeOutcome::Unknown);
    assert!(response.result.unwrap().ok);
    assert!(chmod.is_none());
    let e = |outcome| error_of(&ask(Some("1")).on_tee(outcome).0);
    assert_eq!(e(TeeOutcome::SpawnFailed(s("x"))), failed("Failed to spawn sudo tee: x"));
    assert_eq!(e(TeeOutcome::WriteFailed(s("x"))), failed("Write failed: x"));
    assert_eq!(e(exited(false, Some(1))), failed("sudo tee exited with code 1"));
    assert_eq!(e(exited(false, None)), failed("sudo tee exited with code -1"));
}

#[test]
fn stat_directly() {
    let ask = |path: &str| {
        let r = handle_fs_stat(id(), Ok(FsStatRequest { path: s(path), sudo: None }), &unrestricted());
        let FsStatPlan::Direct(plan) = r.ok().unwrap() else { panic!("sudo") };
        plan
    };
    let r = ask("/a/b.txt").on_metadata(Ok(meta(false, false, 0o644))).result.unwrap();
    assert!(r.exists);
    assert_eq!(r.entry.name, "b.txt");
    let r = ask("/").on_metadata(Ok(meta(true, false, 0o755))).result.unwrap();
    assert_eq!(r.entry.name, "");
    let r = ask("/a").on_metadata(Err(StatFailure::NotFound)).result.unwrap();
    assert!(!r.exists);
    assert_eq!((r.entry.name.as_str(), r.entry.size), ("", 0));
    assert_eq!(
        error_of(&ask("/a").on_metadata(Err(StatFailure::Other(s("io"))))),
        failed("Cannot stat '/a': io")
    );
    assert_eq!(error_of(&handle_fs_stat(id(), Err(s("p")), &unrestricted()).err().unwrap()), refused("p"));
}

#[test]
fn stat_as_root() {
    let ask = || {
        let r = handle_fs_stat(id(), Ok(FsStatRequest { path: s("/a/b"), sudo: Some(true) }), &unrestricted());
        let FsStatPlan::Sudo(plan) = r.ok().unwrap() else { panic!("direct") };
        plan
    };
    assert_eq!(ask().command.args, vec!["stat", "--format=%F|%s|%a|%U|%G|%Y", "/a/b"]);
    let r = ask().on_output(Ok(output(true, b"directory|1|755|r|g|5\n", b""))).result.unwrap();
    assert_eq!((r.exists, r.entry.name.as_str()), (true, "b"));
    assert!(!ask().on_output(Ok(output(false, b"", b"x"))).result.unwrap().exists);
    assert_eq!(
        error_of(&ask().on_output(Ok(output(true, b"?", b"")))),
        failed("Failed to parse stat output")
    );
    assert_eq!(error_of(&ask().on_output(Err(s("e")))), failed("exec failed: e"));
}

#[test]
fn directories_are_made() {
    let ask = |recursive, sudo| {
        handle_fs_mkdir(id(), Ok(FsMkdirRequest { path: s("/d"), recursive, sudo }), &unrestricted()).ok().unwrap()
    };
    let FsMkdirPlan::Direct(plan) = ask(Some(true), None) else { panic!("sudo") };
    assert!(plan.recursive);
    assert!(plan.finish(Ok(())).result.unwrap().ok);
    let FsMkdirPlan::Direct(plan) = ask(None, None) else { panic!("sudo") };
    assert_eq!(error_of(&plan.finish(Err(s("x")))), failed("Cannot create '/d': x"));
    let FsMkdirPlan::Sudo(plan) = ask(Some(true), Some(true)) else { panic!("direct") };
    assert_eq!(plan.command.args, vec!["mkdir", "-p", "/d"]);
    assert!(plan.finish(Ok(ExitReport { success: true, code: Some(0) })).result.unwrap().ok);
    let FsMkdirPlan::Sudo(plan) = ask(None, Some(true)) else { panic!("direct") };
    assert_eq!(plan.command.args, vec!["mkdir", "/d"]);
    assert_eq!(
        error_of(&plan.finish(Ok(ExitReport { success: false, code: Some(2) }))),
        failed("mkdir failed (exit 2)")
    );
    assert_eq!(error_of(&handle_fs_mkdir(id(), Err(s("p")), &unrestricted()).err().unwrap()), refused("p"));
}

#[test]
fn files_are_deleted() {
    let ask = |recursive, sudo| {
        handle_fs_delete(id(), Ok(FsDeleteRequest { path: s("/d"), recursive, sudo }), &unrestricted()).ok().unwrap()
    };
    let FsDeletePlan::Direct(plan) = ask(Some(true), None) else { panic!("sudo") };
    assert!(matches!(plan.removal(true), Removal::Tree));
    assert!(matches!(plan.removal(false), Removal::File));
    assert!(plan.finish(Ok(())).result.unwrap().ok);
    let FsDeletePlan::Direct(plan) = ask(None, None) else { panic!("sudo") };
    assert!(matches!(plan.removal(true), Removal::EmptyDirectory));
    assert_eq!(error_of(&plan.finish(Err(s("x")))), failed("Cannot delete '/d': x"));
    let FsDeletePlan::Sudo(plan) = ask(Some(true), Some(true)) else { panic!("direct") };
    assert_eq!(plan.command.args, vec!["rm", "-rf", "/d"]);
    assert_eq!(error_of(&plan.finish(Err(s("x")))), failed("exec failed: x"));
    let FsDeletePlan::Sudo(plan) = ask(None, Some(true)) else { panic!("direct") };
    assert_eq!(plan.command.args, vec!["rm", "-f", "/d"]);
    assert_eq!(
        error_of(&plan.finish(Ok(ExitReport { success: false, code: None }))),
        failed("rm failed (exit -1)")
    );
    assert_eq!(error_of(&handle_fs_delete(id(), Err(s("p")), &unrestricted()).err().unwrap()), refused("p"));
}

#[test]
fn files_are_renamed() {
    let ask = |sudo| {
        let request = FsRenameRequest { old_path: s("/a"), new_path: s("/b"), sudo };
        handle_fs_rename(id(), Ok(request), &unrestricted()).ok().unwrap()
    };
    let FsRenamePlan::Direct(plan) = ask(None) else { panic!("sudo") };
    assert_eq!(error_of(&plan.finish(Err(s("x")))), failed("Cannot rename '/a' → '/b': x"));
    let FsRenamePlan::Direct(plan) = ask(None) else { panic!("sudo") };
    assert!(plan.finish(Ok(())).result.unwrap().ok);
    let FsRenamePlan::Sudo(plan) = ask(Some(true)) else { panic!("direct") };
    assert_eq!(plan.command.args, vec!["mv", "/a", "/b"]);
    assert_eq!(
        error_of(&plan.finish(Ok(ExitReport { success: false, code: Some(1) }))),
        failed("mv failed (exit 1)")
    );
    assert_eq!(error_of(&handle_fs_rename(id(), Err(s("p")), &unrestricted()).err().unwrap()), refused("p"));
}

#[test]
fn files_are_searched() {
    let ask = |max_depth| {
        let request = FsSearchRequest { path: s("/d"), pattern: s("*.rs"), max_depth };
        handle_fs_search(id(), Ok(request), &unrestricted()).ok().unwrap()
    };
    assert_eq!(ask(None).command.program, "find");
    assert_eq!(ask(None).command.args, vec!["/d", "-name", "*.rs"]);
    assert_eq!(ask(Some(3)).command.args, vec!["/d", "-maxdepth", "3", "-name", "*.rs"]);
    let r = ask(None).on_output(Ok(output(true, b"/d/a\n\n/d/b\n", b""))).result.unwrap();
    assert_eq!(r.matches, vec!["/d/a", "/d/b"]);
    assert!(ask(None).on_output(Ok(output(true, b"", b""))).result.unwrap().matches.is_empty());
    let r = ask(None).on_output(Ok(output(false, b"/d/a\n", b"denied"))).result.unwrap();
    assert_eq!(r.matches, vec!["/d/a"]);
    assert_eq!(
        error_of(&ask(None).on_output(Ok(output(false, b"\n", b"denied")))),
        failed("find failed: denied")
    );
    assert_eq!(error_of(&ask(None).on_output(Err(s("e")))), failed("exec failed: e"));
    assert_eq!(error_of(&handle_fs_search(id(), Err(s("p")), &unrestricted()).err().unwrap()), refused("p"));
}

// ---------------------------------------------------------------------------
// Transfers
// ---------------------------------------------------------------------------

fn start(sudo: bool) -> FsUploadStartRequest {
    FsUploadStartRequest { transfer_id: s("t"), path: s("/up/f"), total_size: 6, sudo: Some(sudo) }
}

fn uploading(sudo: bool) -> Registry<UploadTransfer<u8>> {
    let mut uploads = Registry::new();
    let plan = handle_fs_upload_start(id(), Ok(start(sudo)), &unrestricted()).ok().unwrap();
    let plan = plan.on_parent(Ok(())).ok().unwrap();
    let r = plan.on_file(Ok(9u8), &mut uploads).result.unwrap();
    assert_eq!((r.ok, r.transfer_id.as_str()), (true, "t"));
    uploads
}

fn chunk(uploads: &mut Registry<UploadTransfer<u8>>, offset: u64, data: &[u8]) -> (u64, u64) {
    let request = FsUploadChunkRequest { transfer_id: s("t"), offset, data: base64_of(data) };
    let plan = handle_fs_upload_chunk(id(), Ok(request), uploads).ok().unwrap();
    assert_eq!((plan.offset, plan.data.as_slice()), (offset, data));
    let r = plan.on_outcome(ChunkOutcome::Written, uploads).result.unwrap();
    assert!(r.ok);
    (r.received, r.total)
}

fn end(checksum: &str) -> Result<FsUploadEndRequest, String> {
    Ok(FsUploadEndRequest { transfer_id: s("t"), checksum_sha256: s(checksum) })
}

#[test]
fn uploads_start() {
    let plan = handle_fs_upload_start(id(), Ok(start(false)), &unrestricted()).ok().unwrap();
    assert_eq!(plan.write_path, "/up/f");
    assert_eq!(plan.parent, Some(s("/up")));
    assert_eq!(
        error_of(&plan.on_parent(Err(s("ro"))).err().unwrap()),
        failed("Cannot create parent directory: ro")
    );
    let plan = handle_fs_upload_start(id(), Ok(start(true)), &unrestricted()).ok().unwrap();
    assert_eq!(plan.write_path, "/tmp/.qd-upload-t");
    assert_eq!(plan.parent, Some(s("/tmp")));
    let mut uploads: Registry<UploadTransfer<u8>> = Registry::new();
    assert_eq!(
        error_of(&plan.on_file(Err(s("no")), &mut uploads)),
        failed("Cannot create file /tmp/.qd-upload-t: no")
    );
    assert!(!uploads.contains("t"));
    assert_eq!(error_of(&handle_fs_upload_start(id(), Err(s("p")), &unrestricted()).err().unwrap()), refused("p"));
}

#[test]
fn an_upload_with_the_right_checksum_is_accepted() {
    let mut uploads = uploading(false);
    assert_eq!(chunk(&mut uploads, 0, b"abc"), (3, 6));
    assert_eq!(chunk(&mut uploads, 3, b"def"), (6, 6));
    let checksum = sha256_of(&b"abcdef".to_vec());
    let (plan, file) = handle_fs_upload_end(id(), end(&checksum), &mut uploads).ok().unwrap();
    assert_eq!(file, 9);
    assert!(!uploads.contains("t"));
    let UploadVerdict::Answer(response) = plan.on_synced(SyncOutcome::Synced) else {
        panic!("not answered")
    };
    let r = response.result.unwrap();
    assert_eq!((r.ok, r.path.as_str(), r.size), (true, "/up/f", 6));
    assert_eq!(r.checksum, checksum);
}

#[test]
fn an_upload_with_a_wrong_checksum_is_discarded() {
    for (sudo, path) in [(false, "/up/f"), (true, "/tmp/.qd-upload-t")] {
        let mut uploads = uploading(sudo);
        chunk(&mut uploads, 3, b"def");
        chunk(&mut uploads, 0, b"abc");
        let expected = sha256_of(&b"abcdef".to_vec());
        let actual = sha256_of(&b"defabc".to_vec());
        let (plan, _) = handle_fs_upload_end(id(), end(&expected), &mut uploads).ok().unwrap();
        let UploadVerdict::Discard { path: discarded, response } =
            plan.on_synced(SyncOutcome::Synced)
        else {
            panic!("not discarded")
        };
        assert_eq!(discarded, path);
        assert_eq!(
            error_of(&response),
            failed(&format!("Checksum mismatch: expected {expected}, got {actual}"))
        );
    }
}

#[test]
fn an_upload_as_root_is_moved() {
    let finished = || {
        let mut uploads = uploading(true);
        chunk(&mut uploads, 0, b"abcdef");
        let checksum = sha256_of(&b"abcdef".to_vec());
        let (plan, _) = handle_fs_upload_end(id(), end(&checksum), &mut uploads).ok().unwrap();
        let UploadVerdict::Move(plan) = plan.on_synced(SyncOutcome::Synced) else {
            panic!("not moved")
        };
        plan
    };
    assert_eq!(finished().command.args, vec!["-n", "mv", "/tmp/.qd-upload-t", "/up/f"]);
    let (response, left) = finished().on_output(Ok(output(true, b"", b"")));
    assert_eq!(response.result.unwrap().size, 6);
    assert!(left.is_none());
    let (response, left) = finished().on_output(Ok(output(false, b"", b"no")));
    assert_eq!(error_of(&response), failed("sudo mv failed: no"));
    assert_eq!(left.unwrap(), "/tmp/.qd-upload-t");
    let (response, left) = finished().on_output(Err(s("e")));
    assert_eq!(error_of(&response), failed("Failed to run sudo mv: e"));
    assert!(left.is_some());
}

#[test]
fn upload_errors() {
    let mut uploads = uploading(false);
    let ask = |transfer: &str, data: &str| FsUploadChunkRequest {
        transfer_id: s(transfer),
        offset: 0,
        data: s(data),
    };
    let (code, message) =
        error_of(&handle_fs_upload_chunk(id(), Ok(ask("x", "%")), &uploads).err().unwrap());
    assert_eq!(code, -32602);
    assert!(message.starts_with("Invalid base64 data: "), "{message}");
    let lost = handle_fs_upload_chunk(id(), Ok(ask("x", "")), &uploads).err().unwrap();
    assert_eq!(error_of(&lost), failed("No active upload for transfer_id: x"));
    assert_eq!(
        error_of(&handle_fs_upload_chunk(id(), Err(s("p")), &uploads).err().unwrap()),
        refused("p")
    );
    let plan = handle_fs_upload_chunk(id(), Ok(ask("t", "")), &uploads).ok().unwrap();
    let response = plan.on_outcome(ChunkOutcome::SeekFailed(s("x")), &mut uploads);
    assert_eq!(error_of(&response), failed("Seek error: x"));
    let plan = handle_fs_upload_chunk(id(), Ok(ask("t", "aGk=")), &uploads).ok().unwrap();
    let response = plan.on_outcome(ChunkOutcome::WriteFailed(s("x")), &mut uploads);
    assert_eq!(error_of(&response), failed("Write error: x"));
    assert_eq!(uploads.get("t").unwrap().received, 0);
    let plan = handle_fs_upload_chunk(id(), Ok(ask("t", "")), &uploads).ok().unwrap();
    let (_, _) = handle_fs_upload_end(id(), end("x"), &mut uploads).ok().unwrap();
    let response = plan.on_outcome(ChunkOutcome::Written, &mut uploads);
    assert_eq!(error_of(&response), failed("No active upload for transfer_id: t"));
    let lost = handle_fs_upload_end(id(), end("x"), &mut uploads).err().unwrap();
    assert_eq!(error_of(&lost), failed("No active upload for transfer_id: t"));
    assert_eq!(
        error_of(&handle_fs_upload_end(id(), Err(s("p")), &mut uploads).err().unwrap()),
        refused("p")
    );
    for (outcome, message) in [
        (SyncOutcome::FlushFailed(s("x")), "Flush error: x"),
        (SyncOutcome::SyncFailed(s("x")), "Sync error: x"),
    ] {
        let mut uploads = uploading(false);
        let (plan, _) = handle_fs_upload_end(id(), end("x"), &mut uploads).ok().unwrap();
        let UploadVerdict::Answer(response) = plan.on_synced(outcome) else { panic!("no answer") };
        assert_eq!(error_of(&response), failed(message));
    }
}

#[test]
fn downloads_stream_the_file() {
    let ask = |sudo| {
        let request = FsDownloadRequest { transfer_id: s("t"), path: s("/f"), sudo };
        handle_fs_download(id(), Ok(request), &unrestricted()).ok().unwrap()
    };
    assert!(ask(None).stat.is_none());
    let (response, stream) = ask(None).on_size(Ok(5));
    let r = response.result.unwrap();
    assert_eq!((r.streaming, r.transfer_id.as_str(), r.size), (true, "t", 5));
    let stream = stream.unwrap();
    assert!(stream.cat.is_none());
    let note = stream.on_read(&b"hello".to_vec()).unwrap();
    assert_eq!((note.method.as_str(), note.params.data.as_str()), ("stream.data", "aGVsbG8="));
    assert!(stream.on_read(&vec![]).is_none());
    assert_eq!(stream.on_end(true).params.exit_code, 0);
    assert_eq!(stream.on_end(false).params.exit_code, -1);
    assert!(stream.on_exit(Ok(ExitReport { success: true, code: Some(0) })).is_ok());
    let ended = stream.on_exit(Ok(ExitReport { success: false, code: None }));
    assert_eq!(ended.err().unwrap(), "sudo cat exited with code -1");
    assert_eq!(stream.on_exit(Err(s("w"))).err().unwrap(), "w");
    let (response, none) = ask(None).on_size(Err(s("x")));
    assert_eq!(error_of(&response), failed("File not found: x"));
    assert!(none.is_none());
    assert_eq!(ask(Some(true)).stat.unwrap().args, vec!["-n", "stat", "--format=%s", "/f"]);
    let (response, stream) = ask(Some(true)).on_stat(Ok(output(true, b"42\n", b"")));
    assert_eq!(response.result.unwrap().size, 42);
    assert_eq!(stream.unwrap().cat.unwrap().args, vec!["-n", "cat", "/f"]);
    let (response, _) = ask(Some(true)).on_stat(Ok(output(false, b"", b"no")));
    assert_eq!(error_of(&response), failed("stat failed: no"));
    let (response, _) = ask(Some(true)).on_stat(Err(s("e")));
    assert_eq!(error_of(&response), failed("Failed to stat file: e"));
    assert_eq!(error_of(&handle_fs_download(id(), Err(s("p")), &unrestricted()).err().unwrap()), refused("p"));
}
