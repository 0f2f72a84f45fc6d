use syncer::changes::{ChangeList, FsEntity};
use syncer::error::SyncError;
use syncer::transfer::{
    check_tool_run, read_extracted_diff, rsync_apply_diff, rsync_extract_diff, RsyncDirection,
    SshPath,
};

fn remote(port: u16, path: &str) -> SshPath {
    SshPath {
        server: "10.211.55.6".to_string(),
        username: "roman".to_string(),
        port,
        path: path.to_string(),
    }
}

fn strings(list: &[&str]) -> Vec<String> {
    list.iter().map(|a| a.to_string()).collect()
}

#[test]
fn header_selects_the_secure_shell_and_its_port() {
    assert_eq!(remote(22, "/srv").to_args_header(), strings(&["-e", "'ssh -p 22'"]));
}

#[test]
fn header_writes_the_port_in_decimal() {
    assert_eq!(remote(0, "/srv").to_args_header()[1], "'ssh -p 0'");
    assert_eq!(remote(9, "/srv").to_args_header()[1], "'ssh -p 9'");
    assert_eq!(remote(10, "/srv").to_args_header()[1], "'ssh -p 10'");
    assert_eq!(remote(2222, "/srv").to_args_header()[1], "'ssh -p 2222'");
    assert_eq!(remote(40100, "/srv").to_args_header()[1], "'ssh -p 40100'");
    assert_eq!(remote(65535, "/srv").to_args_header()[1], "'ssh -p 65535'");
}

#[test]
fn remote_path_is_user_at_host_colon_path() {
    assert_eq!(remote(22, "/srv/data").to_args_path(false), "roman@10.211.55.6:/srv/data");
    assert_eq!(remote(22, "/srv/data").to_args_path(true), "roman@10.211.55.6:/srv/data/");
    assert_eq!(remote(22, "/srv/data/").to_args_path(true), "roman@10.211.55.6:/srv/data/");
    assert_eq!(remote(22, "/srv/data/").to_args_path(false), "roman@10.211.55.6:/srv/data/");
}

#[test]
fn local_to_local_arguments() {
    let direction =
        RsyncDirection::LocalToLocal { from: "/work".to_string(), to: "/archive/Apr13".to_string() };
    assert_eq!(direction.to_args(), strings(&["/work/", "/archive/Apr13"]));
}

#[test]
fn local_to_remote_arguments() {
    let direction =
        RsyncDirection::LocalToRemote { from: "/work/".to_string(), to: remote(2222, "/srv/a") };
    assert_eq!(
        direction.to_args(),
        strings(&["-e", "'ssh -p 2222'", "/work/", "roman@10.211.55.6:/srv/a"])
    );
}

#[test]
fn remote_to_local_arguments() {
    let direction =
        RsyncDirection::RemoteToLocal { from: remote(22, "/srv/a"), to: "/work".to_string() };
    assert_eq!(
        direction.to_args(),
        strings(&["-e", "'ssh -p 22'", "roman@10.211.55.6:/srv/a/", "/work"])
    );
}

#[test]
fn source_always_ends_in_a_separator() {
    let directions = vec![
        RsyncDirection::LocalToLocal { from: "w".to_string(), to: "a".to_string() },
        RsyncDirection::LocalToLocal { from: "w/".to_string(), to: "a/".to_string() },
        RsyncDirection::LocalToRemote { from: "/w".to_string(), to: remote(1, "x") },
        RsyncDirection::RemoteToLocal { from: remote(1, "x"), to: "/w".to_string() },
    ];
    for direction in directions {
        let args = direction.to_args();
        assert!(args[args.len() - 2].ends_with('/'));
    }
}

#[test]
fn extract_command_line() {
    let direction =
        RsyncDirection::LocalToLocal { from: "/work".to_string(), to: "/archive/Apr13".to_string() };
    let planned = rsync_extract_diff(direction, "/archive/Apr14.diff", "/etc/exclude.txt");
    assert_eq!(planned.program, "rsync");
    assert_eq!(
        planned.args,
        strings(&[
            "-avz",
            "--exclude-from",
            "/etc/exclude.txt",
            "--only-write-batch=/archive/Apr14.diff",
            "--delete",
            "--out-format='changed-file:%o;%n'",
            "/work/",
            "/archive/Apr13",
        ])
    );
}

#[test]
fn extract_command_line_with_a_remote_source() {
    let direction =
        RsyncDirection::RemoteToLocal { from: remote(22, "/srv"), to: "/work".to_string() };
    let planned = rsync_extract_diff(direction, "d", "e");
    assert_eq!(
        planned.args,
        strings(&[
            "-avz",
            "--exclude-from",
            "e",
            "--only-write-batch=d",
            "--delete",
            "--out-format='changed-file:%o;%n'",
            "-e",
            "'ssh -p 22'",
            "roman@10.211.55.6:/srv/",
            "/work",
        ])
    );
}

#[test]
fn apply_command_line() {
    let planned = rsync_apply_diff("/archive/Apr14", "/archive/Apr14.diff", "/etc/exclude.txt");
    assert_eq!(planned.program, "rsync");
    assert_eq!(
        planned.args,
        strings(&[
            "-avz",
            "--exclude-from",
            "/etc/exclude.txt",
            "--read-batch=/archive/Apr14.diff",
            "--delete",
            "--out-format='changed-file:%o;%n'",
            "/archive/Apr14",
        ])
    );
}

#[test]
fn tool_run_fails_on_exit_status() {
    assert_eq!(check_tool_run(false, ""), Err(SyncError::ToolFailed));
    assert_eq!(check_tool_run(false, "No batched update for x"), Err(SyncError::ToolFailed));
}

#[test]
fn tool_run_fails_on_the_sentinel() {
    assert_eq!(
        check_tool_run(true, "a\nNo batched update for \"x\"\nb\n"),
        Err(SyncError::BatchRejected)
    );
    assert_eq!(check_tool_run(true, "No batched update for"), Err(SyncError::BatchRejected));
}

#[test]
fn tool_run_is_fine_otherwise() {
    assert_eq!(check_tool_run(true, ""), Ok(()));
    assert_eq!(check_tool_run(true, "No batched update fo"), Ok(()));
    assert_eq!(check_tool_run(true, "no batched update for x"), Ok(()));
    assert_eq!(check_tool_run(true, "'changed-file:send;x'\n"), Ok(()));
}

#[test]
fn extracted_diff_is_the_record_of_the_output() {
    let read = read_extracted_diff(true, "'changed-file:send;x.txt'\n").unwrap().unwrap();
    assert_eq!(read.changed, vec![FsEntity::File("x.txt".to_string())]);
    assert!(read.deleted.is_empty());
    assert!(read.moved.is_empty());
}

#[test]
fn extracted_diff_without_changes_is_none() {
    assert!(read_extracted_diff(true, "sending incremental file list\n").unwrap().is_none());
}

#[test]
fn extracted_diff_of_a_failed_run_is_an_error() {
    let failed: Result<Option<ChangeList>, SyncError> =
        read_extracted_diff(false, "'changed-file:send;x.txt'\n");
    assert_eq!(failed.unwrap_err(), SyncError::ToolFailed);
    let rejected = read_extracted_diff(true, "'changed-file:send;x'\nNo batched update for x\n");
    assert_eq!(rejected.unwrap_err(), SyncError::BatchRejected);
}
