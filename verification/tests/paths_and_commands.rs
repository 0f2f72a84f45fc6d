use std::path::PathBuf;
use syncer::error::SyncError;
use syncer::util::{
    absolute_path, add_trailing_slash, concat_str_path, enclose_path_in, fs_copy, fs_move,
    has_trailing_slash, join_path, path_to_str, remove_trailing_slash, starts_at_root, Command,
    CpMvMode,
};

fn command(program: &str, args: &[&str]) -> Command {
    Command { program: program.to_string(), args: args.iter().map(|a| a.to_string()).collect() }
}

fn without_slash(p: &str) -> String {
    let mut p = p.to_string();
    remove_trailing_slash(&mut p);
    p
}

#[test]
fn has_trailing_slash_looks_at_the_last_character() {
    assert!(has_trailing_slash("a/"));
    assert!(has_trailing_slash("/"));
    assert!(!has_trailing_slash("a"));
    assert!(!has_trailing_slash("a/b"));
    assert!(!has_trailing_slash(""));
    assert!(!has_trailing_slash("a/\u{e9}"));
}

#[test]
fn add_trailing_slash_adds_one_where_none_is() {
    assert_eq!(add_trailing_slash("a/b".to_string()), "a/b/");
    assert_eq!(add_trailing_slash("a/b/".to_string()), "a/b/");
    assert_eq!(add_trailing_slash("/".to_string()), "/");
    assert_eq!(add_trailing_slash("b".to_string()), "b/");
}

#[test]
fn add_trailing_slash_leaves_the_empty_path_empty() {
    assert_eq!(add_trailing_slash(String::new()), "");
}

#[test]
fn remove_trailing_slash_takes_all_of_them() {
    assert_eq!(without_slash("a/b/"), "a/b");
    assert_eq!(without_slash("a/b///"), "a/b");
    assert_eq!(without_slash("a/b"), "a/b");
    assert_eq!(without_slash(""), "");
}

#[test]
fn remove_trailing_slash_keeps_the_root() {
    assert_eq!(without_slash("/"), "/");
    assert_eq!(without_slash("///"), "/");
}

#[test]
fn remove_then_add_gives_one_separator() {
    assert_eq!(add_trailing_slash(without_slash("/srv/data//")), "/srv/data/");
}

#[test]
fn join_path_puts_a_separator_between() {
    assert_eq!(join_path("/archive", "Apr13"), "/archive/Apr13");
    assert_eq!(join_path("/archive/", "Apr13"), "/archive/Apr13");
    assert_eq!(join_path("archive", "a/b"), "archive/a/b");
    assert_eq!(join_path("", "a"), "a");
    assert_eq!(join_path("a", ""), "a/");
}

#[test]
fn join_path_lets_an_absolute_name_stand() {
    assert_eq!(join_path("/archive", "/etc/passwd"), "/etc/passwd");
    assert!(starts_at_root("/etc"));
    assert!(!starts_at_root("etc/"));
    assert!(!starts_at_root(""));
}

#[test]
fn join_path_agrees_with_the_standard_library() {
    for (base, name) in [("/a", "b"), ("/a/", "b"), ("a", "/b"), ("", "b"), ("a", ""), ("/", "x/y")]
    {
        assert_eq!(PathBuf::from(join_path(base, name)), PathBuf::from(base).join(name));
        assert_eq!(
            join_path(base, name),
            PathBuf::from(base).join(name).to_str().unwrap().to_string()
        );
    }
}

#[test]
fn path_to_str_hands_out_the_text() {
    assert_eq!(path_to_str(&PathBuf::from("/a/b c")), Ok("/a/b c"));
    assert_eq!(path_to_str(&PathBuf::new()), Ok(""));
}

#[test]
fn enclose_path_in_puts_the_symbol_on_both_sides() {
    assert_eq!(enclose_path_in(&PathBuf::from("/a/b"), '\''), Ok("'/a/b'".to_string()));
    assert_eq!(enclose_path_in(&PathBuf::new(), '"'), Ok("\"\"".to_string()));
}

#[test]
fn concat_str_path_puts_the_path_behind_the_text() {
    assert_eq!(
        concat_str_path("--read-batch=", &PathBuf::from("/a/x.diff")),
        Ok("--read-batch=/a/x.diff".to_string())
    );
    assert_eq!(concat_str_path("", &PathBuf::from("p")), Ok("p".to_string()));
}

#[test]
fn absolute_path_cleans_an_absolute_path() {
    assert_eq!(absolute_path("/test/../path/", "/home/u"), "/path");
    assert_eq!(absolute_path("/a//b/./c", "/home/u"), "/a/b/c");
}

#[test]
fn absolute_path_starts_a_relative_path_at_the_current_directory() {
    assert_eq!(absolute_path("x/../y", "/home/u"), "/home/u/y");
    assert_eq!(absolute_path("../v", "/home/u"), "/home/v");
    assert_eq!(absolute_path("", "/home/u/"), "/home/u");
    assert_eq!(absolute_path(".", "/"), "/");
}

#[test]
fn fs_copy_of_a_file_into_a_folder() {
    assert_eq!(fs_copy("/a/f", "/b", CpMvMode::File), command("cp", &["/a/f", "/b/"]));
}

#[test]
fn fs_copy_of_a_file_under_a_new_name() {
    assert_eq!(
        fs_copy("/a/f", "/b", CpMvMode::FileRename("g".to_string())),
        command("cp", &["/a/f", "/b/g"])
    );
}

#[test]
fn fs_copy_of_a_folder_is_recursive() {
    assert_eq!(fs_copy("/a/d", "/b/", CpMvMode::Folder), command("cp", &["-r", "/a/d", "/b/"]));
    assert_eq!(
        fs_copy("/a/d", "/b", CpMvMode::FolderRename("e".to_string())),
        command("cp", &["-r", "/a/d", "/b/e"])
    );
}

#[test]
fn fs_move_names_source_and_destination() {
    assert_eq!(fs_move("/a/f", "/b", CpMvMode::File), command("mv", &["/a/f", "/b/"]));
    assert_eq!(fs_move("/a/d", "/b", CpMvMode::Folder), command("mv", &["/a/d", "/b/"]));
    assert_eq!(
        fs_move("/a/f", "/b", CpMvMode::FileRename("g".to_string())),
        command("mv", &["/a/f", "/b/g"])
    );
    assert_eq!(
        fs_move("/a/d", "/b/", CpMvMode::FolderRename("e".to_string())),
        command("mv", &["/a/d", "/b/e"])
    );
}

#[test]
fn renamed_destination_carries_no_separator() {
    let planned = fs_copy("/a/d", "/b", CpMvMode::FolderRename("Apr13".to_string()));
    assert!(!has_trailing_slash(planned.args.last().unwrap()));
}

#[test]
fn mode_clone_is_equal() {
    for mode in [
        CpMvMode::File,
        CpMvMode::Folder,
        CpMvMode::FileRename("a".to_string()),
        CpMvMode::FolderRename("b".to_string()),
    ] {
        assert_eq!(mode.clone(), mode);
    }
}

#[test]
fn error_messages_tell_the_errors_apart() {
    let all = [
        SyncError::NonUnicodePath,
        SyncError::BadDateFormat,
        SyncError::ToolMissing,
        SyncError::ToolFailed,
        SyncError::BatchRejected,
        SyncError::Io,
        SyncError::Serialization,
        SyncError::UnexpectedEvent,
    ];
    for (i, a) in all.iter().enumerate() {
        assert!(!a.message().is_empty());
        for b in &all[i + 1..] {
            assert_ne!(a.message(), b.message());
        }
    }
    assert_eq!(
        SyncError::NonUnicodePath.message(),
        "Path::to_str() failed, non-unicode symbols in path?"
    );
    assert_eq!(SyncError::BatchRejected.message(), "rsync failure");
}
