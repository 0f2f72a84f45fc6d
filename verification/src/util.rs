//! Paths as text, and the command lines of the copy and rename tools.
//!
//! A path is a text whose components are separated by `/`, as the tools that
//! the library drives write them.

use vstd::prelude::*;
use std::path::PathBuf;
use crate::error::SyncError;
use crate::text::{chars_of, string_of, texts};

verus! {

/// Whether the path ends in a separator.
pub open spec fn ends_with_slash(p: Seq<char>) -> bool {
    p.len() > 0 && p.last() == '/'
}

/// The path with a separator at its end. The empty path names nothing and
/// stays empty.
pub open spec fn with_trailing_slash(p: Seq<char>) -> Seq<char> {
    if p.len() == 0 || ends_with_slash(p) {
        p
    } else {
        p.push('/')
    }
}

/// The path without the separators at its end. The root, `/`, stays.
pub open spec fn without_trailing_slash(p: Seq<char>) -> Seq<char>
    decreases p.len(),
{
    if p.len() > 1 && p.last() == '/' {
        without_trailing_slash(p.drop_last())
    } else {
        p
    }
}

/// Whether the path ends in a separator.
pub fn has_trailing_slash(p: &str) -> (r: bool)
    ensures
        r == ends_with_slash(p@),
{
    let n: usize = p.unicode_len();
    n > 0 && p.get_char(n - 1) == '/'
}

/// Puts a separator at the end of a path that has none there. A path that
/// is handed to the delta-transfer tool as a source needs one: without it the
/// tool transfers the directory itself, not what it holds.
pub fn add_trailing_slash(p: String) -> (r: String)
    ensures
        r@ == with_trailing_slash(p@),
        p@.len() > 0 ==> ends_with_slash(r@),
{
    let mut p = p;
    if p.as_str().unicode_len() > 0 && !has_trailing_slash(p.as_str()) {
        p.push('/');
    }
    p
}

/// What is left of a path without its trailing separators is its beginning,
/// what was taken off holds separators only, and no separator is left at the
/// end unless the root is all that is left.
pub proof fn lemma_without_trailing_slash(p: Seq<char>)
    ensures
        without_trailing_slash(p).len() <= p.len(),
        without_trailing_slash(p) == p.take(without_trailing_slash(p).len() as int),
        forall|i: int| without_trailing_slash(p).len() <= i < p.len() ==> p[i] == '/',
        !ends_with_slash(without_trailing_slash(p)) || without_trailing_slash(p) == seq!['/'],
    decreases p.len(),
{
    if p.len() > 1 && p.last() == '/' {
        let shorter = p.drop_last();
        lemma_without_trailing_slash(shorter);
        let kept = without_trailing_slash(shorter);
        assert forall|i: int| kept.len() <= i < p.len() implies p[i] == '/' by {
            if i < p.len() - 1 {
                assert(shorter[i] == p[i]);
            }
        }
    }
}

/// Takes the separators off the end of a path. A path that is only
/// separators is the root and keeps one.
pub fn remove_trailing_slash(p: &mut String)
    ensures
        final(p)@ == without_trailing_slash(old(p)@),
        !ends_with_slash(final(p)@) || final(p)@ == seq!['/'],
{
    let chars = chars_of(p.as_str());
    let mut n: usize = chars.len();
    assert(chars@.take(n as int) =~= chars@);
    while n > 1 && chars[n - 1] == '/'
        invariant
            n <= chars.len(),
            without_trailing_slash(chars@) == without_trailing_slash(chars@.take(n as int)),
        decreases n,
    {
        assert(chars@.take(n as int).drop_last() =~= chars@.take(n - 1));
        n = n - 1;
    }
    proof {
        lemma_without_trailing_slash(chars@);
    }
    if n < chars.len() {
        *p = string_of(&chars, 0, n);
    }
}

/// Whether a path starts at the root.
pub open spec fn is_absolute(p: Seq<char>) -> bool {
    p.len() > 0 && p[0] == '/'
}

/// The path of `name` as seen from `base`: an absolute `name` stands for
/// itself; otherwise it follows `base`, after a separator where `base` does
/// not end in one.
pub open spec fn joined(base: Seq<char>, name: Seq<char>) -> Seq<char> {
    if is_absolute(name) {
        name
    } else if base.len() == 0 || ends_with_slash(base) {
        base + name
    } else {
        base.push('/') + name
    }
}

/// Whether a path starts at the root.
pub fn starts_at_root(p: &str) -> (r: bool)
    ensures
        r == is_absolute(p@),
{
    p.unicode_len() > 0 && p.get_char(0) == '/'
}

/// The path of `name` as seen from `base`.
pub fn join_path(base: &str, name: &str) -> (path: String)
    ensures
        path@ == joined(base@, name@),
{
    if starts_at_root(name) {
        return String::from_str(name);
    }
    let mut path = String::from_str(base);
    if base.unicode_len() > 0 && !has_trailing_slash(base) {
        path.push('/');
    }
    path.append(name);
    path
}

/// `std::path::PathBuf`, which is carried through and never looked into.
#[verifier::external_type_specification]
#[verifier::external_body]
pub struct ExPathBuf(PathBuf);

/// The text of a path, where the path is Unicode text: what `Path::to_str`
/// yields for it.
pub uninterp spec fn path_text(p: &PathBuf) -> Option<Seq<char>>;

/// `Path::to_str` yields the path as a string slice if it is valid Unicode,
/// and `None` if it is not. The contract says that the result is the
/// path's text, and is there exactly where the path has one.
#[verifier::external_body]
fn path_as_text(p: &PathBuf) -> (text: Option<&str>)
    ensures
        text is Some == path_text(p) is Some,
        text matches Some(t) ==> path_text(p) == Some(t@),
{
    p.to_str()
}

/// The path as text; a path that is no Unicode text is refused.
pub fn path_to_str(p: &PathBuf) -> (text: Result<&str, SyncError>)
    ensures
        text is Ok == path_text(p) is Some,
        text matches Ok(t) ==> path_text(p) == Some(t@),
        text matches Err(e) ==> e == SyncError::NonUnicodePath,
{
    match path_as_text(p) {
        Some(t) => Ok(t),
        None => Err(SyncError::NonUnicodePath),
    }
}

/// The path between two copies of `symbol`.
pub fn enclose_path_in(p: &PathBuf, symbol: char) -> (text: Result<String, SyncError>)
    ensures
        text is Ok == path_text(p) is Some,
        text matches Ok(t) ==> t@ == seq![symbol] + path_text(p)->0 + seq![symbol],
        text matches Err(e) ==> e == SyncError::NonUnicodePath,
{
    let p = path_to_str(p)?;
    let mut s = String::new();
    s.push(symbol);
    s.append(p);
    s.push(symbol);
    Ok(s)
}

/// The path behind the text `s`.
pub fn concat_str_path(s: &str, p: &PathBuf) -> (text: Result<String, SyncError>)
    ensures
        text is Ok == path_text(p) is Some,
        text matches Ok(t) ==> t@ == s@ + path_text(p)->0,
        text matches Err(e) ==> e == SyncError::NonUnicodePath,
{
    let p = path_to_str(p)?;
    let mut c = String::from_str(s);
    c.append(p);
    Ok(c)
}

/// The lexically cleaned form of a path, as `path_clean::clean` computes it
/// where `/` separates the components.
pub uninterp spec fn cleaned_path(p: Seq<char>) -> Seq<char>;

/// `path_clean::clean` reduces a path without looking at the file system:
/// repeated separators and `.` elements go, and so does a `..` element
/// together with the element before it. The contract gives the result a
/// name and claims nothing else of it. The body turns the result, which is
/// made of the components of a text, back into text.
#[verifier::external_body]
fn clean_path(p: &str) -> (cleaned: String)
    ensures
        cleaned@ == cleaned_path(p@),
{
    path_clean::clean(p).to_string_lossy().into_owned()
}

/// The clean absolute form of `path`, which is taken as relative to
/// `current_dir` unless it starts at the root.
pub fn absolute_path(path: &str, current_dir: &str) -> (absolute: String)
    ensures
        absolute@ == cleaned_path(joined(current_dir@, path@)),
{
    if starts_at_root(path) {
        clean_path(path)
    } else {
        let full = join_path(current_dir, path);
        clean_path(full.as_str())
    }
}

/// How a file or folder is placed: into a folder under its own name, or
/// into a folder under a new name.
#[derive(Eq, PartialEq, Debug)]
pub enum CpMvMode {
    File,
    FileRename(String),
    Folder,
    FolderRename(String),
}

impl Clone for CpMvMode {
    fn clone(&self) -> (copy: CpMvMode)
        ensures
            copy == *self,
    {
        match self {
            CpMvMode::File => CpMvMode::File,
            CpMvMode::FileRename(to) => CpMvMode::FileRename(to.clone()),
            CpMvMode::Folder => CpMvMode::Folder,
            CpMvMode::FolderRename(to) => CpMvMode::FolderRename(to.clone()),
        }
    }
}

impl CpMvMode {
    /// Whether a folder with all it holds is placed.
    pub open spec fn is_recursive(self) -> bool {
        self is Folder || self is FolderRename
    }

    /// The path handed to the tool as the place to put the source: the
    /// folder, with a separator at its end, or the new name inside it.
    pub open spec fn destination(self, dst_folder: Seq<char>) -> Seq<char> {
        match self {
            CpMvMode::File | CpMvMode::Folder => with_trailing_slash(dst_folder),
            CpMvMode::FileRename(to) | CpMvMode::FolderRename(to) => joined(dst_folder, to@),
        }
    }
}

/// A command line as contracts see it.
#[verifier::ext_equal]
pub struct CommandLine {
    pub program: Seq<char>,
    pub args: Seq<Seq<char>>,
}

/// A tool to run, by its name on the search path, and its arguments.
#[derive(Debug, PartialEq, Eq)]
pub struct Command {
    pub program: String,
    pub args: Vec<String>,
}

impl View for Command {
    type V = CommandLine;

    open spec fn view(&self) -> CommandLine {
        CommandLine { program: self.program@, args: texts(self.args@) }
    }
}

/// The command line that copies `src` to `dst`, a folder with all it holds
/// where `recursive` is set.
pub open spec fn copy_line(recursive: bool, src: Seq<char>, dst: Seq<char>) -> CommandLine {
    CommandLine {
        program: "cp"@,
        args: if recursive {
            seq!["-r"@, src, dst]
        } else {
            seq![src, dst]
        },
    }
}

/// The command line that moves `src` to `dst`.
pub open spec fn move_line(src: Seq<char>, dst: Seq<char>) -> CommandLine {
    CommandLine { program: "mv"@, args: seq![src, dst] }
}

/// The command line that copies `src_path` as `mode` says.
pub open spec fn copy_command(
    src_path: Seq<char>,
    dst_folder: Seq<char>,
    mode: CpMvMode,
) -> CommandLine {
    copy_line(mode.is_recursive(), src_path, mode.destination(dst_folder))
}

/// The command line that moves `src_path` as `mode` says.
pub open spec fn move_command(
    src_path: Seq<char>,
    dst_folder: Seq<char>,
    mode: CpMvMode,
) -> CommandLine {
    move_line(src_path, mode.destination(dst_folder))
}

fn destination_path(dst_folder: &str, mode: &CpMvMode) -> (dst: String)
    ensures
        dst@ == mode.destination(dst_folder@),
{
    match mode {
        CpMvMode::File | CpMvMode::Folder => add_trailing_slash(String::from_str(dst_folder)),
        CpMvMode::FileRename(to) | CpMvMode::FolderRename(to) => join_path(dst_folder, to.as_str()),
    }
}

/// Plans the copy of a file or folder into `dst_folder`; a folder is copied
/// with all it holds.
pub fn fs_copy(src_path: &str, dst_folder: &str, mode: CpMvMode) -> (command: Command)
    ensures
        command@ == copy_command(src_path@, dst_folder@, mode),
{
    let dst = destination_path(dst_folder, &mode);
    let recursive: bool = match mode {
        CpMvMode::Folder | CpMvMode::FolderRename(_) => true,
        CpMvMode::File | CpMvMode::FileRename(_) => false,
    };
    let mut args: Vec<String> = Vec::new();
    if recursive {
        args.push(String::from_str("-r"));
    }
    args.push(String::from_str(src_path));
    args.push(dst);
    let command = Command { program: String::from_str("cp"), args };
    command
}

/// Plans the move of a file or folder into `dst_folder`.
pub fn fs_move(src_path: &str, dst_folder: &str, mode: CpMvMode) -> (command: Command)
    ensures
        command@ == move_command(src_path@, dst_folder@, mode),
{
    let dst = destination_path(dst_folder, &mode);
    let mut args: Vec<String> = Vec::new();
    args.push(String::from_str(src_path));
    args.push(dst);
    let command = Command { program: String::from_str("mv"), args };
    command
}

} // verus!
