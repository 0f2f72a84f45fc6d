//! The command lines of the delta-transfer tool, and what its run says.
//!
//! The tool is run twice per archive run: once to extract the difference
//! between two trees into a batch file, and once to apply that batch file to
//! a tree. Both runs print one line for each entity they touch, in the form
//! that the change record is read from.

use vstd::prelude::*;
use crate::changes::{ChangeList, Changes};
use crate::error::SyncError;
use crate::report::collected;
use crate::text::{contains, contains_text, decimal, push_decimal, texts};
use crate::util::{add_trailing_slash, with_trailing_slash, Command, CommandLine};

verus! {

/// A tree on another machine, reached through a secure shell.
#[derive(Debug)]
pub struct SshPath {
    pub server: String,
    pub username: String,
    pub port: u16,
    pub path: String,
}

impl SshPath {
    /// The arguments that select the transport: a secure shell on the port.
    pub open spec fn header(&self) -> Seq<Seq<char>> {
        seq!["-e"@, "'ssh -p "@ + decimal(self.port as nat) + "'"@]
    }

    /// The tree as the tool addresses it: user, machine and path, the path
    /// with a separator at its end where `trailing_slash` asks for one.
    pub open spec fn address(&self, trailing_slash: bool) -> Seq<char> {
        self.username@ + "@"@ + self.server@ + ":"@ + if trailing_slash {
            with_trailing_slash(self.path@)
        } else {
            self.path@
        }
    }

    /// The arguments that select the transport to the tree; they stand
    /// before the arguments that name source and destination.
    pub fn to_args_header(&self) -> (args: Vec<String>)
        ensures
            texts(args@) == self.header(),
    {
        let mut args: Vec<String> = Vec::new();
        args.push(String::from_str("-e"));
        let mut shell = String::from_str("'ssh -p ");
        push_decimal(&mut shell, self.port);
        shell.append("'");
        args.push(shell);
        args
    }

    /// The argument that names the tree, as `user@host:path`.
    pub fn to_args_path(&self, trailing_slash: bool) -> (arg: String)
        ensures
            arg@ == self.address(trailing_slash),
    {
        let path: String = if trailing_slash {
            add_trailing_slash(self.path.clone())
        } else {
            self.path.clone()
        };
        let mut arg = self.username.clone();
        arg.append("@");
        arg.append(self.server.as_str());
        arg.append(":");
        arg.append(path.as_str());
        arg
    }
}

/// From where to where the tool transfers.
#[derive(Debug)]
#[allow(inconsistent_fields)]
pub enum RsyncDirection {
    LocalToLocal { from: String, to: String },
    LocalToRemote { from: String, to: SshPath },
    RemoteToLocal { from: SshPath, to: String },
}

impl RsyncDirection {
    /// The path of the tree that is read.
    pub open spec fn source_path(&self) -> Seq<char> {
        match self {
            RsyncDirection::LocalToLocal { from, .. } => from@,
            RsyncDirection::LocalToRemote { from, .. } => from@,
            RsyncDirection::RemoteToLocal { from, .. } => from.path@,
        }
    }

    /// The arguments that name source and destination, in this order and at
    /// the end, behind the transport where a side is remote. The source has
    /// a separator at its end, so that what the tree holds is transferred and
    /// not the tree as a folder; the destination is handed on as it is.
    pub open spec fn endpoints(&self) -> Seq<Seq<char>> {
        match self {
            RsyncDirection::LocalToLocal { from, to } => seq![with_trailing_slash(from@), to@],
            RsyncDirection::LocalToRemote { from, to } => to.header() + seq![
                with_trailing_slash(from@),
                to.address(false),
            ],
            RsyncDirection::RemoteToLocal { from, to } => from.header() + seq![
                from.address(true),
                to@,
            ],
        }
    }

    /// The arguments that name source and destination.
    pub fn to_args(&self) -> (args: Vec<String>)
        ensures
            texts(args@) == self.endpoints(),
    {
        let mut args: Vec<String> = Vec::new();
        match self {
            RsyncDirection::LocalToLocal { from, to } => {
                args.push(add_trailing_slash(from.clone()));
                args.push(to.clone());
            },
            RsyncDirection::LocalToRemote { from, to } => {
                let mut header = to.to_args_header();
                args.append(&mut header);
                args.push(add_trailing_slash(from.clone()));
                args.push(to.to_args_path(false));
            },
            RsyncDirection::RemoteToLocal { from, to } => {
                let mut header = from.to_args_header();
                args.append(&mut header);
                args.push(from.to_args_path(true));
                args.push(to.clone());
            },
        }
        args
    }
}

/// The source is the argument before the last, and it ends in a separator
/// unless the source's path is empty.
pub proof fn lemma_source_carries_separator(direction: RsyncDirection)
    requires
        direction.source_path().len() > 0,
    ensures
        direction.endpoints().len() >= 2,
        direction.endpoints()[direction.endpoints().len() - 2].len() > 0,
        direction.endpoints()[direction.endpoints().len() - 2].last() == '/',
{
}

/// The text by which the tool says that a batched update was not applied.
pub open spec fn failure_sentinel() -> Seq<char> {
    "No batched update for"@
}

/// The options that every run of the tool has: archive mode, the exclude
/// file, the batch file under `batch_option`, deletion of what the source no
/// longer holds, and one line of output per entity, in the form that
/// `ChangeList::collect` reads.
pub open spec fn common_options(
    exclude_file: Seq<char>,
    batch_option: Seq<char>,
    diff_file: Seq<char>,
) -> Seq<Seq<char>> {
    seq![
        "-avz"@,
        "--exclude-from"@,
        exclude_file,
        batch_option + diff_file,
        "--delete"@,
        "--out-format='changed-file:%o;%n'"@,
    ]
}

/// The command line that extracts the difference between the source and the
/// destination that `endpoints` name into the batch file `diff_file`,
/// changing neither tree.
pub open spec fn extract_line(
    endpoints: Seq<Seq<char>>,
    diff_file: Seq<char>,
    exclude_file: Seq<char>,
) -> CommandLine {
    CommandLine {
        program: "rsync"@,
        args: common_options(exclude_file, "--only-write-batch="@, diff_file) + endpoints,
    }
}

/// The command line that extracts the difference between the two trees of
/// `direction` into the batch file `diff_file`.
pub open spec fn extract_command(
    direction: RsyncDirection,
    diff_file: Seq<char>,
    exclude_file: Seq<char>,
) -> CommandLine {
    extract_line(direction.endpoints(), diff_file, exclude_file)
}

/// The command line that applies the batch file `diff_file` to the tree at
/// `dst_folder`.
pub open spec fn apply_command(
    dst_folder: Seq<char>,
    diff_file: Seq<char>,
    exclude_file: Seq<char>,
) -> CommandLine {
    CommandLine {
        program: "rsync"@,
        args: common_options(exclude_file, "--read-batch="@, diff_file).push(dst_folder),
    }
}

fn options(exclude_file: &str, batch_option: &str, diff_file: &str) -> (args: Vec<String>)
    ensures
        texts(args@) == common_options(exclude_file@, batch_option@, diff_file@),
{
    let mut args: Vec<String> = Vec::new();
    args.push(String::from_str("-avz"));
    args.push(String::from_str("--exclude-from"));
    args.push(String::from_str(exclude_file));
    let mut batch = String::from_str(batch_option);
    batch.append(diff_file);
    args.push(batch);
    args.push(String::from_str("--delete"));
    args.push(String::from_str("--out-format='changed-file:%o;%n'"));
    args
}

/// Plans the run of the tool that writes the difference between the two
/// trees of `rsync_dir` to `diff_file`.
pub fn rsync_extract_diff(
    rsync_dir: RsyncDirection,
    diff_file: &str,
    exclude_file: &str,
) -> (command: Command)
    ensures
        command@ == extract_command(rsync_dir, diff_file@, exclude_file@),
{
    let mut args = options(exclude_file, "--only-write-batch=", diff_file);
    let mut endpoints = rsync_dir.to_args();
    args.append(&mut endpoints);
    let command = Command { program: String::from_str("rsync"), args };
    command
}

/// Plans the run of the tool that applies `diff_file` to the local tree at
/// `dst_folder`.
pub fn rsync_apply_diff(dst_folder: &str, diff_file: &str, exclude_file: &str) -> (command: Command)
    ensures
        command@ == apply_command(dst_folder@, diff_file@, exclude_file@),
{
    let mut args = options(exclude_file, "--read-batch=", diff_file);
    args.push(String::from_str(dst_folder));
    let command = Command { program: String::from_str("rsync"), args };
    command
}

/// What a run of the tool says: it failed where its exit status is not zero
/// or its output holds the failure sentinel.
pub open spec fn tool_verdict(success: bool, output: Seq<char>) -> Result<(), SyncError> {
    if !success {
        Err(SyncError::ToolFailed)
    } else if contains_text(output, failure_sentinel()) {
        Err(SyncError::BatchRejected)
    } else {
        Ok(())
    }
}

/// What an extracting run found: the record that its output stands for, or
/// no record where it reports no change.
pub open spec fn extract_verdict(success: bool, output: Seq<char>) -> Result<
    Option<Changes>,
    SyncError,
> {
    match tool_verdict(success, output) {
        Ok(()) => Ok(collected(output)),
        Err(e) => Err(e),
    }
}

pub open spec fn record_view(record: Result<Option<ChangeList>, SyncError>) -> Result<
    Option<Changes>,
    SyncError,
> {
    match record {
        Ok(Some(r)) => Ok(Some(r@)),
        Ok(None) => Ok(None),
        Err(e) => Err(e),
    }
}

/// Judges a run of the tool by its exit status and its output.
pub fn check_tool_run(success: bool, output: &str) -> (verdict: Result<(), SyncError>)
    ensures
        verdict == tool_verdict(success, output@),
{
    if !success {
        Err(SyncError::ToolFailed)
    } else if contains(output, "No batched update for") {
        Err(SyncError::BatchRejected)
    } else {
        Ok(())
    }
}

/// Reads what an extracting run of the tool found.
pub fn read_extracted_diff(success: bool, output: &str) -> (record: Result<
    Option<ChangeList>,
    SyncError,
>)
    ensures
        record_view(record) == extract_verdict(success, output@),
{
    match check_tool_run(success, output) {
        Ok(()) => Ok(ChangeList::collect(output)),
        Err(e) => Err(e),
    }
}

} // verus!
