//! Applying a release: the ordered steps that replace the installation's
//! files with those of a downloaded archive, and the file operations that
//! merge one staged entry into the installation root.
use vstd::prelude::*;
use vstd::string::*;
use crate::version::{strip_all_v, trim_version_prefix};

verus! {

/// Where the archive of a tagged release is published; the tag and `.zip` follow.
pub const ARCHIVE_URL_BASE: &'static str = "https://github.com/Trenclik/KOK/archive/";

/// The name under which the downloaded archive is stored.
pub const ARCHIVE_FILE: &'static str = "update.zip";

/// The name of the directory that holds the extracted release during a merge.
pub const STAGING_DIR: &'static str = "temp";

/// The start of the name of the directory that an archive extracts into.
pub const EXTRACTED_DIR_PREFIX: &'static str = "kok-";

/// The installation root, against which every other path resolves.
pub const INSTALL_ROOT: &'static str = ".";

/// The URL of the archive of a version.
pub open spec fn download_url_spec(version: Seq<char>) -> Seq<char> {
    ARCHIVE_URL_BASE@ + version + ".zip"@
}

/// The directory that the archive of a version extracts into.
pub open spec fn extracted_dir_spec(version: Seq<char>) -> Seq<char> {
    EXTRACTED_DIR_PREFIX@ + strip_all_v(version)
}

/// The URL of the archive of `version`, which is used as it is given.
pub fn download_url(version: &str) -> (r: String)
    ensures
        r@ == download_url_spec(version@),
{
    let mut url = String::from_str(ARCHIVE_URL_BASE);
    url.append(version);
    url.append(".zip");
    url
}

/// The name of the directory that the archive of `version` extracts into:
/// the project's name and the version without its leading `v`.
pub fn extracted_dir_name(version: &str) -> (r: String)
    ensures
        r@ == extracted_dir_spec(version@),
{
    let mut name = String::from_str(EXTRACTED_DIR_PREFIX);
    let trimmed = trim_version_prefix(version);
    name.append(trimmed.as_str());
    name
}

/// One step of applying an update.
pub enum UpdateStep {
    /// Fetch `url` and store the body as the file `archive`, replacing it.
    Download { url: String, archive: String },
    /// Extract every entry of `archive` into the directory `into`.
    Extract { archive: String, into: String },
    /// Rename the directory `from` to `to`.
    Rename { from: String, to: String },
    /// Merge each direct entry of `staging` into the installation root.
    MergeStaging { staging: String },
    /// Remove the directory `path` with all that it holds.
    RemoveDir { path: String },
    /// Remove the file `path`.
    RemoveFile { path: String },
}

/// An update step as a value of the specification.
pub enum UpdateStepView {
    Download { url: Seq<char>, archive: Seq<char> },
    Extract { archive: Seq<char>, into: Seq<char> },
    Rename { from: Seq<char>, to: Seq<char> },
    MergeStaging { staging: Seq<char> },
    RemoveDir { path: Seq<char> },
    RemoveFile { path: Seq<char> },
}

impl View for UpdateStep {
    type V = UpdateStepView;

    open spec fn view(&self) -> UpdateStepView {
        match self {
            UpdateStep::Download { url, archive } => UpdateStepView::Download {
                url: url@,
                archive: archive@,
            },
            UpdateStep::Extract { archive, into } => UpdateStepView::Extract {
                archive: archive@,
                into: into@,
            },
            UpdateStep::Rename { from, to } => UpdateStepView::Rename { from: from@, to: to@ },
            UpdateStep::MergeStaging { staging } => UpdateStepView::MergeStaging {
                staging: staging@,
            },
            UpdateStep::RemoveDir { path } => UpdateStepView::RemoveDir { path: path@ },
            UpdateStep::RemoveFile { path } => UpdateStepView::RemoveFile { path: path@ },
        }
    }
}

/// The steps that apply the release `version`, in the order they run.
pub open spec fn update_plan_spec(version: Seq<char>) -> Seq<UpdateStepView> {
    seq![
        UpdateStepView::Download { url: download_url_spec(version), archive: ARCHIVE_FILE@ },
        UpdateStepView::Extract { archive: ARCHIVE_FILE@, into: INSTALL_ROOT@ },
        UpdateStepView::Rename { from: extracted_dir_spec(version), to: STAGING_DIR@ },
        UpdateStepView::MergeStaging { staging: STAGING_DIR@ },
        UpdateStepView::RemoveDir { path: STAGING_DIR@ },
        UpdateStepView::RemoveFile { path: ARCHIVE_FILE@ },
    ]
}

/// The steps that apply the release `version`: download its archive, extract
/// it, rename the extracted directory to the staging name, merge the staged
/// entries into the root, then remove the staging directory and the archive.
/// A runner stops at the first step that fails; when all have run, the
/// application is started.
pub fn update_plan(version: &str) -> (r: Vec<UpdateStep>)
    ensures
        r@.map_values(|s: UpdateStep| s@) == update_plan_spec(version@),
{
    let mut steps: Vec<UpdateStep> = Vec::new();
    steps.push(UpdateStep::Download {
        url: download_url(version),
        archive: String::from_str(ARCHIVE_FILE),
    });
    steps.push(UpdateStep::Extract {
        archive: String::from_str(ARCHIVE_FILE),
        into: String::from_str(INSTALL_ROOT),
    });
    steps.push(UpdateStep::Rename {
        from: extracted_dir_name(version),
        to: String::from_str(STAGING_DIR),
    });
    steps.push(UpdateStep::MergeStaging { staging: String::from_str(STAGING_DIR) });
    steps.push(UpdateStep::RemoveDir { path: String::from_str(STAGING_DIR) });
    steps.push(UpdateStep::RemoveFile { path: String::from_str(ARCHIVE_FILE) });
    assert(steps@.map_values(|s: UpdateStep| s@) =~= update_plan_spec(version@));
    steps
}

/// A successful update leaves neither the staging directory nor the archive
/// behind: the plan ends by removing both, after the merge.
pub proof fn lemma_update_removes_staging(version: Seq<char>)
    ensures
        ({
            let plan = update_plan_spec(version);
            &&& plan[3] == (UpdateStepView::MergeStaging { staging: STAGING_DIR@ })
            &&& plan[4] == (UpdateStepView::RemoveDir { path: STAGING_DIR@ })
            &&& plan[5] == (UpdateStepView::RemoveFile { path: ARCHIVE_FILE@ })
            &&& plan.len() == 6
        }),
{
}

/// What a directory entry is.
#[derive(Clone, Copy, Debug, PartialEq, Eq, Structural)]
pub enum EntryKind {
    File,
    Directory,
}

/// A direct entry of the staging directory, with what the installation root
/// already holds under the same name.
pub struct StagedEntry {
    pub name: String,
    pub kind: EntryKind,
    pub existing: Option<EntryKind>,
}

/// One file-system operation of a merge; paths are relative to the root.
pub enum FileOp {
    RemoveFile { path: String },
    RemoveDir { path: String },
    /// Copy one file.
    CopyFile { from: String, to: String },
    /// Copy a directory as a whole, with all that it holds.
    CopyDir { from: String, to: String },
}

/// A file-system operation as a value of the specification.
pub enum FileOpView {
    RemoveFile { path: Seq<char> },
    RemoveDir { path: Seq<char> },
    CopyFile { from: Seq<char>, to: Seq<char> },
    CopyDir { from: Seq<char>, to: Seq<char> },
}

impl View for FileOp {
    type V = FileOpView;

    open spec fn view(&self) -> FileOpView {
        match self {
            FileOp::RemoveFile { path } => FileOpView::RemoveFile { path: path@ },
            FileOp::RemoveDir { path } => FileOpView::RemoveDir { path: path@ },
            FileOp::CopyFile { from, to } => FileOpView::CopyFile { from: from@, to: to@ },
            FileOp::CopyDir { from, to } => FileOpView::CopyDir { from: from@, to: to@ },
        }
    }
}

/// The path of a staged entry, relative to the root.
pub open spec fn staged_path_spec(name: Seq<char>) -> Seq<char> {
    STAGING_DIR@ + "/"@ + name
}

/// The operations that merge one staged entry: whatever the root holds under
/// its name is removed, then the entry is copied there, a directory as a
/// whole unit.
pub open spec fn merge_entry_spec(
    name: Seq<char>,
    kind: EntryKind,
    existing: Option<EntryKind>,
) -> Seq<FileOpView> {
    let removal = match existing {
        Some(EntryKind::File) => seq![FileOpView::RemoveFile { path: name }],
        Some(EntryKind::Directory) => seq![FileOpView::RemoveDir { path: name }],
        None => Seq::empty(),
    };
    let copy = match kind {
        EntryKind::File => FileOpView::CopyFile { from: staged_path_spec(name), to: name },
        EntryKind::Directory => FileOpView::CopyDir { from: staged_path_spec(name), to: name },
    };
    removal.push(copy)
}

/// The path of the staged entry `name`, relative to the root.
pub fn staged_path(name: &str) -> (r: String)
    ensures
        r@ == staged_path_spec(name@),
{
    let mut path = String::from_str(STAGING_DIR);
    path.append("/");
    path.append(name);
    path
}

/// The operations that merge one direct entry of the staging directory into
/// the root. The merge is shallow: a staged directory is copied whole.
pub fn merge_entry(entry: &StagedEntry) -> (r: Vec<FileOp>)
    ensures
        r@.map_values(|op: FileOp| op@) == merge_entry_spec(entry.name@, entry.kind, entry.existing),
{
    let name = entry.name.as_str();
    let mut ops: Vec<FileOp> = Vec::new();
    match entry.existing {
        Some(EntryKind::File) => ops.push(FileOp::RemoveFile { path: String::from_str(name) }),
        Some(EntryKind::Directory) => ops.push(FileOp::RemoveDir { path: String::from_str(name) }),
        None => {},
    }
    match entry.kind {
        EntryKind::File => ops.push(
            FileOp::CopyFile { from: staged_path(name), to: String::from_str(name) },
        ),
        EntryKind::Directory => ops.push(
            FileOp::CopyDir { from: staged_path(name), to: String::from_str(name) },
        ),
    }
    assert(ops@.map_values(|op: FileOp| op@) =~= merge_entry_spec(
        entry.name@,
        entry.kind,
        entry.existing,
    ));
    ops
}

/// After a merge, each staged entry stands at the root under its own name
/// with the staged content: its copy is the last operation on that name, and
/// any removal of what was there comes before it.
pub proof fn lemma_merge_entry_ends_with_copy(
    name: Seq<char>,
    kind: EntryKind,
    existing: Option<EntryKind>,
)
    ensures
        ({
            let ops = merge_entry_spec(name, kind, existing);
            &&& ops.len() == if existing is Some { 2int } else { 1int }
            &&& ops.last() == match kind {
                EntryKind::File => FileOpView::CopyFile { from: staged_path_spec(name), to: name },
                EntryKind::Directory => FileOpView::CopyDir {
                    from: staged_path_spec(name),
                    to: name,
                },
            }
        }),
{
}

/// Where a run of an update plan stands after a step.
#[derive(Clone, Copy, Debug, PartialEq, Eq, Structural)]
pub enum UpdateProgress {
    /// Run the step at this position next.
    Run(usize),
    /// Every step succeeded.
    Finished,
    /// A step failed; no further step runs and nothing is retried.
    Failed,
}

/// What follows the step at `position` of a plan of `plan_len` steps, given
/// whether it succeeded: the first failure ends the run, and no step is tried
/// twice.
pub open spec fn after_step_spec(position: nat, plan_len: nat, succeeded: bool) -> UpdateProgress {
    if !succeeded {
        UpdateProgress::Failed
    } else if position + 1 < plan_len {
        UpdateProgress::Run((position + 1) as usize)
    } else {
        UpdateProgress::Finished
    }
}

/// What follows the step at `position` of a plan of `plan_len` steps, given
/// whether it succeeded.
pub fn after_step(position: usize, plan_len: usize, succeeded: bool) -> (r: UpdateProgress)
    ensures
        r == after_step_spec(position as nat, plan_len as nat, succeeded),
{
    if !succeeded {
        UpdateProgress::Failed
    } else if plan_len > 0 && position < plan_len - 1 {
        UpdateProgress::Run(position + 1)
    } else {
        UpdateProgress::Finished
    }
}

} // verus!
