use vstd::prelude::*;
use vstd::string::StringExecFns;

use crate::command::InterruptibleFnError;

verus! {

/// How a patch is merged into a container.
#[derive(Debug, Clone, Copy, PartialEq, Eq, Structural)]
pub enum GrfPatchingMethod {
    /// Mutate the container directly.
    InPlace,
    /// Write a merged copy beside the container, then rename it over.
    OutOfPlace,
}

/// The patching options of the configuration.
#[derive(Debug, Clone, Copy, PartialEq, Eq, Structural)]
pub struct PatchingOptions {
    pub check_integrity: bool,
    pub in_place: bool,
    pub create_grf: bool,
}

/// How one archive is applied.
#[derive(Debug, PartialEq, Eq)]
pub enum ApplyPlan {
    /// Merge into the container `target` of the working directory.
    Grf { method: GrfPatchingMethod, create_if_missing: bool, target: String },
    /// Overlay the archive's entries on the working directory.
    Disk,
}

/// Chooses how to apply an archive from what its header says
/// (`use_grf_merging`, `target_grf_name`) and from the configuration.
pub fn plan_application(
    use_grf_merging: bool,
    target_grf_name: &String,
    options: &PatchingOptions,
    default_grf_name: &String,
) -> (r: ApplyPlan)
    ensures
        !use_grf_merging ==> r is Disk,
        use_grf_merging ==> (r matches ApplyPlan::Grf { method, create_if_missing, target } && method
            == (if options.in_place {
            GrfPatchingMethod::InPlace
        } else {
            GrfPatchingMethod::OutOfPlace
        }) && create_if_missing == options.create_grf && target@ == (if target_grf_name@.len() == 0 {
            default_grf_name@
        } else {
            target_grf_name@
        })),
{
    if !use_grf_merging {
        return ApplyPlan::Disk;
    }
    let target = if target_grf_name.as_str().is_empty() {
        default_grf_name.clone()
    } else {
        target_grf_name.clone()
    };
    let method = if options.in_place {
        GrfPatchingMethod::InPlace
    } else {
        GrfPatchingMethod::OutOfPlace
    };
    ApplyPlan::Grf { method, create_if_missing: options.create_grf, target }
}

/// What reading an archive's integrity record gave.
#[derive(Debug, Clone, Copy, PartialEq, Eq, Structural)]
pub enum IntegrityCheck {
    /// The record is there and matches the archive.
    Valid,
    /// The record is there and does not match.
    Invalid,
    /// The archive has no integrity record.
    NoRecord,
    /// The record is there but cannot be read.
    RecordUnreadable,
    /// The archive itself cannot be opened.
    ArchiveUnreadable,
}

/// Whether an archive passes its integrity check: an archive without a
/// record passes; one whose record or whose body cannot be read is an error.
pub fn is_archive_valid(check: IntegrityCheck) -> (r: Result<bool, IntegrityCheck>)
    ensures
        check == IntegrityCheck::Valid ==> r == Ok::<bool, IntegrityCheck>(true),
        check == IntegrityCheck::NoRecord ==> r == Ok::<bool, IntegrityCheck>(true),
        check == IntegrityCheck::Invalid ==> r == Ok::<bool, IntegrityCheck>(false),
        check == IntegrityCheck::RecordUnreadable ==> r == Err::<bool, IntegrityCheck>(check),
        check == IntegrityCheck::ArchiveUnreadable ==> r == Err::<bool, IntegrityCheck>(check),
{
    match check {
        IntegrityCheck::Valid => Ok(true),
        IntegrityCheck::NoRecord => Ok(true),
        IntegrityCheck::Invalid => Ok(false),
        IntegrityCheck::RecordUnreadable => Err(check),
        IntegrityCheck::ArchiveUnreadable => Err(check),
    }
}

/// The kinds of failure of the patching pipeline.
#[derive(Debug, PartialEq, Eq)]
pub enum PatchError {
    /// Another instance holds the update lock.
    AlreadyRunning,
    /// No mirror passed probing.
    NoMirrorAvailable,
    /// The archive could not be downloaded or stored.
    DownloadFailed(String),
    /// The archive's integrity record is present and wrong.
    Corrupt(String),
    /// The archive could not be merged.
    ApplyFailed(String),
    /// The user cancelled.
    Interrupted,
}

pub open spec fn quoted(prefix: Seq<char>, name: Seq<char>, suffix: Seq<char>) -> Seq<char> {
    prefix + "'"@ + name + "'"@ + suffix
}

/// The text shown for each kind of failure.
pub open spec fn error_text(e: PatchError) -> Seq<char> {
    match e {
        PatchError::AlreadyRunning => "Another instance of the patcher is already running"@,
        PatchError::NoMirrorAvailable => "None of the patch servers are available at the moment"@,
        PatchError::DownloadFailed(n) => quoted("Failed to download file "@, n@, ""@),
        PatchError::Corrupt(n) => quoted("Archive "@, n@, " is corrupt"@),
        PatchError::ApplyFailed(n) => quoted("Failed to apply patch "@, n@, ""@),
        PatchError::Interrupted => "Patching was canceled"@,
    }
}

fn quote(prefix: &str, name: &String, suffix: &str) -> (r: String)
    ensures
        r@ == quoted(prefix@, name@, suffix@),
{
    String::from_str(prefix).concat("'").concat(name.as_str()).concat("'").concat(suffix)
}

impl PatchError {
    pub fn message(&self) -> (r: String)
        ensures
            r@ == error_text(*self),
    {
        match self {
            PatchError::AlreadyRunning => String::from_str("Another instance of the patcher is already running"),
            PatchError::NoMirrorAvailable => String::from_str(
                "None of the patch servers are available at the moment",
            ),
            PatchError::DownloadFailed(n) => quote("Failed to download file ", n, ""),
            PatchError::Corrupt(n) => quote("Archive ", n, " is corrupt"),
            PatchError::ApplyFailed(n) => quote("Failed to apply patch ", n, ""),
            PatchError::Interrupted => String::from_str("Patching was canceled"),
        }
    }

    /// The error as a cancellable task reports it: a cancellation stays one,
    /// anything else becomes its message.
    pub fn into_interruptible(self) -> (r: InterruptibleFnError)
        ensures
            self is Interrupted ==> r is Interrupted,
            !(self is Interrupted) ==> r is Error && r->Error_0@ == error_text(self),
    {
        match self {
            PatchError::Interrupted => InterruptibleFnError::Interrupted,
            _ => InterruptibleFnError::Error(self.message()),
        }
    }
}

/// The verdict on one downloaded archive, given whether integrity is checked
/// and what reading its record gave.
pub fn check_downloaded_archive(ensure_integrity: bool, file_name: &String, check: IntegrityCheck) -> (r:
    Result<(), PatchError>)
    ensures
        !ensure_integrity ==> r is Ok,
        ensure_integrity && (check == IntegrityCheck::Valid || check == IntegrityCheck::NoRecord)
            ==> r is Ok,
        ensure_integrity && (check == IntegrityCheck::Invalid || check == IntegrityCheck::RecordUnreadable)
            ==> (r matches Err(PatchError::Corrupt(n)) && n@ == file_name@),
        ensure_integrity && check == IntegrityCheck::ArchiveUnreadable ==> (r matches Err(
            PatchError::DownloadFailed(n),
        ) && n@ == file_name@),
{
    if !ensure_integrity {
        return Ok(());
    }
    match is_archive_valid(check) {
        Ok(true) => Ok(()),
        Ok(false) => Err(PatchError::Corrupt(file_name.clone())),
        Err(IntegrityCheck::ArchiveUnreadable) => Err(PatchError::DownloadFailed(file_name.clone())),
        Err(_) => Err(PatchError::Corrupt(file_name.clone())),
    }
}

} // verus!
