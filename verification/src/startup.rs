//! Deciding how a conversion run may begin.
//!
//! A run works between two fixed root directories: the source root, which
//! must already exist, and the destination root, which is created when
//! absent. The decision is taken here from plain observations of the two
//! directories; probing and creating them is the surrounding program's I/O.

use vstd::prelude::*;

use crate::error::ProcessorError;
use crate::error::ProcessorErrorKind;

verus! {

/// Decides the startup of a run. `source_is_dir` and `dest_is_dir` say
/// whether the two roots exist as directories.
///
/// A missing source root is fatal: the run must stop with a
/// `StartupDirectoryError` naming that root, before anything touches the
/// destination root. With the source root present the run may begin, and the
/// answer says whether the destination root must first be created
/// (recursively) because it is absent.
pub fn plan_startup(source_root: &str, source_is_dir: bool, dest_is_dir: bool) -> (r: Result<
    bool,
    ProcessorError,
>)
    ensures
        !source_is_dir ==> r is Err && r->Err_0.kind_spec()
            == ProcessorErrorKind::StartupDirectoryError && r->Err_0.path_spec() == source_root@,
        source_is_dir ==> r is Ok && r->Ok_0 == !dest_is_dir,
{
    if !source_is_dir {
        Result::Err(ProcessorError::startup_directory(source_root))
    } else {
        Result::Ok(!dest_is_dir)
    }
}

} // verus!
