//! What can go wrong, and how badly.

use vstd::prelude::*;

verus! {

/// A failure of the tool.
#[derive(Clone, Copy, Debug, PartialEq, Eq, Structural)]
pub enum ToolError {
    /// The configuration file exists and cannot be parsed.
    ConfigCorrupt,
    /// The configuration file cannot be created or written.
    ConfigWriteError,
    /// The submodules file cannot be found or read. An empty inventory
    /// would read as "fully initialized", so this stops the command.
    SubmodulesFileMissing,
    /// The update command failed for one entry.
    SubmoduleUpdateFailed,
    /// One submodule directory could not be removed.
    DirectoryRemovalFailed,
}

/// Whether `error` stops what is being done. A failure of one entry of a
/// sweep does not: it is logged, and the sweep goes on.
pub open spec fn fatal(error: ToolError) -> bool {
    error is ConfigCorrupt || error is ConfigWriteError || error is SubmodulesFileMissing
}

/// The exit code that `error` asks for: 1 for a corrupt configuration, 0
/// for everything else.
pub open spec fn exit_code_of(error: ToolError) -> i32 {
    if error is ConfigCorrupt {
        1
    } else {
        0
    }
}

/// Whether `error` stops what is being done.
pub fn is_fatal(error: ToolError) -> (stops: bool)
    ensures
        stops == fatal(error),
{
    match error {
        ToolError::ConfigCorrupt => true,
        ToolError::ConfigWriteError => true,
        ToolError::SubmodulesFileMissing => true,
        ToolError::SubmoduleUpdateFailed => false,
        ToolError::DirectoryRemovalFailed => false,
    }
}

/// The exit code of a process that ends on `error`.
pub fn exit_code(error: ToolError) -> (code: i32)
    ensures
        code == exit_code_of(error),
{
    match error {
        ToolError::ConfigCorrupt => 1,
        _ => 0,
    }
}

} // verus!
