//! The error taxonomy of the game-patching utility. The patching itself —
//! a file picker and the copying of embedded libraries into the game
//! directory — is file work at the caller; this is the shared set of its
//! failures with the operator-facing wording of each.

use vstd::prelude::*;

verus! {

/// What went wrong while patching or unpatching the game installation.
pub enum PatchError {
    /// The file picker failed to deliver a choice.
    PickFileFailed,
    /// The chosen path does not hold the game executable.
    MissingGame,
    /// Deleting the patched library failed.
    FailedDelete,
    /// Restoring the original library failed.
    FailedReplaceOriginal,
    /// Writing the patch libraries failed.
    FailedWritingPatchFiles,
}

impl PatchError {
    /// A short description of the failure for the operator.
    pub fn message(&self) -> (r: &'static str)
        ensures
            match self {
                PatchError::PickFileFailed => r@
                    == "Failed to get picked file. Make sure this program is running as administrator"@,
                PatchError::MissingGame => r@
                    == "The path given doesn't contains the MassEffect.exe executable"@,
                PatchError::FailedDelete => r@ == "Failed to delete the patched library"@,
                PatchError::FailedReplaceOriginal => r@
                    == "Failed to restore the original library"@,
                PatchError::FailedWritingPatchFiles => r@ == "Failed to write patch files"@,
            },
    {
        match self {
            PatchError::PickFileFailed => "Failed to get picked file. Make sure this program is running as administrator",
            PatchError::MissingGame => "The path given doesn't contains the MassEffect.exe executable",
            PatchError::FailedDelete => "Failed to delete the patched library",
            PatchError::FailedReplaceOriginal => "Failed to restore the original library",
            PatchError::FailedWritingPatchFiles => "Failed to write patch files",
        }
    }
}

} // verus!
