use vstd::prelude::*;

verus! {

/// Every way a generation run can stop. None of them is retried: each one points
/// at a defect in the static tables or in the environment of the run.
#[derive(Debug, Clone, Copy, PartialEq, Eq, Structural)]
pub enum GenError {
    /// A categorical parameter field holds a value the target release has no mapping for.
    UnsupportedParameterChoice,
    /// A ciphertext modulus does not fit the 64-bit scalar of the target release.
    CiphertextModulusTooBig,
    /// A write targets a file that is already present in the output tree.
    DuplicateArtifact,
    /// Encoding an object or writing its bytes could not complete.
    SerializationFailure,
    /// The output root could not be cleared or recreated.
    DirectoryResetFailure,
}

} // verus!
