use vstd::prelude::*;

verus! {

/// `serde_json::Error`, carried in [`CzmlError::Json`].
#[verifier::external_type_specification]
#[verifier::external_body]
pub struct ExJsonError(serde_json::Error);

/// `std::io::Error`, carried in [`CzmlError::Io`].
#[verifier::external_type_specification]
#[verifier::external_body]
pub struct ExIoError(std::io::Error);

/// `nyx_space::NyxError`, carried in [`CzmlError::NyxError`].
#[verifier::external_type_specification]
#[verifier::external_body]
pub struct ExNyxError(nyx_space::NyxError);

/// Why an export failed.
#[derive(Debug)]
pub enum CzmlError {
    /// JSON serialization failed.
    Json(serde_json::Error),
    /// Writing the document failed.
    Io(std::io::Error),
    /// The trajectory could not be converted between frames.
    NyxError(nyx_space::NyxError),
    /// The trajectory has no state in the requested time window.
    EmptyTrajectory,
}

} // verus!
