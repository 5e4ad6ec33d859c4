//! The error that the container operations of this library return.

use libcgroups::common::{AnyManagerError, CreateCgroupSetupError};
use vstd::prelude::*;
use vstd::std_specs::convert::FromSpecImpl;

verus! {

/// The error of `serde_json`, carried as it is.
#[verifier::external_type_specification]
#[verifier::external_body]
pub struct ExJsonError(serde_json::Error);

/// The error with which `libcgroups` refuses to build a cgroup manager,
/// carried as it is.
#[verifier::external_type_specification]
#[verifier::external_body]
pub struct ExCreateCgroupSetupError(libcgroups::common::CreateCgroupSetupError);

/// The error of a cgroup manager of `libcgroups` at work, carried as it is.
#[verifier::external_type_specification]
#[verifier::external_body]
pub struct ExAnyManagerError(libcgroups::common::AnyManagerError);

/// Why an operation on a container failed. Each kind of failure has a variant
/// of its own, and an underlying cause is kept unchanged.
#[derive(Debug)]
pub enum LibcontainerError {
    /// The container is not in the state that the operation needs.
    IncorrectStatus,
    /// The cgroup manager failed at its work, such as collecting statistics.
    CgroupManager(AnyManagerError),
    /// No cgroup manager could be built for the container.
    CgroupCreate(CreateCgroupSetupError),
    /// A value could not be written as JSON.
    OtherSerialization(serde_json::Error),
    /// Any other failure, in the words of whoever met it.
    Other(String),
}

impl From<AnyManagerError> for LibcontainerError {
    fn from(cause: AnyManagerError) -> (error: LibcontainerError) {
        LibcontainerError::CgroupManager(cause)
    }
}

impl FromSpecImpl<AnyManagerError> for LibcontainerError {
    open spec fn obeys_from_spec() -> bool {
        true
    }

    open spec fn from_spec(cause: AnyManagerError) -> LibcontainerError {
        LibcontainerError::CgroupManager(cause)
    }
}

impl From<CreateCgroupSetupError> for LibcontainerError {
    fn from(cause: CreateCgroupSetupError) -> (error: LibcontainerError) {
        LibcontainerError::CgroupCreate(cause)
    }
}

impl FromSpecImpl<CreateCgroupSetupError> for LibcontainerError {
    open spec fn obeys_from_spec() -> bool {
        true
    }

    open spec fn from_spec(cause: CreateCgroupSetupError) -> LibcontainerError {
        LibcontainerError::CgroupCreate(cause)
    }
}

impl From<serde_json::Error> for LibcontainerError {
    fn from(cause: serde_json::Error) -> (error: LibcontainerError) {
        LibcontainerError::OtherSerialization(cause)
    }
}

impl FromSpecImpl<serde_json::Error> for LibcontainerError {
    open spec fn obeys_from_spec() -> bool {
        true
    }

    open spec fn from_spec(cause: serde_json::Error) -> LibcontainerError {
        LibcontainerError::OtherSerialization(cause)
    }
}

} // verus!
