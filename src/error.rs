use vstd::prelude::*;

verus! {

/// Outcome of a process-manager request.
///
/// The same enumeration travels as the one-byte status of every call:
/// `Success` is the "no error" sentinel and every other variant is a
/// distinct failure. [`ProcessManagerError::code`] gives the wire value.
#[derive(Copy, Clone, Debug, PartialEq, Eq, Structural)]
pub enum ProcessManagerError {
    Success,
    BundleIdInvalid,
    PackageBufferLenInvalid,
    BundleNotFound,
    BundleFound,
    BundleRunning,
    BundleNotRunning,
    UnknownError,
    DeserializeError,
    SerializeError,
    ObjCapInvalid,
    InstallFailed,
    UninstallFailed,
    StartFailed,
    StopFailed,
    SuspendFailed,
    ResumeFailed,
    CapScanFailed,
}

/// The wire value of each status.
pub open spec fn status_code(e: ProcessManagerError) -> u8 {
    match e {
        ProcessManagerError::Success => 0,
        ProcessManagerError::BundleIdInvalid => 1,
        ProcessManagerError::PackageBufferLenInvalid => 2,
        ProcessManagerError::BundleNotFound => 3,
        ProcessManagerError::BundleFound => 4,
        ProcessManagerError::BundleRunning => 5,
        ProcessManagerError::BundleNotRunning => 6,
        ProcessManagerError::UnknownError => 7,
        ProcessManagerError::DeserializeError => 8,
        ProcessManagerError::SerializeError => 9,
        ProcessManagerError::ObjCapInvalid => 10,
        ProcessManagerError::InstallFailed => 11,
        ProcessManagerError::UninstallFailed => 12,
        ProcessManagerError::StartFailed => 13,
        ProcessManagerError::StopFailed => 14,
        ProcessManagerError::SuspendFailed => 15,
        ProcessManagerError::ResumeFailed => 16,
        ProcessManagerError::CapScanFailed => 17,
    }
}

/// Number of distinct status values.
pub const STATUS_COUNT: u8 = 18;

/// The typed result a status stands for: `Success` is `Ok(())`, any
/// other status is an error carrying that status.
pub open spec fn status_result(e: ProcessManagerError) -> Result<(), ProcessManagerError> {
    if e == ProcessManagerError::Success {
        Ok(())
    } else {
        Err(e)
    }
}

impl ProcessManagerError {
    /// The status value as it travels on the wire.
    pub fn code(&self) -> (r: u8)
        ensures
            r == status_code(*self),
            r < STATUS_COUNT,
    {
        match self {
            ProcessManagerError::Success => 0,
            ProcessManagerError::BundleIdInvalid => 1,
            ProcessManagerError::PackageBufferLenInvalid => 2,
            ProcessManagerError::BundleNotFound => 3,
            ProcessManagerError::BundleFound => 4,
            ProcessManagerError::BundleRunning => 5,
            ProcessManagerError::BundleNotRunning => 6,
            ProcessManagerError::UnknownError => 7,
            ProcessManagerError::DeserializeError => 8,
            ProcessManagerError::SerializeError => 9,
            ProcessManagerError::ObjCapInvalid => 10,
            ProcessManagerError::InstallFailed => 11,
            ProcessManagerError::UninstallFailed => 12,
            ProcessManagerError::StartFailed => 13,
            ProcessManagerError::StopFailed => 14,
            ProcessManagerError::SuspendFailed => 15,
            ProcessManagerError::ResumeFailed => 16,
            ProcessManagerError::CapScanFailed => 17,
        }
    }

    /// The status with wire value `code`, if there is one.
    pub fn from_code(code: u8) -> (r: Option<ProcessManagerError>)
        ensures
            r matches Some(e) ==> status_code(e) == code,
            r is Some <==> code < STATUS_COUNT,
    {
        match code {
            0 => Some(ProcessManagerError::Success),
            1 => Some(ProcessManagerError::BundleIdInvalid),
            2 => Some(ProcessManagerError::PackageBufferLenInvalid),
            3 => Some(ProcessManagerError::BundleNotFound),
            4 => Some(ProcessManagerError::BundleFound),
            5 => Some(ProcessManagerError::BundleRunning),
            6 => Some(ProcessManagerError::BundleNotRunning),
            7 => Some(ProcessManagerError::UnknownError),
            8 => Some(ProcessManagerError::DeserializeError),
            9 => Some(ProcessManagerError::SerializeError),
            10 => Some(ProcessManagerError::ObjCapInvalid),
            11 => Some(ProcessManagerError::InstallFailed),
            12 => Some(ProcessManagerError::UninstallFailed),
            13 => Some(ProcessManagerError::StartFailed),
            14 => Some(ProcessManagerError::StopFailed),
            15 => Some(ProcessManagerError::SuspendFailed),
            16 => Some(ProcessManagerError::ResumeFailed),
            17 => Some(ProcessManagerError::CapScanFailed),
            _ => None,
        }
    }

    /// Turns a call's status into the typed result of the call.
    pub fn into_result(self) -> (r: Result<(), ProcessManagerError>)
        ensures
            r == status_result(self),
    {
        if self == ProcessManagerError::Success {
            Ok(())
        } else {
            Err(self)
        }
    }
}

/// Outcome codes of the security service, which validates and stores
/// packages on the process manager's behalf.
#[derive(Copy, Clone, Debug, PartialEq, Eq, Structural)]
pub enum SecurityRequestError {
    SreSuccess,
    SreBundleIdInvalid,
    SreBundleDataInvalid,
    SreBundleNotFound,
    SreDeleteFirst,
    SreKeyNotFound,
    SrePackageBufferLenInvalid,
    SreValueInvalid,
    SreKeyInvalid,
    SreDeserializeFailed,
    SreSerializeFailed,
    SreCapAllocFailed,
    SreCapMoveFailed,
    SreObjCapInvalid,
    SreEchoFailed,
    SreInstallFailed,
    SreUninstallFailed,
    SreSizeBufferFailed,
    SreGetManifestFailed,
    SreLoadApplicationFailed,
    SreLoadModelFailed,
    SreReadFailed,
    SreWriteFailed,
    SreDeleteFailed,
    SreTestFailed,
}

/// How a security-service outcome reads as a process-manager status: the
/// outcomes with a counterpart map to it, all others to `UnknownError`.
pub open spec fn security_status(err: SecurityRequestError) -> ProcessManagerError {
    match err {
        SecurityRequestError::SreSuccess => ProcessManagerError::Success,
        SecurityRequestError::SreBundleIdInvalid => ProcessManagerError::BundleIdInvalid,
        SecurityRequestError::SreBundleNotFound => ProcessManagerError::BundleNotFound,
        SecurityRequestError::SrePackageBufferLenInvalid => ProcessManagerError::PackageBufferLenInvalid,
        SecurityRequestError::SreInstallFailed => ProcessManagerError::InstallFailed,
        SecurityRequestError::SreUninstallFailed => ProcessManagerError::UninstallFailed,
        _ => ProcessManagerError::UnknownError,
    }
}

impl From<SecurityRequestError> for ProcessManagerError {
    fn from(err: SecurityRequestError) -> (r: ProcessManagerError)
        ensures
            r == security_status(err),
    {
        match err {
            SecurityRequestError::SreSuccess => ProcessManagerError::Success,
            SecurityRequestError::SreBundleIdInvalid => ProcessManagerError::BundleIdInvalid,
            SecurityRequestError::SreBundleNotFound => ProcessManagerError::BundleNotFound,
            SecurityRequestError::SrePackageBufferLenInvalid => {
                ProcessManagerError::PackageBufferLenInvalid
            },
            SecurityRequestError::SreInstallFailed => ProcessManagerError::InstallFailed,
            SecurityRequestError::SreUninstallFailed => ProcessManagerError::UninstallFailed,
            // The others cannot come back from the calls made here; report
            // them as something no other outcome uses.
            _ => ProcessManagerError::UnknownError,
        }
    }
}

impl vstd::std_specs::convert::FromSpecImpl<SecurityRequestError> for ProcessManagerError {
    open spec fn obeys_from_spec() -> bool {
        true
    }

    open spec fn from_spec(err: SecurityRequestError) -> ProcessManagerError {
        security_status(err)
    }
}

/// Declares `cstr_core::NulError`, the error `CString::new` gives for a
/// string with an interior nul byte; it is carried, never looked into.
#[verifier::external_type_specification]
#[verifier::external_body]
pub struct ExNulError(cstr_core::NulError);

impl From<cstr_core::NulError> for ProcessManagerError {
    /// A bundle id with an interior nul byte cannot be handed on as a C
    /// string.
    fn from(_err: cstr_core::NulError) -> (r: ProcessManagerError)
        ensures
            r == ProcessManagerError::BundleIdInvalid,
    {
        ProcessManagerError::BundleIdInvalid
    }
}

impl vstd::std_specs::convert::FromSpecImpl<cstr_core::NulError> for ProcessManagerError {
    open spec fn obeys_from_spec() -> bool {
        true
    }

    open spec fn from_spec(_err: cstr_core::NulError) -> ProcessManagerError {
        ProcessManagerError::BundleIdInvalid
    }
}

impl From<ProcessManagerError> for Result<(), ProcessManagerError> {
    fn from(err: ProcessManagerError) -> (r: Result<(), ProcessManagerError>)
        ensures
            r == status_result(err),
    {
        if err == ProcessManagerError::Success {
            Ok(())
        } else {
            Err(err)
        }
    }
}

impl vstd::std_specs::convert::FromSpecImpl<ProcessManagerError> for Result<(), ProcessManagerError> {
    open spec fn obeys_from_spec() -> bool {
        true
    }

    open spec fn from_spec(err: ProcessManagerError) -> Result<(), ProcessManagerError> {
        status_result(err)
    }
}

} // verus!
