//! Interpretation of the integer status code that the Windows shell's open
//! primitive returns. Values above 32 mean the dispatch succeeded (the exact
//! value is implementation-defined); values of 32 and below select a fixed
//! table of failure reasons.

use vstd::prelude::*;

verus! {

/// Any status strictly above this value means success.
pub const STATUS_SUCCESS_THRESHOLD: u32 = 32;

/// The operating system ran out of memory or resources.
pub const STATUS_OUT_OF_RESOURCES: u32 = 0;

/// The specified file was not found.
pub const STATUS_FILE_NOT_FOUND: u32 = 2;

/// The specified path was not found.
pub const STATUS_PATH_NOT_FOUND: u32 = 3;

/// Access to the specified file was denied.
pub const STATUS_ACCESS_DENIED: u32 = 5;

/// There was not enough memory to complete the operation.
pub const STATUS_OUT_OF_MEMORY: u32 = 8;

/// The executable image is invalid.
pub const STATUS_BAD_FORMAT: u32 = 11;

/// A sharing violation occurred.
pub const STATUS_SHARING_VIOLATION: u32 = 26;

/// The file-name association is incomplete or invalid.
pub const STATUS_ASSOC_INCOMPLETE: u32 = 27;

/// The DDE transaction timed out.
pub const STATUS_DDE_TIMEOUT: u32 = 28;

/// The DDE transaction failed.
pub const STATUS_DDE_FAIL: u32 = 29;

/// Other DDE transactions were being processed.
pub const STATUS_DDE_BUSY: u32 = 30;

/// No application is associated with the file-name extension.
pub const STATUS_NO_ASSOC: u32 = 31;

/// The specified DLL was not found.
pub const STATUS_DLL_NOT_FOUND: u32 = 32;

/// The reason a dispatch failed, one variant per documented status code,
/// with a catch-all for the remaining codes at or below the threshold.
#[derive(Clone, Copy, Debug, PartialEq, Eq, Structural)]
pub enum LaunchFailure {
    OutOfResources,
    FileNotFound,
    PathNotFound,
    BadFormat,
    AccessDenied,
    AssocIncomplete,
    DdeBusy,
    DdeFail,
    DdeTimeout,
    DllNotFound,
    NoAssoc,
    OutOfMemory,
    SharingViolation,
    Unknown,
}

/// The failure reason named by a status code at or below the threshold.
pub open spec fn launch_failure_of(status: u32) -> LaunchFailure {
    if status == STATUS_OUT_OF_RESOURCES {
        LaunchFailure::OutOfResources
    } else if status == STATUS_FILE_NOT_FOUND {
        LaunchFailure::FileNotFound
    } else if status == STATUS_PATH_NOT_FOUND {
        LaunchFailure::PathNotFound
    } else if status == STATUS_BAD_FORMAT {
        LaunchFailure::BadFormat
    } else if status == STATUS_ACCESS_DENIED {
        LaunchFailure::AccessDenied
    } else if status == STATUS_ASSOC_INCOMPLETE {
        LaunchFailure::AssocIncomplete
    } else if status == STATUS_DDE_BUSY {
        LaunchFailure::DdeBusy
    } else if status == STATUS_DDE_FAIL {
        LaunchFailure::DdeFail
    } else if status == STATUS_DDE_TIMEOUT {
        LaunchFailure::DdeTimeout
    } else if status == STATUS_DLL_NOT_FOUND {
        LaunchFailure::DllNotFound
    } else if status == STATUS_NO_ASSOC {
        LaunchFailure::NoAssoc
    } else if status == STATUS_OUT_OF_MEMORY {
        LaunchFailure::OutOfMemory
    } else if status == STATUS_SHARING_VIOLATION {
        LaunchFailure::SharingViolation
    } else {
        LaunchFailure::Unknown
    }
}

/// Decide whether a status code reports success: every code above the
/// threshold is success, and every code at or below it is exactly the
/// failure that `launch_failure_of` names.
pub fn check_shellexecute_status(status: u32) -> (r: Result<(), LaunchFailure>)
    ensures
        r is Ok <==> status > STATUS_SUCCESS_THRESHOLD,
        status <= STATUS_SUCCESS_THRESHOLD ==> r == Result::<(), LaunchFailure>::Err(
            launch_failure_of(status),
        ),
{
    if status > STATUS_SUCCESS_THRESHOLD {
        Ok(())
    } else if status == STATUS_OUT_OF_RESOURCES {
        Err(LaunchFailure::OutOfResources)
    } else if status == STATUS_FILE_NOT_FOUND {
        Err(LaunchFailure::FileNotFound)
    } else if status == STATUS_PATH_NOT_FOUND {
        Err(LaunchFailure::PathNotFound)
    } else if status == STATUS_BAD_FORMAT {
        Err(LaunchFailure::BadFormat)
    } else if status == STATUS_ACCESS_DENIED {
        Err(LaunchFailure::AccessDenied)
    } else if status == STATUS_ASSOC_INCOMPLETE {
        Err(LaunchFailure::AssocIncomplete)
    } else if status == STATUS_DDE_BUSY {
        Err(LaunchFailure::DdeBusy)
    } else if status == STATUS_DDE_FAIL {
        Err(LaunchFailure::DdeFail)
    } else if status == STATUS_DDE_TIMEOUT {
        Err(LaunchFailure::DdeTimeout)
    } else if status == STATUS_DLL_NOT_FOUND {
        Err(LaunchFailure::DllNotFound)
    } else if status == STATUS_NO_ASSOC {
        Err(LaunchFailure::NoAssoc)
    } else if status == STATUS_OUT_OF_MEMORY {
        Err(LaunchFailure::OutOfMemory)
    } else if status == STATUS_SHARING_VIOLATION {
        Err(LaunchFailure::SharingViolation)
    } else {
        Err(LaunchFailure::Unknown)
    }
}

impl LaunchFailure {
    /// The human-readable text for this failure reason.
    pub open spec fn message_spec(self) -> Seq<char> {
        match self {
            LaunchFailure::OutOfResources => " The operating system is out of memory or resources."@,
            LaunchFailure::FileNotFound => "The specified file was not found"@,
            LaunchFailure::PathNotFound => "The specified path was not found."@,
            LaunchFailure::BadFormat => "The .exe file is invalid (non-Win32 .exe or error in .exe image)."@,
            LaunchFailure::AccessDenied => "The operating system denied access to the specified file."@,
            LaunchFailure::AssocIncomplete => "The file name association is incomplete or invalid."@,
            LaunchFailure::DdeBusy => "The DDE transaction could not be completed because other DDE transactions were being processed."@,
            LaunchFailure::DdeFail => "The DDE transaction failed."@,
            LaunchFailure::DdeTimeout => "The DDE transaction could not be completed because the request timed out."@,
            LaunchFailure::DllNotFound => "The specified DLL was not found."@,
            LaunchFailure::NoAssoc => "There is no application associated with the given file name extension."@,
            LaunchFailure::OutOfMemory => "There was not enough memory to complete the operation."@,
            LaunchFailure::SharingViolation => "A sharing violation occurred. "@,
            LaunchFailure::Unknown => "An unknown error occurred."@,
        }
    }

    /// Build the human-readable text for this failure reason.
    pub fn message(&self) -> (r: String)
        ensures
            r@ == self.message_spec(),
    {
        match self {
            LaunchFailure::OutOfResources => String::from_str(
                " The operating system is out of memory or resources.",
            ),
            LaunchFailure::FileNotFound => String::from_str("The specified file was not found"),
            LaunchFailure::PathNotFound => String::from_str("The specified path was not found."),
            LaunchFailure::BadFormat => String::from_str(
                "The .exe file is invalid (non-Win32 .exe or error in .exe image).",
            ),
            LaunchFailure::AccessDenied => String::from_str(
                "The operating system denied access to the specified file.",
            ),
            LaunchFailure::AssocIncomplete => String::from_str(
                "The file name association is incomplete or invalid.",
            ),
            LaunchFailure::DdeBusy => String::from_str(
                "The DDE transaction could not be completed because other DDE transactions were being processed.",
            ),
            LaunchFailure::DdeFail => String::from_str("The DDE transaction failed."),
            LaunchFailure::DdeTimeout => String::from_str(
                "The DDE transaction could not be completed because the request timed out.",
            ),
            LaunchFailure::DllNotFound => String::from_str("The specified DLL was not found."),
            LaunchFailure::NoAssoc => String::from_str(
                "There is no application associated with the given file name extension.",
            ),
            LaunchFailure::OutOfMemory => String::from_str(
                "There was not enough memory to complete the operation.",
            ),
            LaunchFailure::SharingViolation => String::from_str("A sharing violation occurred. "),
            LaunchFailure::Unknown => String::from_str("An unknown error occurred."),
        }
    }
}

} // verus!
