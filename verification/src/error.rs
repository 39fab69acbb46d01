use vstd::prelude::*;

verus! {

/// Success status in the driver's status-code convention.
pub const S_OK: i32 = 0;

/// Status the driver reports when a member name cannot be resolved
/// (`0x80020006` read as a signed 32-bit status).
pub const DISP_E_UNKNOWNNAME: i32 = -2147352570;

/// Status the driver reports when a resolved member does not answer the
/// requested dispatch kind (`0x80020003` read as a signed 32-bit status).
pub const DISP_E_MEMBERNOTFOUND: i32 = -2147352573;

/// Status standing for a class-identifier string that could not be parsed
/// (`0x800401F3` read as a signed 32-bit status).
pub const CO_E_CLASSSTRING: i32 = -2147221005;

/// Why an operation against the device failed.  Every failure is terminal:
/// the caller gets the offending member name and the raw driver status where
/// one exists, and no partial value is ever returned beside an error.
#[derive(Debug)]
pub enum QrngError {
    /// Entering the host's automation apartment failed.
    EnvironmentInitFailed { status: i32 },
    /// The device object could not be created (including "device not
    /// registered" and an unparsable class identifier).
    DeviceCreateFailed { status: i32 },
    /// The driver knows no member of the given name.
    MemberNotFound { name: String, status: i32 },
    /// The driver reported a failure while invoking the member.
    InvokeFailed { name: String, status: i32 },
    /// The returned value carried a tag other than the expected one.
    UnexpectedType { expected: u16, got: u16 },
    /// Querying the index bounds of a returned array failed.
    BoundsQueryFailed,
    /// The backing buffer of a returned array could not be locked.
    ArrayLockFailed,
}

/// Holds when `r` reports that resolving the member name `name` failed.
pub open spec fn errs_member_not_found<T>(r: Result<T, QrngError>, name: Seq<char>) -> bool {
    &&& r matches Err(e)
    &&& e matches QrngError::MemberNotFound { name: n, status }
    &&& n@ == name
    &&& status == DISP_E_UNKNOWNNAME
}

/// Holds when `r` reports that invoking the member `name` failed with the
/// driver status `status`.
pub open spec fn errs_invoke_failed<T>(r: Result<T, QrngError>, name: Seq<char>, status: i32) -> bool {
    &&& r matches Err(e)
    &&& e matches QrngError::InvokeFailed { name: n, status: s }
    &&& n@ == name
    &&& s == status
}

} // verus!
