//! Status codes of the native library, and the typed results made of them.
//!
//! The native library reports every outcome as an integer: zero for success,
//! any other value for a failure. A code is turned into a typed result at the
//! one place where a call returns or a completion fires, and goes no further
//! as a bare integer.

use vstd::prelude::*;

verus! {

/// The status code that reports success.
pub const STATUS_OK: i32 = 0;

/// The largest status code that has a failure kind of its own.
pub const STATUS_LAST_KNOWN: i32 = 43;

/// A failure reported by the native library.
#[derive(Clone, Copy, Debug, PartialEq, Eq, Structural)]
pub enum Error {
    ServiceUnavailable,
    InvalidVersion,
    LockFailed,
    InternalError,
    InvalidPayload,
    InvalidCommand,
    InvalidPermissions,
    NotFetched,
    NotFound,
    Conflict,
    InvalidSecret,
    InvalidJoinSecret,
    NoEligibleActivity,
    InvalidInvite,
    NotAuthenticated,
    InvalidAccessToken,
    ApplicationMismatch,
    InvalidDataUrl,
    InvalidBase64,
    NotFiltered,
    LobbyFull,
    InvalidLobbySecret,
    InvalidFilename,
    InvalidFileSize,
    InvalidEntitlement,
    NotInstalled,
    NotRunning,
    InsufficientBuffer,
    PurchaseCanceled,
    InvalidGuild,
    InvalidEvent,
    InvalidChannel,
    InvalidOrigin,
    RateLimited,
    OAuth2Error,
    SelectChannelTimeout,
    GetGuildTimeout,
    SelectVoiceForceRequired,
    CaptureShortcutAlreadyListening,
    UnauthorizedForAchievement,
    InvalidGiftCode,
    PurchaseError,
    TransactionAborted,
    /// A failure code that has no kind of its own; it is kept as it came.
    Unrecognized(i32),
}

/// The failure that a non-zero status code stands for.
pub open spec fn error_of(code: i32) -> Error {
    match code {
        1 => Error::ServiceUnavailable,
        2 => Error::InvalidVersion,
        3 => Error::LockFailed,
        4 => Error::InternalError,
        5 => Error::InvalidPayload,
        6 => Error::InvalidCommand,
        7 => Error::InvalidPermissions,
        8 => Error::NotFetched,
        9 => Error::NotFound,
        10 => Error::Conflict,
        11 => Error::InvalidSecret,
        12 => Error::InvalidJoinSecret,
        13 => Error::NoEligibleActivity,
        14 => Error::InvalidInvite,
        15 => Error::NotAuthenticated,
        16 => Error::InvalidAccessToken,
        17 => Error::ApplicationMismatch,
        18 => Error::InvalidDataUrl,
        19 => Error::InvalidBase64,
        20 => Error::NotFiltered,
        21 => Error::LobbyFull,
        22 => Error::InvalidLobbySecret,
        23 => Error::InvalidFilename,
        24 => Error::InvalidFileSize,
        25 => Error::InvalidEntitlement,
        26 => Error::NotInstalled,
        27 => Error::NotRunning,
        28 => Error::InsufficientBuffer,
        29 => Error::PurchaseCanceled,
        30 => Error::InvalidGuild,
        31 => Error::InvalidEvent,
        32 => Error::InvalidChannel,
        33 => Error::InvalidOrigin,
        34 => Error::RateLimited,
        35 => Error::OAuth2Error,
        36 => Error::SelectChannelTimeout,
        37 => Error::GetGuildTimeout,
        38 => Error::SelectVoiceForceRequired,
        39 => Error::CaptureShortcutAlreadyListening,
        40 => Error::UnauthorizedForAchievement,
        41 => Error::InvalidGiftCode,
        42 => Error::PurchaseError,
        43 => Error::TransactionAborted,
        _ => Error::Unrecognized(code),
    }
}

/// What a status code means: success for zero, else the failure it stands for.
pub open spec fn result_of(code: i32) -> Result<(), Error> {
    if code == STATUS_OK {
        Ok(())
    } else {
        Err(error_of(code))
    }
}

/// What a completion delivers: the values that came with it on success, the
/// failure alone on any other status code.
pub open spec fn completion_of<T>(code: i32, value: T) -> Result<T, Error> {
    if code == STATUS_OK {
        Ok(value)
    } else {
        Err(error_of(code))
    }
}

impl Error {
    /// The status code that this failure was made from.
    pub open spec fn spec_code(self) -> i32 {
        match self {
            Error::ServiceUnavailable => 1,
            Error::InvalidVersion => 2,
            Error::LockFailed => 3,
            Error::InternalError => 4,
            Error::InvalidPayload => 5,
            Error::InvalidCommand => 6,
            Error::InvalidPermissions => 7,
            Error::NotFetched => 8,
            Error::NotFound => 9,
            Error::Conflict => 10,
            Error::InvalidSecret => 11,
            Error::InvalidJoinSecret => 12,
            Error::NoEligibleActivity => 13,
            Error::InvalidInvite => 14,
            Error::NotAuthenticated => 15,
            Error::InvalidAccessToken => 16,
            Error::ApplicationMismatch => 17,
            Error::InvalidDataUrl => 18,
            Error::InvalidBase64 => 19,
            Error::NotFiltered => 20,
            Error::LobbyFull => 21,
            Error::InvalidLobbySecret => 22,
            Error::InvalidFilename => 23,
            Error::InvalidFileSize => 24,
            Error::InvalidEntitlement => 25,
            Error::NotInstalled => 26,
            Error::NotRunning => 27,
            Error::InsufficientBuffer => 28,
            Error::PurchaseCanceled => 29,
            Error::InvalidGuild => 30,
            Error::InvalidEvent => 31,
            Error::InvalidChannel => 32,
            Error::InvalidOrigin => 33,
            Error::RateLimited => 34,
            Error::OAuth2Error => 35,
            Error::SelectChannelTimeout => 36,
            Error::GetGuildTimeout => 37,
            Error::SelectVoiceForceRequired => 38,
            Error::CaptureShortcutAlreadyListening => 39,
            Error::UnauthorizedForAchievement => 40,
            Error::InvalidGiftCode => 41,
            Error::PurchaseError => 42,
            Error::TransactionAborted => 43,
            Error::Unrecognized(code) => code,
        }
    }

    /// A failure is well formed when it could have come from a status code:
    /// `Unrecognized` never holds zero or a code with a kind of its own.
    pub open spec fn wf(self) -> bool {
        match self {
            Error::Unrecognized(code) => code < STATUS_OK || code > STATUS_LAST_KNOWN,
            _ => true,
        }
    }

    /// The status code that this failure was made from.
    pub fn code(&self) -> (code: i32)
        ensures
            code == self.spec_code(),
            self.wf() ==> code != STATUS_OK && error_of(code) == *self,
    {
        match self {
            Error::ServiceUnavailable => 1,
            Error::InvalidVersion => 2,
            Error::LockFailed => 3,
            Error::InternalError => 4,
            Error::InvalidPayload => 5,
            Error::InvalidCommand => 6,
            Error::InvalidPermissions => 7,
            Error::NotFetched => 8,
            Error::NotFound => 9,
            Error::Conflict => 10,
            Error::InvalidSecret => 11,
            Error::InvalidJoinSecret => 12,
            Error::NoEligibleActivity => 13,
            Error::InvalidInvite => 14,
            Error::NotAuthenticated => 15,
            Error::InvalidAccessToken => 16,
            Error::ApplicationMismatch => 17,
            Error::InvalidDataUrl => 18,
            Error::InvalidBase64 => 19,
            Error::NotFiltered => 20,
            Error::LobbyFull => 21,
            Error::InvalidLobbySecret => 22,
            Error::InvalidFilename => 23,
            Error::InvalidFileSize => 24,
            Error::InvalidEntitlement => 25,
            Error::NotInstalled => 26,
            Error::NotRunning => 27,
            Error::InsufficientBuffer => 28,
            Error::PurchaseCanceled => 29,
            Error::InvalidGuild => 30,
            Error::InvalidEvent => 31,
            Error::InvalidChannel => 32,
            Error::InvalidOrigin => 33,
            Error::RateLimited => 34,
            Error::OAuth2Error => 35,
            Error::SelectChannelTimeout => 36,
            Error::GetGuildTimeout => 37,
            Error::SelectVoiceForceRequired => 38,
            Error::CaptureShortcutAlreadyListening => 39,
            Error::UnauthorizedForAchievement => 40,
            Error::InvalidGiftCode => 41,
            Error::PurchaseError => 42,
            Error::TransactionAborted => 43,
            Error::Unrecognized(code) => *code,
        }
    }

    /// The failure that `code` stands for, or `None` for the success code.
    pub fn from_code(code: i32) -> (r: Option<Error>)
        ensures
            r == (if code == STATUS_OK {
                None
            } else {
                Some(error_of(code))
            }),
    {
        if code == 0 {
            None
        } else {
            Some(failure(code))
        }
    }
}

fn failure(code: i32) -> (e: Error)
    requires
        code != STATUS_OK,
    ensures
        e == error_of(code),
{
    match code {
        1 => Error::ServiceUnavailable,
        2 => Error::InvalidVersion,
        3 => Error::LockFailed,
        4 => Error::InternalError,
        5 => Error::InvalidPayload,
        6 => Error::InvalidCommand,
        7 => Error::InvalidPermissions,
        8 => Error::NotFetched,
        9 => Error::NotFound,
        10 => Error::Conflict,
        11 => Error::InvalidSecret,
        12 => Error::InvalidJoinSecret,
        13 => Error::NoEligibleActivity,
        14 => Error::InvalidInvite,
        15 => Error::NotAuthenticated,
        16 => Error::InvalidAccessToken,
        17 => Error::ApplicationMismatch,
        18 => Error::InvalidDataUrl,
        19 => Error::InvalidBase64,
        20 => Error::NotFiltered,
        21 => Error::LobbyFull,
        22 => Error::InvalidLobbySecret,
        23 => Error::InvalidFilename,
        24 => Error::InvalidFileSize,
        25 => Error::InvalidEntitlement,
        26 => Error::NotInstalled,
        27 => Error::NotRunning,
        28 => Error::InsufficientBuffer,
        29 => Error::PurchaseCanceled,
        30 => Error::InvalidGuild,
        31 => Error::InvalidEvent,
        32 => Error::InvalidChannel,
        33 => Error::InvalidOrigin,
        34 => Error::RateLimited,
        35 => Error::OAuth2Error,
        36 => Error::SelectChannelTimeout,
        37 => Error::GetGuildTimeout,
        38 => Error::SelectVoiceForceRequired,
        39 => Error::CaptureShortcutAlreadyListening,
        40 => Error::UnauthorizedForAchievement,
        41 => Error::InvalidGiftCode,
        42 => Error::PurchaseError,
        43 => Error::TransactionAborted,
        _ => Error::Unrecognized(code),
    }
}

/// Every failure status code yields a failure that carries that very code,
/// and failures of different codes differ.
pub proof fn lemma_failure_keeps_code(code: i32)
    requires
        code != STATUS_OK,
    ensures
        result_of(code) == Err::<(), Error>(error_of(code)),
        error_of(code).spec_code() == code,
        error_of(code).wf(),
        forall|other: i32| error_of(other) == error_of(code) ==> other == code,
{
    assert forall|other: i32| error_of(other) == error_of(code) implies other == code by {
        assert(error_of(other).spec_code() == error_of(code).spec_code());
        lemma_code_kept(other);
    }
    lemma_code_kept(code);
}

proof fn lemma_code_kept(code: i32)
    ensures
        code != STATUS_OK ==> error_of(code).spec_code() == code && error_of(code).wf(),
        code == STATUS_OK ==> error_of(code) == Error::Unrecognized(0),
{
}

/// Turns a status code into a typed result.
pub fn to_result(code: i32) -> (r: Result<(), Error>)
    ensures
        r == result_of(code),
{
    if code == 0 {
        Ok(())
    } else {
        Err(failure(code))
    }
}

/// Turns the status code of a completion, and the value that the native
/// library handed over with it, into a typed result. On a failure the value
/// is dropped: the result then holds the failure and nothing else.
pub fn complete<T>(code: i32, value: T) -> (r: Result<T, Error>)
    ensures
        r == completion_of(code, value),
        code != STATUS_OK ==> r == Err::<T, Error>(error_of(code)),
{
    if code == 0 {
        Ok(value)
    } else {
        Err(failure(code))
    }
}

} // verus!
