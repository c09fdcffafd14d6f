use vstd::prelude::*;

verus! {

/// Status codes that a card answers with.
#[derive(Copy, Clone, Debug, PartialEq, Eq, Structural)]
pub enum StatusCode {
    /// Unknown status code
    Other(u8),
    /// Everything's OK!
    Ack,
    /// No changes
    NoChanges,
    /// Out of memory
    OutOfMemory,
    /// Illegal Command
    IllegalCommand,
    /// Integrity error
    IntegrityError,
    /// Key does not exist
    KeyDoesNotExist,
    /// Wrong command length
    WrongCommandLength,
    /// Permission denied
    PermissionDenied,
    /// Incorrect command arguments
    IncorrectArguments,
    /// Application does not exist
    ApplicationDoesNotExist,
    /// Application integrity error
    ApplicationIntegrityError,
    /// Authentication error
    AuthenticationError,
    /// Additional Data
    AdditionalData,
    /// Limit exceeded
    LimitExceeded,
    /// Card integrity error
    CardIntegrityError,
    /// Command aborted
    CommandAborted,
    /// Card disabled
    CardDisabled,
    /// Invalid application
    InvalidApplication,
    /// Duplicate application
    DuplicateApplication,
    /// EEPROM error
    EepromError,
    /// File not found
    FileNotFound,
    /// File integrity error
    FileIntegrityError,
}

/// The byte that stands on the wire for a status code.
pub open spec fn status_code_byte(sc: StatusCode) -> u8 {
    match sc {
        StatusCode::Other(code) => code,
        StatusCode::Ack => 0x00,
        StatusCode::NoChanges => 0x0C,
        StatusCode::OutOfMemory => 0x0E,
        StatusCode::IllegalCommand => 0x1C,
        StatusCode::IntegrityError => 0x1E,
        StatusCode::KeyDoesNotExist => 0x40,
        StatusCode::WrongCommandLength => 0x7E,
        StatusCode::PermissionDenied => 0x9D,
        StatusCode::IncorrectArguments => 0x9E,
        StatusCode::ApplicationDoesNotExist => 0xA0,
        StatusCode::ApplicationIntegrityError => 0xA1,
        StatusCode::AuthenticationError => 0xAE,
        StatusCode::AdditionalData => 0xAF,
        StatusCode::LimitExceeded => 0xBE,
        StatusCode::CardIntegrityError => 0xC1,
        StatusCode::CommandAborted => 0xCA,
        StatusCode::CardDisabled => 0xCD,
        StatusCode::InvalidApplication => 0xCE,
        StatusCode::DuplicateApplication => 0xDE,
        StatusCode::EepromError => 0xEE,
        StatusCode::FileNotFound => 0xF0,
        StatusCode::FileIntegrityError => 0xF1,
    }
}

/// The status code that a byte received from the card stands for: a named
/// code where one exists, [StatusCode::Other] otherwise.
pub open spec fn status_code_of_byte(v: u8) -> StatusCode {
    if v == 0x00 { StatusCode::Ack }
    else if v == 0x0C { StatusCode::NoChanges }
    else if v == 0x0E { StatusCode::OutOfMemory }
    else if v == 0x1C { StatusCode::IllegalCommand }
    else if v == 0x1E { StatusCode::IntegrityError }
    else if v == 0x40 { StatusCode::KeyDoesNotExist }
    else if v == 0x7E { StatusCode::WrongCommandLength }
    else if v == 0x9D { StatusCode::PermissionDenied }
    else if v == 0x9E { StatusCode::IncorrectArguments }
    else if v == 0xA0 { StatusCode::ApplicationDoesNotExist }
    else if v == 0xA1 { StatusCode::ApplicationIntegrityError }
    else if v == 0xAE { StatusCode::AuthenticationError }
    else if v == 0xAF { StatusCode::AdditionalData }
    else if v == 0xBE { StatusCode::LimitExceeded }
    else if v == 0xC1 { StatusCode::CardIntegrityError }
    else if v == 0xCA { StatusCode::CommandAborted }
    else if v == 0xCD { StatusCode::CardDisabled }
    else if v == 0xCE { StatusCode::InvalidApplication }
    else if v == 0xDE { StatusCode::DuplicateApplication }
    else if v == 0xEE { StatusCode::EepromError }
    else if v == 0xF0 { StatusCode::FileNotFound }
    else if v == 0xF1 { StatusCode::FileIntegrityError }
    else { StatusCode::Other(v) }
}

impl StatusCode {
    /// Convert the [StatusCode] into a u8
    pub fn as_u8(&self) -> (r: u8)
        ensures
            r == status_code_byte(*self),
    {
        match self {
            StatusCode::Other(code) => *code,
            StatusCode::Ack => 0x00,
            StatusCode::NoChanges => 0x0C,
            StatusCode::OutOfMemory => 0x0E,
            StatusCode::IllegalCommand => 0x1C,
            StatusCode::IntegrityError => 0x1E,
            StatusCode::KeyDoesNotExist => 0x40,
            StatusCode::WrongCommandLength => 0x7E,
            StatusCode::PermissionDenied => 0x9D,
            StatusCode::IncorrectArguments => 0x9E,
            StatusCode::ApplicationDoesNotExist => 0xA0,
            StatusCode::ApplicationIntegrityError => 0xA1,
            StatusCode::AuthenticationError => 0xAE,
            StatusCode::AdditionalData => 0xAF,
            StatusCode::LimitExceeded => 0xBE,
            StatusCode::CardIntegrityError => 0xC1,
            StatusCode::CommandAborted => 0xCA,
            StatusCode::CardDisabled => 0xCD,
            StatusCode::InvalidApplication => 0xCE,
            StatusCode::DuplicateApplication => 0xDE,
            StatusCode::EepromError => 0xEE,
            StatusCode::FileNotFound => 0xF0,
            StatusCode::FileIntegrityError => 0xF1,
        }
    }

    /// Convert a u8 into a [StatusCode].
    pub fn from_u8(v: u8) -> (r: Self)
        ensures
            r == status_code_of_byte(v),
    {
        match v {
            0x00 => StatusCode::Ack,
            0x0C => StatusCode::NoChanges,
            0x0E => StatusCode::OutOfMemory,
            0x1C => StatusCode::IllegalCommand,
            0x1E => StatusCode::IntegrityError,
            0x40 => StatusCode::KeyDoesNotExist,
            0x7E => StatusCode::WrongCommandLength,
            0x9D => StatusCode::PermissionDenied,
            0x9E => StatusCode::IncorrectArguments,
            0xA0 => StatusCode::ApplicationDoesNotExist,
            0xA1 => StatusCode::ApplicationIntegrityError,
            0xAE => StatusCode::AuthenticationError,
            0xAF => StatusCode::AdditionalData,
            0xBE => StatusCode::LimitExceeded,
            0xC1 => StatusCode::CardIntegrityError,
            0xCA => StatusCode::CommandAborted,
            0xCD => StatusCode::CardDisabled,
            0xCE => StatusCode::InvalidApplication,
            0xDE => StatusCode::DuplicateApplication,
            0xEE => StatusCode::EepromError,
            0xF0 => StatusCode::FileNotFound,
            0xF1 => StatusCode::FileIntegrityError,
            _ => StatusCode::Other(v),
        }
    }
}

/// Reading the byte of a status code gives that byte back: for every byte
/// `v`, `status_code_byte(status_code_of_byte(v)) == v`.
pub proof fn lemma_status_code_byte_round_trip(v: u8)
    ensures
        status_code_byte(status_code_of_byte(v)) == v,
{
}

/// A status code that is not an `Other` standing for a named code survives
/// being written as a byte and read back.
pub proof fn lemma_status_code_round_trip(sc: StatusCode)
    requires
        sc matches StatusCode::Other(v) ==> status_code_of_byte(v) is Other,
    ensures
        status_code_of_byte(status_code_byte(sc)) == sc,
{
}

impl From<u8> for StatusCode {
    fn from(u: u8) -> (r: Self) {
        Self::from_u8(u)
    }
}

impl vstd::std_specs::convert::FromSpecImpl<u8> for StatusCode {
    open spec fn obeys_from_spec() -> bool {
        true
    }

    open spec fn from_spec(u: u8) -> Self {
        status_code_of_byte(u)
    }
}

impl From<StatusCode> for u8 {
    fn from(sc: StatusCode) -> (r: Self) {
        sc.as_u8()
    }
}

impl vstd::std_specs::convert::FromSpecImpl<StatusCode> for u8 {
    open spec fn obeys_from_spec() -> bool {
        true
    }

    open spec fn from_spec(sc: StatusCode) -> Self {
        status_code_byte(sc)
    }
}

/// The two codes every exchange turns on: a byte reads as Ack exactly when
/// it is 0x00, and as AdditionalData ("the card has more, or wants more")
/// exactly when it is 0xAF; and these codes are written as those bytes.
pub proof fn lemma_status_code_ack_and_more(v: u8)
    ensures
        status_code_of_byte(v) == StatusCode::Ack <==> v == 0x00,
        status_code_of_byte(v) == StatusCode::AdditionalData <==> v == 0xAF,
        status_code_byte(StatusCode::Ack) == 0x00,
        status_code_byte(StatusCode::AdditionalData) == 0xAF,
{
}

} // verus!
