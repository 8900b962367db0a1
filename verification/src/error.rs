//! Error values shared by the wrappers and the mapping from SDK status codes.

use vstd::prelude::*;

verus! {

/// Lets `std::io::ErrorKind` stand in the `Io` variant; its contents are opaque here.
#[verifier::external_type_specification]
#[verifier::external_body]
pub struct ExIoErrorKind(std::io::ErrorKind);

/// `ErrorKind::clone`: the kind is a plain `Copy` enum, so the clone is the same kind.
pub assume_specification[ <std::io::ErrorKind as Clone>::clone ](kind: &std::io::ErrorKind) -> (r: std::io::ErrorKind)
    ensures
        r == *kind,
;

/// SDK status code for success.
pub const SZ_OK: i32 = 0;
/// SDK status code for corrupt input data.
pub const SZ_ERROR_DATA: i32 = 1;
/// SDK status code for a failed allocation.
pub const SZ_ERROR_MEM: i32 = 2;
/// SDK status code for a checksum mismatch.
pub const SZ_ERROR_CRC: i32 = 3;
/// SDK status code for an unsupported feature.
pub const SZ_ERROR_UNSUPPORTED: i32 = 4;
/// SDK status code for an invalid parameter.
pub const SZ_ERROR_PARAM: i32 = 5;
/// SDK status code for a premature end of input.
pub const SZ_ERROR_INPUT_EOF: i32 = 6;
/// SDK status code for a full output buffer.
pub const SZ_ERROR_OUTPUT_EOF: i32 = 7;
/// SDK status code for a failed read callback.
pub const SZ_ERROR_READ: i32 = 8;
/// SDK status code for a failed write callback.
pub const SZ_ERROR_WRITE: i32 = 9;
/// SDK status code for a failed progress callback.
pub const SZ_ERROR_PROGRESS: i32 = 10;
/// SDK status code for an internal failure.
pub const SZ_ERROR_FAIL: i32 = 11;
/// SDK status code for a threading failure.
pub const SZ_ERROR_THREAD: i32 = 12;
/// SDK status code for an archive-level error.
pub const SZ_ERROR_ARCHIVE: i32 = 16;
/// SDK status code for input that is not an archive.
pub const SZ_ERROR_NO_ARCHIVE: i32 = 17;

/// Error values returned by the safe LZMA SDK wrappers.
#[derive(Debug, Clone, PartialEq, Eq)]
pub enum Error {
    /// Input data is structurally invalid or corrupt.
    Data,
    /// The SDK could not allocate enough memory to complete the operation.
    Mem,
    /// A checksum embedded in the payload did not match the decoded contents.
    Crc,
    /// The requested SDK operation or encoded feature is not supported.
    Unsupported,
    /// The caller supplied invalid parameters to the encoder or decoder.
    Param,
    /// The decoder reached the end of input before the stream finished.
    InputEof,
    /// The provided output buffer was too small to complete the operation.
    OutputEof,
    /// A read callback returned an SDK read error.
    Read,
    /// A write callback returned an SDK write error.
    Write,
    /// The SDK progress callback reported a failure.
    Progress,
    /// The SDK reported an internal failure without a more specific status.
    Fail,
    /// The SDK reported a threading-related failure.
    Thread,
    /// The SDK detected an archive-level error while decoding container data.
    Archive,
    /// The input did not contain a recognized archive.
    NoArchive,
    /// A requested or computed buffer size overflowed `usize`.
    SizeOverflow,
    /// A Rust I/O operation failed while reading from or writing to a safe wrapper.
    Io {
        /// Lossy I/O error classification kept by the wrapper.
        kind: std::io::ErrorKind,
        /// Short context string describing the operation that failed.
        context: String,
    },
    /// A high-level option value failed validation before reaching the SDK.
    InvalidOption {
        /// Name of the rejected option.
        name: String,
        /// Human-readable validation failure details.
        details: String,
    },
    /// The current SDK feature set cannot support a requested high-level capability.
    UnsupportedFeature(String),
    /// Fallback for status codes not modeled by this wrapper yet.
    Unknown(i32),
}

/// The character of a decimal digit.
pub open spec fn digit_char(d: int) -> char {
    (48 + d) as char
}

/// The decimal digits of `n`, most significant first, without leading zeros.
pub open spec fn decimal_digits(n: nat) -> Seq<char>
    decreases n,
{
    if n < 10 {
        seq![digit_char(n as int)]
    } else {
        decimal_digits(n / 10).push(digit_char((n % 10) as int))
    }
}

/// How `v` is written in decimal: an optional minus sign, then its digits.
pub open spec fn spec_decimal(v: i32) -> Seq<char> {
    if v < 0 {
        seq!['-'] + decimal_digits((-v) as nat)
    } else {
        decimal_digits(v as nat)
    }
}

/// The one-character text of a decimal digit.
fn digit_text(d: u32) -> (r: &'static str)
    requires
        d < 10,
    ensures
        r@ == seq![digit_char(d as int)],
{
    match d {
        0 => {
            proof {
                reveal_strlit("0");
            }
            "0"
        },
        1 => {
            proof {
                reveal_strlit("1");
            }
            "1"
        },
        2 => {
            proof {
                reveal_strlit("2");
            }
            "2"
        },
        3 => {
            proof {
                reveal_strlit("3");
            }
            "3"
        },
        4 => {
            proof {
                reveal_strlit("4");
            }
            "4"
        },
        5 => {
            proof {
                reveal_strlit("5");
            }
            "5"
        },
        6 => {
            proof {
                reveal_strlit("6");
            }
            "6"
        },
        7 => {
            proof {
                reveal_strlit("7");
            }
            "7"
        },
        8 => {
            proof {
                reveal_strlit("8");
            }
            "8"
        },
        _ => {
            proof {
                reveal_strlit("9");
            }
            "9"
        },
    }
}

/// Appends the decimal digits of `n` to `text`.
fn append_decimal(text: &mut String, n: u32)
    ensures
        final(text)@ == old(text)@ + decimal_digits(n as nat),
    decreases n,
{
    if n >= 10 {
        append_decimal(text, n / 10);
    }
    text.append(digit_text(n % 10));
    proof {
        if n >= 10 {
            assert(old(text)@ + decimal_digits((n / 10) as nat) + seq![digit_char((n % 10) as int)]
                =~= old(text)@ + decimal_digits(n as nat));
        }
    }
}

/// `v` written in decimal, with a minus sign when negative.
fn decimal_text(v: i32) -> (r: String)
    ensures
        r@ == spec_decimal(v),
{
    let mut text = String::new();
    if v < 0 {
        proof {
            reveal_strlit("-");
        }
        text.append("-");
        let magnitude: u32 = (-(v as i64)) as u32;
        append_decimal(&mut text, magnitude);
    } else {
        append_decimal(&mut text, v as u32);
    }
    text
}

/// The text `std::io::ErrorKind` writes through `Display`.
pub uninterp spec fn io_error_kind_text(kind: std::io::ErrorKind) -> Seq<char>;

/// `std::io::ErrorKind` written through `Display`; the text depends on the kind alone.
#[verifier::external_body]
fn io_kind_text(kind: std::io::ErrorKind) -> (r: String)
    ensures
        r@ == io_error_kind_text(kind),
{
    format!("{kind}")
}

/// The human-readable message of each error.
pub open spec fn spec_message(e: Error) -> Seq<char> {
    match e {
        Error::Data => "LZMA data error"@,
        Error::Mem => "LZMA memory allocation error"@,
        Error::Crc => "LZMA CRC error"@,
        Error::Unsupported => "LZMA unsupported feature"@,
        Error::Param => "LZMA invalid parameter"@,
        Error::InputEof => "LZMA input ended early"@,
        Error::OutputEof => "LZMA output buffer too small"@,
        Error::Read => "LZMA read error"@,
        Error::Write => "LZMA write error"@,
        Error::Progress => "LZMA progress callback error"@,
        Error::Fail => "LZMA internal failure"@,
        Error::Thread => "LZMA threading error"@,
        Error::Archive => "LZMA archive error"@,
        Error::NoArchive => "LZMA archive not found"@,
        Error::SizeOverflow => "LZMA buffer size overflow"@,
        Error::Io { kind, context } => context@ + " I/O error: "@ + io_error_kind_text(kind),
        Error::InvalidOption { name, details } => "invalid option `"@ + name@ + "`: "@ + details@,
        Error::UnsupportedFeature(feature) => "unsupported feature: "@ + feature@,
        Error::Unknown(code) => "unknown LZMA status code "@ + spec_decimal(code),
    }
}

/// The short `xz(1)`-style message of each error.
pub open spec fn spec_xz_message(e: Error) -> Seq<char> {
    match e {
        Error::Data => "Compressed data is corrupt"@,
        Error::Mem => "Memory allocation failed"@,
        Error::Crc => "Integrity check failed"@,
        Error::Unsupported | Error::UnsupportedFeature(_) => "Unsupported options"@,
        Error::Param | Error::InvalidOption { .. } => "Invalid or unsupported options"@,
        Error::InputEof => "Unexpected end of input"@,
        Error::OutputEof => "Output buffer is too small"@,
        Error::Read => "Read error"@,
        Error::Write => "Write error"@,
        Error::Progress | Error::Fail | Error::Thread | Error::Archive | Error::NoArchive =>
            "Internal error (bug)"@,
        Error::SizeOverflow => "Size overflow"@,
        Error::Io { .. } => "I/O error"@,
        Error::Unknown(_) => "Unknown error"@,
    }
}

impl Error {
    /// Returns the human-readable message for the current error.
    pub fn message(&self) -> (r: String)
        ensures
            r@ == spec_message(*self),
    {
        match self {
            Error::Data => String::from_str("LZMA data error"),
            Error::Mem => String::from_str("LZMA memory allocation error"),
            Error::Crc => String::from_str("LZMA CRC error"),
            Error::Unsupported => String::from_str("LZMA unsupported feature"),
            Error::Param => String::from_str("LZMA invalid parameter"),
            Error::InputEof => String::from_str("LZMA input ended early"),
            Error::OutputEof => String::from_str("LZMA output buffer too small"),
            Error::Read => String::from_str("LZMA read error"),
            Error::Write => String::from_str("LZMA write error"),
            Error::Progress => String::from_str("LZMA progress callback error"),
            Error::Fail => String::from_str("LZMA internal failure"),
            Error::Thread => String::from_str("LZMA threading error"),
            Error::Archive => String::from_str("LZMA archive error"),
            Error::NoArchive => String::from_str("LZMA archive not found"),
            Error::SizeOverflow => String::from_str("LZMA buffer size overflow"),
            Error::Io { kind, context } => {
                let mut text = context.clone();
                text.append(" I/O error: ");
                let kind_text = io_kind_text(*kind);
                text.append(kind_text.as_str());
                text
            },
            Error::InvalidOption { name, details } => {
                let mut text = String::from_str("invalid option `");
                text.append(name.as_str());
                text.append("`: ");
                text.append(details.as_str());
                text
            },
            Error::UnsupportedFeature(feature) => {
                let mut text = String::from_str("unsupported feature: ");
                text.append(feature.as_str());
                text
            },
            Error::Unknown(code) => {
                let mut text = String::from_str("unknown LZMA status code ");
                let digits = decimal_text(*code);
                text.append(digits.as_str());
                text
            },
        }
    }

    /// Returns a short `xz(1)`-style message for the current error.
    pub fn xz_message(&self) -> (r: &'static str)
        ensures
            r@ == spec_xz_message(*self),
    {
        match self {
            Error::Data => "Compressed data is corrupt",
            Error::Mem => "Memory allocation failed",
            Error::Crc => "Integrity check failed",
            Error::Unsupported | Error::UnsupportedFeature(_) => "Unsupported options",
            Error::Param | Error::InvalidOption { .. } => "Invalid or unsupported options",
            Error::InputEof => "Unexpected end of input",
            Error::OutputEof => "Output buffer is too small",
            Error::Read => "Read error",
            Error::Write => "Write error",
            Error::Progress | Error::Fail | Error::Thread | Error::Archive | Error::NoArchive => {
                "Internal error (bug)"
            },
            Error::SizeOverflow => "Size overflow",
            Error::Io { .. } => "I/O error",
            Error::Unknown(_) => "Unknown error",
        }
    }
}

/// `e` is the `InvalidOption` error with the given name and details.
pub open spec fn is_invalid_option(e: Error, name: Seq<char>, details: Seq<char>) -> bool {
    e matches Error::InvalidOption { name: n, details: d } && n@ == name && d@ == details
}

/// Returns an `InvalidOption` error with the provided name and details.
pub fn invalid_option(name: String, details: String) -> (e: Error)
    ensures
        e == (Error::InvalidOption { name, details }),
{
    Error::InvalidOption { name, details }
}

/// The error variant that a non-success SDK status code stands for.
pub open spec fn status_error(code: i32) -> Error {
    if code == SZ_ERROR_DATA {
        Error::Data
    } else if code == SZ_ERROR_MEM {
        Error::Mem
    } else if code == SZ_ERROR_CRC {
        Error::Crc
    } else if code == SZ_ERROR_UNSUPPORTED {
        Error::Unsupported
    } else if code == SZ_ERROR_PARAM {
        Error::Param
    } else if code == SZ_ERROR_INPUT_EOF {
        Error::InputEof
    } else if code == SZ_ERROR_OUTPUT_EOF {
        Error::OutputEof
    } else if code == SZ_ERROR_READ {
        Error::Read
    } else if code == SZ_ERROR_WRITE {
        Error::Write
    } else if code == SZ_ERROR_PROGRESS {
        Error::Progress
    } else if code == SZ_ERROR_FAIL {
        Error::Fail
    } else if code == SZ_ERROR_THREAD {
        Error::Thread
    } else if code == SZ_ERROR_ARCHIVE {
        Error::Archive
    } else if code == SZ_ERROR_NO_ARCHIVE {
        Error::NoArchive
    } else {
        Error::Unknown(code)
    }
}

/// Each non-success SDK status code has its own error: no two codes map to the same value,
/// since the named codes map to distinct variants and any other code is kept in `Unknown`.
pub proof fn lemma_status_error_injective(a: i32, b: i32)
    requires
        a != SZ_OK,
        b != SZ_OK,
        status_error(a) == status_error(b),
    ensures
        a == b,
{
}

/// The SDK's status numbering (`7zTypes.h`): 1 corrupt data, 2 memory, 3 CRC mismatch,
/// 4 unsupported, 5 parameter, 6 input ended, 7 output full, 8 read, 9 write, 10 progress,
/// 11 failure, 12 threads, 16 archive, 17 no archive; every other code is unknown and keeps
/// its number.
pub proof fn lemma_status_table(code: i32)
    requires
        code != SZ_OK,
    ensures
        status_error(code) == (if code == 1 {
            Error::Data
        } else if code == 2 {
            Error::Mem
        } else if code == 3 {
            Error::Crc
        } else if code == 4 {
            Error::Unsupported
        } else if code == 5 {
            Error::Param
        } else if code == 6 {
            Error::InputEof
        } else if code == 7 {
            Error::OutputEof
        } else if code == 8 {
            Error::Read
        } else if code == 9 {
            Error::Write
        } else if code == 10 {
            Error::Progress
        } else if code == 11 {
            Error::Fail
        } else if code == 12 {
            Error::Thread
        } else if code == 16 {
            Error::Archive
        } else if code == 17 {
            Error::NoArchive
        } else {
            Error::Unknown(code)
        }),
{
}

/// Maps a non-success SDK status code to an error variant.
pub fn map_status(code: i32) -> (e: Error)
    requires
        code != SZ_OK,
    ensures
        e == status_error(code),
{
    if code == SZ_ERROR_DATA {
        Error::Data
    } else if code == SZ_ERROR_MEM {
        Error::Mem
    } else if code == SZ_ERROR_CRC {
        Error::Crc
    } else if code == SZ_ERROR_UNSUPPORTED {
        Error::Unsupported
    } else if code == SZ_ERROR_PARAM {
        Error::Param
    } else if code == SZ_ERROR_INPUT_EOF {
        Error::InputEof
    } else if code == SZ_ERROR_OUTPUT_EOF {
        Error::OutputEof
    } else if code == SZ_ERROR_READ {
        Error::Read
    } else if code == SZ_ERROR_WRITE {
        Error::Write
    } else if code == SZ_ERROR_PROGRESS {
        Error::Progress
    } else if code == SZ_ERROR_FAIL {
        Error::Fail
    } else if code == SZ_ERROR_THREAD {
        Error::Thread
    } else if code == SZ_ERROR_ARCHIVE {
        Error::Archive
    } else if code == SZ_ERROR_NO_ARCHIVE {
        Error::NoArchive
    } else {
        Error::Unknown(code)
    }
}

} // verus!
