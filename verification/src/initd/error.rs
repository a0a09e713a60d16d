//! Errors of the init process.

use vstd::prelude::*;

verus! {

#[verifier::external_type_specification]
#[verifier::external_body]
pub struct ExIoError(std::io::Error);

#[verifier::external_type_specification]
#[verifier::external_body]
pub struct ExFromUtf8Error(std::string::FromUtf8Error);

/// The description that `nc::strerror` gives of an errno value.
pub uninterp spec fn errno_description(errno: i32) -> Seq<char>;

/// Calls `nc::strerror`, a fixed table from errno values to descriptions
/// (with a generic text for values it does not know). The contract names the
/// description; it claims nothing about its text.
#[verifier::external_body]
pub(crate) fn strerror(errno: i32) -> (text: &'static str)
    ensures
        text@ == errno_description(errno),
{
    nc::strerror(errno)
}

/// The character of a decimal digit.
pub open spec fn digit_char(d: int) -> char {
    if d == 0 {
        '0'
    } else if d == 1 {
        '1'
    } else if d == 2 {
        '2'
    } else if d == 3 {
        '3'
    } else if d == 4 {
        '4'
    } else if d == 5 {
        '5'
    } else if d == 6 {
        '6'
    } else if d == 7 {
        '7'
    } else if d == 8 {
        '8'
    } else {
        '9'
    }
}

/// The decimal digits of a natural number, the most significant first, with
/// no leading zeros.
pub open spec fn digits(n: nat) -> Seq<char>
    decreases n,
{
    if n < 10 {
        seq![digit_char(n as int)]
    } else {
        digits(n / 10) + seq![digit_char((n % 10) as int)]
    }
}

/// An integer written in decimal, with a minus sign when it is negative.
pub open spec fn decimal(i: int) -> Seq<char> {
    if i < 0 {
        seq!['-'] + digits((-i) as nat)
    } else {
        digits(i as nat)
    }
}

fn digit_text(d: u64) -> (t: &'static str)
    requires
        d < 10,
    ensures
        t@ == seq![digit_char(d as int)],
{
    proof {
        reveal_strlit("0");
        reveal_strlit("1");
        reveal_strlit("2");
        reveal_strlit("3");
        reveal_strlit("4");
        reveal_strlit("5");
        reveal_strlit("6");
        reveal_strlit("7");
        reveal_strlit("8");
        reveal_strlit("9");
    }
    match d {
        0 => "0",
        1 => "1",
        2 => "2",
        3 => "3",
        4 => "4",
        5 => "5",
        6 => "6",
        7 => "7",
        8 => "8",
        _ => "9",
    }
}

fn push_digits(text: &mut String, n: u64)
    ensures
        final(text)@ == old(text)@ + digits(n as nat),
    decreases n,
{
    let ghost before = text@;
    if n >= 10 {
        push_digits(text, n / 10);
    }
    text.append(digit_text(n % 10));
    assert(text@ =~= before + digits(n as nat));
}

/// An `i32` written in decimal, as Rust's `Display` writes it.
pub fn decimal_text(n: i32) -> (text: String)
    ensures
        text@ == decimal(n as int),
{
    let mut text = String::new();
    if n < 0 {
        proof {
            reveal_strlit("-");
        }
        text.append("-");
        let magnitude: i64 = -(n as i64);
        push_digits(&mut text, magnitude as u64);
    } else {
        push_digits(&mut text, n as u64);
    }
    text
}

/// Everything that can go wrong in the init process.
#[derive(Debug)]
pub enum Error {
    FailedToCreateDirectory {
        message: &'static str,
        directory: String,
        errno: i32,
        error_message: &'static str,
    },
    DirectoryAlreadyExistsAsFile { message: &'static str, directory: String },
    FailedToMount { directory: String, error: i32 },
    AllChildrenDied,
    FailedToConvertStringToCString,
    Errno { errno: i32, message: &'static str },
    ErrnoWithMessage { errno: i32, errno_message: &'static str, message: &'static str },
    FailedToConvertReadlinkResultToString { error: std::string::FromUtf8Error },
    TaskDied,
    PipeCreationFailed,
    IO(std::io::Error),
}

/// Writes an `std::string::FromUtf8Error` as its `Debug` implementation does;
/// nothing is claimed of the text.
#[verifier::external_body]
fn from_utf8_error_debug(error: &std::string::FromUtf8Error) -> String {
    format!("{:?}", error)
}

impl Error {
    /// The text that the error reports.
    pub fn message(&self) -> (m: String)
        ensures
            match self {
                Error::FailedToCreateDirectory { message, directory, errno, .. } => m@
                    == "Failed to create directory "@ + directory@ + ", errno: "@ + decimal(
                    *errno as int,
                ) + ", message: "@ + message@,
                Error::DirectoryAlreadyExistsAsFile { message, directory } => m@
                    == "Directory already exists. "@ + message@ + ": "@ + directory@,
                Error::FailedToMount { directory, error } => m@ == "Failed to mount at "@
                    + directory@ + ", errno: "@ + decimal(*error as int),
                Error::AllChildrenDied => m@ == "All children died"@,
                Error::FailedToConvertStringToCString => m@
                    == "Failed to convert Rust string to FFI compatible CString"@,
                Error::Errno { errno, message } => m@ == "errno "@ + decimal(*errno as int)
                    + ": "@ + message@,
                Error::ErrnoWithMessage { errno, errno_message, message } => m@ == "errno: "@
                    + errno_message@ + " ("@ + decimal(*errno as int) + ") while "@ + message@,
                Error::FailedToConvertReadlinkResultToString { .. } =>
                    "Failed to convert readlink result to rust string: "@.is_prefix_of(m@),
                Error::TaskDied => m@ == "task died"@,
                Error::PipeCreationFailed => m@ == "Failed to create a pipe(2)"@,
                Error::IO(_) => "IO error: "@.is_prefix_of(m@),
            },
    {
        match self {
            Error::FailedToCreateDirectory { message, directory, errno, .. } => {
                let mut m = String::from_str("Failed to create directory ");
                m.append(directory.as_str());
                m.append(", errno: ");
                m.append(decimal_text(*errno).as_str());
                m.append(", message: ");
                m.append(message);
                m
            },
            Error::DirectoryAlreadyExistsAsFile { message, directory } => {
                let mut m = String::from_str("Directory already exists. ");
                m.append(message);
                m.append(": ");
                m.append(directory.as_str());
                m
            },
            Error::FailedToMount { directory, error } => {
                let mut m = String::from_str("Failed to mount at ");
                m.append(directory.as_str());
                m.append(", errno: ");
                m.append(decimal_text(*error).as_str());
                m
            },
            Error::AllChildrenDied => String::from_str("All children died"),
            Error::FailedToConvertStringToCString => String::from_str(
                "Failed to convert Rust string to FFI compatible CString",
            ),
            Error::Errno { errno, message } => {
                let mut m = String::from_str("errno ");
                m.append(decimal_text(*errno).as_str());
                m.append(": ");
                m.append(message);
                m
            },
            Error::ErrnoWithMessage { errno, errno_message, message } => {
                let mut m = String::from_str("errno: ");
                m.append(errno_message);
                m.append(" (");
                m.append(decimal_text(*errno).as_str());
                m.append(") while ");
                m.append(message);
                m
            },
            Error::FailedToConvertReadlinkResultToString { error } => {
                let prefix = "Failed to convert readlink result to rust string: ";
                let mut m = String::from_str(prefix);
                let ghost head = m@;
                m.append(from_utf8_error_debug(error).as_str());
                assert(m@.subrange(0, head.len() as int) =~= head);
                m
            },
            Error::TaskDied => String::from_str("task died"),
            Error::PipeCreationFailed => String::from_str("Failed to create a pipe(2)"),
            Error::IO(error) => {
                let mut m = String::from_str("IO error: ");
                let ghost head = m@;
                m.append(error.to_string().as_str());
                assert(m@.subrange(0, head.len() as int) =~= head);
                m
            },
        }
    }

    /// An error for a failed system call, described by `nc::strerror`.
    pub fn from_errno(value: i32) -> (e: Self)
        ensures
            e matches Error::Errno { errno, message } && errno == value && message@
                == errno_description(value),
    {
        Error::Errno { errno: value, message: strerror(value) }
    }

    /// An error for a failed system call, with what was being done.
    pub fn from_errno_with_message(errno: i32, message: &'static str) -> (e: Self)
        ensures
            e matches Error::ErrnoWithMessage { errno: n, errno_message, message: m } && n
                == errno && errno_message@ == errno_description(errno) && m == message,
    {
        Error::ErrnoWithMessage { errno, errno_message: strerror(errno), message }
    }
}

} // verus!
