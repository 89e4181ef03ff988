//! Errors of reading a source file, and their rendering as text.

use vstd::prelude::*;
use vstd::string::StringExecFns;

verus! {

/// The decimal digit character of a value below ten.
pub open spec fn digit_char(d: nat) -> char {
    if d == 0 {
        '0'
    } else if d == 1 {
        '1'
    } else if d == 2 {
        '2'
    } else if d == 3 {
        '3'
    } else if d == 4 {
        '4'
    } else if d == 5 {
        '5'
    } else if d == 6 {
        '6'
    } else if d == 7 {
        '7'
    } else if d == 8 {
        '8'
    } else {
        '9'
    }
}

/// The decimal rendering of a natural number, most significant digit
/// first, without leading zeroes except for zero itself.
pub open spec fn dec_digits(n: nat) -> Seq<char>
    decreases n,
{
    if n < 10 {
        seq![digit_char(n)]
    } else {
        dec_digits(n / 10).push(digit_char(n % 10))
    }
}

/// The one-character string of a decimal digit.
fn digit_str(d: u64) -> (r: &'static str)
    requires
        d < 10,
    ensures
        r@ == seq![digit_char(d as nat)],
{
    if d == 0 {
        proof {
            reveal_strlit("0");
        }
        "0"
    } else if d == 1 {
        proof {
            reveal_strlit("1");
        }
        "1"
    } else if d == 2 {
        proof {
            reveal_strlit("2");
        }
        "2"
    } else if d == 3 {
        proof {
            reveal_strlit("3");
        }
        "3"
    } else if d == 4 {
        proof {
            reveal_strlit("4");
        }
        "4"
    } else if d == 5 {
        proof {
            reveal_strlit("5");
        }
        "5"
    } else if d == 6 {
        proof {
            reveal_strlit("6");
        }
        "6"
    } else if d == 7 {
        proof {
            reveal_strlit("7");
        }
        "7"
    } else if d == 8 {
        proof {
            reveal_strlit("8");
        }
        "8"
    } else {
        proof {
            reveal_strlit("9");
        }
        "9"
    }
}

/// Renders a number in decimal.
pub fn u64_to_string(n: u64) -> (r: String)
    ensures
        r@ == dec_digits(n as nat),
    decreases n,
{
    if n < 10 {
        digit_str(n).to_owned()
    } else {
        let mut s = u64_to_string(n / 10);
        s.append(digit_str(n % 10));
        proof {
            assert(s@ =~= dec_digits(n as nat));
        }
        s
    }
}

/// Why a source file could not be read: the file is absent, cannot be
/// accessed, its path is unusable, it is empty, it is over the size
/// limit, its bytes do not decode, its name carries the wrong extension,
/// or something else went wrong. Each variant carries the path or message
/// that describes the failure.
#[derive(Debug)]
pub enum FileReaderError {
    FileNotFound(String),
    PermissionDenied(String),
    InvalidPath(String),
    IoError(String),
    EmptyFile(String),
    FileTooLarge { path: String, size: u64, max_size: u64 },
    EncodingError { path: String, message: String },
    WrongFileType(String),
    Other(String),
}

impl FileReaderError {
    /// The human-readable description of the error.
    pub open spec fn message_view(&self) -> Seq<char> {
        match self {
            FileReaderError::FileNotFound(path) => "File not found: "@ + path@,
            FileReaderError::PermissionDenied(path) => "Permission denied: "@ + path@,
            FileReaderError::InvalidPath(path) => "Invalid path: "@ + path@,
            FileReaderError::IoError(error) => "IO error: "@ + error@,
            FileReaderError::EmptyFile(path) => "Empty file: "@ + path@,
            FileReaderError::FileTooLarge { path, size, max_size } => "File too large: "@ + path@
                + " (size: "@ + dec_digits(*size as nat) + ", max: "@ + dec_digits(*max_size as nat)
                + ")"@,
            FileReaderError::EncodingError { path, message } => "Encoding error in "@ + path@
                + ": "@ + message@,
            FileReaderError::WrongFileType(message) => "Wrong file type: "@ + message@,
            FileReaderError::Other(message) => "Other error: "@ + message@,
        }
    }

    /// Renders the error as text.
    pub fn message(&self) -> (r: String)
        ensures
            r@ == self.message_view(),
    {
        match self {
            FileReaderError::FileNotFound(path) => {
                let mut s = "File not found: ".to_owned();
                s.append(path.as_str());
                s
            },
            FileReaderError::PermissionDenied(path) => {
                let mut s = "Permission denied: ".to_owned();
                s.append(path.as_str());
                s
            },
            FileReaderError::InvalidPath(path) => {
                let mut s = "Invalid path: ".to_owned();
                s.append(path.as_str());
                s
            },
            FileReaderError::IoError(error) => {
                let mut s = "IO error: ".to_owned();
                s.append(error.as_str());
                s
            },
            FileReaderError::EmptyFile(path) => {
                let mut s = "Empty file: ".to_owned();
                s.append(path.as_str());
                s
            },
            FileReaderError::FileTooLarge { path, size, max_size } => {
                let mut s = "File too large: ".to_owned();
                s.append(path.as_str());
                s.append(" (size: ");
                let size_text = u64_to_string(*size);
                s.append(size_text.as_str());
                s.append(", max: ");
                let max_text = u64_to_string(*max_size);
                s.append(max_text.as_str());
                s.append(")");
                proof {
                    assert(s@ =~= self.message_view());
                }
                s
            },
            FileReaderError::EncodingError { path, message } => {
                let mut s = "Encoding error in ".to_owned();
                s.append(path.as_str());
                s.append(": ");
                s.append(message.as_str());
                proof {
                    assert(s@ =~= self.message_view());
                }
                s
            },
            FileReaderError::WrongFileType(message) => {
                let mut s = "Wrong file type: ".to_owned();
                s.append(message.as_str());
                s
            },
            FileReaderError::Other(message) => {
                let mut s = "Other error: ".to_owned();
                s.append(message.as_str());
                s
            },
        }
    }
}

/// Builds the error for a file whose bytes do not decode.
pub fn encoding_error(path: String, message: String) -> (r: FileReaderError)
    ensures
        r == (FileReaderError::EncodingError { path, message }),
{
    FileReaderError::EncodingError { path, message }
}

} // verus!
