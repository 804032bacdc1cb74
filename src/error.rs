use vstd::prelude::*;

use crate::ascii::{text_of, buffer_text};
use crate::text::{hexadecimal, push_chars, push_hexadecimal};

verus! {

/// A status code handed back by the native display-control library; zero is success.
pub type Status = i32;

/// A non-zero status of the native library, kept as its numeric code.
#[derive(Debug, Clone, Copy, PartialEq, Eq, Structural)]
pub struct LibDDCUtilError {
    pub code: Status,
}

/// What went wrong in a display operation.
#[derive(Debug, Clone, Copy, PartialEq, Eq, Structural)]
pub enum DdcutilErrorKind {
    LibDDCUtilError(LibDDCUtilError),
    NoDisplays,
    UnknownHandle,
    OutOfRange,
    Unsupported,
}

/// The error type of every fallible operation of this library.
#[derive(Debug, Clone, Copy, PartialEq, Eq, Structural)]
pub struct DDCError {
    pub kind: DdcutilErrorKind,
}

pub type Result<T> = core::result::Result<T, DDCError>;

/// The error of a given kind.
pub open spec fn error_of(kind: DdcutilErrorKind) -> DDCError {
    DDCError { kind }
}

/// The error that a non-zero native status code stands for.
pub open spec fn native_error(status: Status) -> DDCError {
    error_of(DdcutilErrorKind::LibDDCUtilError(LibDDCUtilError { code: status }))
}

/// The outcome that a native status code stands for.
pub open spec fn rc_result(status: Status) -> core::result::Result<(), DDCError> {
    if status == 0 {
        Ok(())
    } else {
        Err(native_error(status))
    }
}

impl DDCError {
    pub fn new(kind: DdcutilErrorKind) -> (r: DDCError)
        ensures
            r.kind == kind,
    {
        DDCError { kind }
    }

    pub fn kind(&self) -> (r: DdcutilErrorKind)
        ensures
            r == self.kind,
    {
        self.kind
    }
}

impl LibDDCUtilError {
    /// Turns a native status code into `Ok(())` on success and into an error
    /// carrying the code otherwise.
    pub fn from_rc(status: Status) -> (r: Result<()>)
        ensures
            r == rc_result(status),
            r is Ok <==> status == 0,
    {
        if status == 0 {
            Ok(())
        } else {
            Err(DDCError::new(DdcutilErrorKind::LibDDCUtilError(LibDDCUtilError { code: status })))
        }
    }
}

} // verus!

verus! {

/// The two's-complement bits of a status code, as the native library prints them.
pub open spec fn status_bits(code: Status) -> u32 {
    code as u32
}

/// The text of a native error: its symbolic name, its description and its code
/// in hexadecimal.
pub open spec fn native_error_text(name: Seq<char>, description: Seq<char>, code: Status) -> Seq<char> {
    name + ", "@ + description + ", "@ + "0x"@ + hexadecimal(status_bits(code) as nat)
}

impl LibDDCUtilError {
    /// The numeric status code.
    pub fn code(&self) -> (r: Status)
        ensures
            r == self.code,
    {
        self.code
    }

    /// Renders the error from the symbolic name and the description that the
    /// native library gives for its code, as nul-terminated buffers.
    pub fn to_display_string(&self, name: &[u8], description: &[u8]) -> (r: String)
        ensures
            r@ == native_error_text(text_of(name@), text_of(description@), self.code),
    {
        let mut s = buffer_text(name);
        proof {
            reveal_strlit(", ");
            reveal_strlit("0x");
        }
        push_chars(&mut s, ", ");
        let d = buffer_text(description);
        push_chars(&mut s, d.as_str());
        push_chars(&mut s, ", ");
        push_chars(&mut s, "0x");
        push_hexadecimal(&mut s, self.code as u32);
        s
    }
}

} // verus!

verus! {

/// The message of an error kind; a native error is rendered from the name and
/// description that the native library gives for its code.
pub open spec fn kind_text(kind: DdcutilErrorKind, name: Seq<char>, description: Seq<char>) -> Seq<char> {
    match kind {
        DdcutilErrorKind::LibDDCUtilError(e) => native_error_text(name, description, e.code),
        DdcutilErrorKind::NoDisplays => "No displays found"@,
        DdcutilErrorKind::UnknownHandle => "Unable to initialize the display handle"@,
        DdcutilErrorKind::OutOfRange => "Out of Range"@,
        DdcutilErrorKind::Unsupported => "Unsupported value"@,
    }
}

impl DdcutilErrorKind {
    /// Renders the error kind; `name` and `description` are the native texts
    /// for the code of a native error, and are not read otherwise.
    pub fn to_display_string(&self, name: &[u8], description: &[u8]) -> (r: String)
        ensures
            r@ == kind_text(*self, text_of(name@), text_of(description@)),
    {
        match self {
            DdcutilErrorKind::LibDDCUtilError(e) => e.to_display_string(name, description),
            DdcutilErrorKind::NoDisplays => {
                proof {
                    reveal_strlit("No displays found");
                }
                String::from_str("No displays found")
            },
            DdcutilErrorKind::UnknownHandle => {
                proof {
                    reveal_strlit("Unable to initialize the display handle");
                }
                String::from_str("Unable to initialize the display handle")
            },
            DdcutilErrorKind::OutOfRange => {
                proof {
                    reveal_strlit("Out of Range");
                }
                String::from_str("Out of Range")
            },
            DdcutilErrorKind::Unsupported => {
                proof {
                    reveal_strlit("Unsupported value");
                }
                String::from_str("Unsupported value")
            },
        }
    }
}

} // verus!
