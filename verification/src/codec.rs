//! The checks that the adapters between bincode and a byte buffer make: a
//! read or a write of fewer bytes than asked for is an error.
use vstd::prelude::*;

verus! {

/// Why a read into a buffer failed.
#[derive(PartialEq, Eq, Debug)]
pub enum ReadError {
    /// The underlying reader failed, with this message.
    OtherString(String),
    /// Fewer bytes were available than the buffer holds.
    ArrayLengthMismatch { found: usize, required: usize },
}

/// Why a write of a buffer failed.
#[derive(PartialEq, Eq, Debug)]
pub enum WriteError {
    /// The underlying writer failed, with this message.
    OtherString(String),
    /// Fewer bytes were taken than the buffer holds.
    Other(&'static str),
}

/// The outcome of a read of `required` bytes, given what the underlying
/// reader reported: the number of bytes it read, or its error message.
pub fn check_read(required: usize, read: Result<usize, String>) -> (res: Result<(), ReadError>)
    ensures
        match read {
            Err(m) => res == Err::<(), ReadError>(ReadError::OtherString(m)),
            Ok(n) => if n == required {
                res is Ok
            } else {
                res == Err::<(), ReadError>(ReadError::ArrayLengthMismatch { found: n, required })
            },
        },
{
    match read {
        Err(m) => Err(ReadError::OtherString(m)),
        Ok(n) => {
            if required != n {
                Err(ReadError::ArrayLengthMismatch { found: n, required })
            } else {
                Ok(())
            }
        },
    }
}

/// The outcome of a write of `required` bytes, given what the underlying
/// writer reported: the number of bytes it took, or its error message.
pub fn check_write(required: usize, written: Result<usize, String>) -> (res: Result<(), WriteError>)
    ensures
        match written {
            Err(m) => res == Err::<(), WriteError>(WriteError::OtherString(m)),
            Ok(n) => if n == required {
                res is Ok
            } else {
                res matches Err(WriteError::Other(text)) && text@ == "Wanted {req_len} got {n}"@
            },
        },
{
    match written {
        Err(m) => Err(WriteError::OtherString(m)),
        Ok(n) => {
            if required != n {
                Err(WriteError::Other("Wanted {req_len} got {n}"))
            } else {
                Ok(())
            }
        },
    }
}

} // verus!
