//! Feedback history: the event record and the growth of the buffer that the
//! history is formatted into.

use vstd::prelude::*;

use crate::error::{Error, ErrorCode};

verus! {

/// One feedback history event (`ChiakiFeedbackHistoryEvent`): up to five
/// encoded bytes and their count.
#[derive(Debug, Clone, Copy)]
pub struct HistoryEvent {
    pub buf: [u8; 5],
    pub len: usize,
}

impl HistoryEvent {
    /// An empty event: no bytes.
    pub fn new() -> (e: Self)
        ensures
            e.buf@ == Seq::new(5, |i: int| 0u8),
            e.len == 0,
    {
        let e = HistoryEvent { buf: [0u8; 5], len: 0 };
        assert(e.buf@ =~= Seq::new(5, |i: int| 0u8));
        e
    }
}

impl Default for HistoryEvent {
    fn default() -> (e: Self)
        ensures
            e.buf@ == Seq::new(5, |i: int| 0u8),
            e.len == 0,
    {
        Self::new()
    }
}

/// Size of the first buffer the history is formatted into.
pub const FORMAT_INITIAL_SIZE: usize = 256;

/// Largest buffer the history may be formatted into (1 MiB).
pub const FORMAT_MAX_SIZE: usize = 1048576;

/// What to do after one attempt at formatting the history.
#[derive(Debug, Clone, Copy, PartialEq, Eq, Structural)]
pub enum FormatStep {
    /// The buffer was too small: try again with a buffer of `size` bytes.
    Retry { size: usize },
    /// Give up with this error.
    Fail(Error),
    /// Formatted: the history is the first `len` bytes of the buffer.
    Done { len: usize },
}

/// Decides the next step of formatting the history after an attempt with a
/// buffer of `size` bytes returned `rc` and reported `out_size` bytes: a too
/// small buffer is doubled while it stays within 1 MiB, any other error
/// ends the attempt, and success keeps the reported bytes (at most the buffer).
pub fn format_step(rc: ErrorCode, size: usize, out_size: usize) -> (step: FormatStep)
    requires
        size <= FORMAT_MAX_SIZE,
    ensures
        rc == ErrorCode::BufTooSmall && size * 2 <= FORMAT_MAX_SIZE ==> step == (FormatStep::Retry {
            size: (size * 2) as usize,
        }),
        rc == ErrorCode::BufTooSmall && size * 2 > FORMAT_MAX_SIZE ==> step == FormatStep::Fail(
            Error(ErrorCode::BufTooSmall),
        ),
        rc != ErrorCode::BufTooSmall && rc != ErrorCode::Success ==> step == FormatStep::Fail(Error(rc)),
        rc == ErrorCode::Success ==> step == (FormatStep::Done {
            len: if out_size < size { out_size } else { size },
        }),
{
    match rc {
        ErrorCode::BufTooSmall => {
            let doubled = size * 2;
            if doubled > FORMAT_MAX_SIZE {
                FormatStep::Fail(Error(rc))
            } else {
                FormatStep::Retry { size: doubled }
            }
        },
        ErrorCode::Success => {
            if out_size < size {
                FormatStep::Done { len: out_size }
            } else {
                FormatStep::Done { len: size }
            }
        },
        _ => FormatStep::Fail(Error(rc)),
    }
}

} // verus!
