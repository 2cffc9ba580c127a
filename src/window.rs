//! Validation of an analysis window before its spectrum is taken.
use vstd::prelude::*;

verus! {

/// Why a sample buffer cannot be analyzed as a window.
#[derive(Clone, Copy, Debug, PartialEq, Eq, Structural)]
pub enum WindowError {
    /// The buffer's length differs from the window size that was asked for.
    LengthMismatch,
    /// The window holds no samples.
    Empty,
    /// The window size is odd, so it does not split into a one-sided spectrum.
    OddLength,
}

/// A window of `n` samples can be analyzed: it is non-empty and even
/// (hence at least two samples long).
pub open spec fn valid_window(n: int) -> bool {
    n > 0 && n % 2 == 0
}

/// Number of bins of the one-sided spectrum of `n` samples: DC up to, but
/// not including, the Nyquist frequency.
pub open spec fn one_sided_len(n: int) -> int {
    n / 2
}

/// Checks a buffer of `buffer_len` samples against the requested window size
/// `window` and returns the length of its one-sided spectrum.
pub fn check_window(buffer_len: usize, window: usize) -> (r: Result<usize, WindowError>)
    ensures
        r is Ok <==> buffer_len == window && valid_window(window as int),
        r matches Ok(bins) ==> bins as int == one_sided_len(window as int),
        r == Err::<usize, WindowError>(WindowError::LengthMismatch) <==> buffer_len != window,
        r == Err::<usize, WindowError>(WindowError::Empty) <==> buffer_len == window && window
            == 0,
        r == Err::<usize, WindowError>(WindowError::OddLength) <==> buffer_len == window && window
            % 2 == 1,
{
    if buffer_len != window {
        Err(WindowError::LengthMismatch)
    } else if window == 0 {
        Err(WindowError::Empty)
    } else if window % 2 == 1 {
        Err(WindowError::OddLength)
    } else {
        Ok(window / 2)
    }
}

/// Every valid window has a one-sided spectrum of exactly half its length,
/// and that spectrum holds at least one bin.
pub proof fn lemma_spectrum_len(n: int)
    requires
        valid_window(n),
    ensures
        2 * one_sided_len(n) == n,
        one_sided_len(n) >= 1,
{
}

} // verus!
