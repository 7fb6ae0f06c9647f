//! The backend of a platform that is neither POSIX-like nor Windows: there is
//! no terminal to ask, and every entry point says so.

use vstd::prelude::*;
use crate::size::{FullSize, Size};

verus! {

/// Returns the size of the terminal: on this platform, never available.
pub fn terminal_size() -> (size: Option<Size>)
    ensures
        size is None,
{
    None
}

/// Returns the full size of the terminal: on this platform, never available.
pub fn terminal_size_full() -> (full: Option<FullSize>)
    ensures
        full is None,
{
    None
}

} // verus!
