//! The operating systems the shell tells apart.

use vstd::prelude::*;

verus! {

/// The operating system the host program was built for.
#[derive(Clone, Copy, Debug, PartialEq, Eq, Structural)]
pub enum Platform {
    /// macOS: the tray lives in the menu bar and idle time can be queried.
    MacOs,
    /// Any other system.
    Other,
}

} // verus!
