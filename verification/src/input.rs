//! The one input decision of the dashboard: a key press either quits the
//! draw/poll cycle or leaves it running.

use vstd::prelude::*;

verus! {

/// Whether a pressed character key ends the session.
pub fn quit_requested(key: char) -> (r: bool)
    ensures
        r == (key == 'q'),
{
    key == 'q'
}

} // verus!
