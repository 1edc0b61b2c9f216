//! Moon phases: picking tonight's entry from the date-ordered series the
//! upstream service returns, and naming its ASCII-art asset.

use vstd::prelude::*;

verus! {

/// One day's moon phase as the upstream service reports it.
pub struct MoonPhaseEntry {
    pub date: String,
    pub phase: String,
    pub illumination: String,
}

/// Fewer moon-phase entries than the fixed tonight offset needs.
#[derive(Clone, Copy, PartialEq, Eq, Structural, Debug)]
pub enum MoonError {
    InsufficientData,
}

/// The fixed position of tonight's entry in the upstream series.
pub open spec fn tonight_offset() -> int {
    3
}

/// Picks tonight's entry: always the one at the fixed offset, never a
/// substitute, since a nearer entry would misrepresent the night shown.
pub fn select_tonight(phases: &Vec<MoonPhaseEntry>) -> (r: Result<&MoonPhaseEntry, MoonError>)
    ensures
        phases@.len() > tonight_offset() ==> (r matches Ok(e) && *e == phases@[tonight_offset()]),
        phases@.len() <= tonight_offset() ==> r matches Err(MoonError::InsufficientData),
{
    if phases.len() < 4 {
        Err(MoonError::InsufficientData)
    } else {
        Ok(&phases[3])
    }
}

/// The asset file name of a phase's ASCII art: the phase name and `.txt`.
pub fn moon_art_filename(phase: &str) -> (r: String)
    ensures
        r@ == phase@ + ".txt"@,
{
    let mut s = String::from_str(phase);
    s.append(".txt");
    s
}

} // verus!
