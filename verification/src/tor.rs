//! Knowing when the Tor proxy is ready, from its log.

use vstd::prelude::*;
use crate::pattern::{compile_pattern, first_captures, pattern_captures, pattern_compiles, Pattern, PatternError};

verus! {

/// What Tor writes to its log once it has fully bootstrapped.
pub const BOOTSTRAP_PATTERN: &'static str = "100%";

/// Compiles the pattern that marks a finished bootstrap.
pub fn bootstrap_pattern() -> (r: Result<Pattern, PatternError>)
    ensures
        r is Ok <==> pattern_compiles(BOOTSTRAP_PATTERN@),
        r matches Ok(p) ==> p@ == BOOTSTRAP_PATTERN@,
{
    match compile_pattern(BOOTSTRAP_PATTERN) {
        Ok(p) => Ok(p),
        Err(_) => Err(PatternError::Rejected),
    }
}

/// Whether any line of Tor's log reports a finished bootstrap.
pub fn parse_keystring(progress: &Pattern, lines: &Vec<String>) -> (r: bool)
    requires
        progress@ == BOOTSTRAP_PATTERN@,
    ensures
        r == exists|i: int| 0 <= i < lines@.len() && (#[trigger] pattern_captures(BOOTSTRAP_PATTERN@, lines@[i]@)) is Some,
{
    let mut i: usize = 0;
    while i < lines.len()
        invariant
            i <= lines@.len(),
            progress@ == BOOTSTRAP_PATTERN@,
            forall|j: int| 0 <= j < i ==> (#[trigger] pattern_captures(BOOTSTRAP_PATTERN@, lines@[j]@)) is None,
        decreases lines.len() - i,
    {
        if first_captures(progress, lines[i].as_str()).is_some() {
            return true;
        }
        i = i + 1;
    }
    false
}

/// Where Tor writes its log: `tor.log` in the user's configuration
/// directory.
pub fn build_path_to_tor_log(config_root: &str) -> (r: String)
    ensures
        r@ == config_root@ + "/tor.log"@,
{
    let s = String::from_str(config_root);
    s.concat("/tor.log")
}

} // verus!
