//! The external text-generation runner: which command names are tried, and
//! what the probes amount to.
//!
//! Running the probes — spawning each candidate with a version flag — is the
//! caller's concern.

use vstd::prelude::*;
use vstd::string::StringExecFns;

verus! {

/// The command names tried for the external runner, in order of preference.
pub fn llama_command_candidates() -> (r: Vec<String>)
    ensures
        r@.len() == 4,
        r@[0]@ == "llama-cli"@,
        r@[1]@ == "llama"@,
        r@[2]@ == "llama-cpp"@,
        r@[3]@ == "main"@,
{
    let mut v: Vec<String> = Vec::new();
    v.push(String::from_str("llama-cli"));
    v.push(String::from_str("llama"));
    v.push(String::from_str("llama-cpp"));
    v.push(String::from_str("main"));
    v
}

/// Whether the runner is available: some candidate command answered its
/// probe.
pub fn is_available(probes: &Vec<bool>) -> (b: bool)
    ensures
        b == exists|i: int| 0 <= i < probes@.len() && probes@[i],
{
    let mut i: usize = 0;
    while i < probes.len()
        invariant
            0 <= i <= probes@.len(),
            forall|j: int| 0 <= j < i ==> !probes@[j],
        decreases probes@.len() - i,
    {
        if probes[i] {
            return true;
        }
        i += 1;
    }
    false
}

/// The position of the first probe that answered, or the length when none
/// did.
pub open spec fn first_hit(probes: Seq<bool>, i: int) -> int
    decreases probes.len() - i,
{
    if i < 0 || i >= probes.len() {
        probes.len() as int
    } else if probes[i] {
        i
    } else {
        first_hit(probes, i + 1)
    }
}

/// The first candidate whose probe answered: the command the runner uses.
pub fn find_llama_command(candidates: &Vec<String>, probes: &Vec<bool>) -> (r: Option<String>)
    requires
        candidates@.len() == probes@.len(),
    ensures
        ({
            let k = first_hit(probes@, 0);
            &&& (r matches Some(c) ==> k < probes@.len() && c@ == candidates@[k]@)
            &&& (r is None ==> k == probes@.len())
        }),
{
    let mut i: usize = 0;
    while i < probes.len()
        invariant
            candidates@.len() == probes@.len(),
            0 <= i <= probes@.len(),
            first_hit(probes@, 0) == first_hit(probes@, i as int),
        decreases probes@.len() - i,
    {
        if probes[i] {
            return Some(candidates[i].clone());
        }
        i += 1;
    }
    None
}

} // verus!
