//! Reading the engine's free-text status line into a typed status: the
//! source-deck and ready markers, or a progress report tagged with the
//! analysis it belongs to.

use vstd::prelude::*;

use crate::simulation::{known_analysis_names, Simulation};
use crate::text::{check_numeric, contains_seq, contains_str, is_numeric, replace_seq, replace_all,
    str_eq};

verus! {

#[derive(Debug)]
pub enum SimulationStatusError {
    UnkownStatus,
    MalformedSimulationStatus,
}

/// The status of one running simulation.  A progress report carries the
/// analysis name and the numeric text of the percentage.
#[derive(Debug, Clone)]
pub enum SimulationStatus {
    SourceDeck,
    Progress { simulation_name: String, progress: String },
    Ready,
}

/// The first needle, in order, that the haystack contains.
pub open spec fn first_contained(h: Seq<char>, needles: Seq<Seq<char>>) -> Option<Seq<char>>
    decreases needles.len(),
{
    if needles.len() == 0 {
        None
    } else if contains_seq(h, needles[0]) {
        Some(needles[0])
    } else {
        first_contained(h, needles.skip(1))
    }
}

/// Finds the first of the needles the haystack contains.
#[verifier::loop_isolation(false)]
pub fn contains_any(haystack: &str, needles: Vec<String>) -> (r: Option<String>)
    ensures
        match r {
            Some(s) => first_contained(haystack@, needles@.map_values(|t: String| t@)) == Some(s@),
            None => first_contained(haystack@, needles@.map_values(|t: String| t@)) is None,
        },
{
    let ghost nv = needles@.map_values(|t: String| t@);
    let n = needles.len();
    let mut i: usize = 0;
    proof {
        assert(nv.skip(0) =~= nv);
    }
    while i < n
        invariant
            0 <= i <= n,
            first_contained(haystack@, nv) == first_contained(haystack@, nv.skip(i as int)),
        decreases n - i,
    {
        proof {
            assert(nv.skip(i as int)[0] == nv[i as int]);
            assert(nv.skip(i as int).skip(1) =~= nv.skip(i + 1));
        }
        if contains_str(haystack, needles[i].as_str()) {
            return Some(needles[i].clone());
        }
        i += 1;
    }
    proof {
        assert(nv.skip(n as int).len() == 0);
    }
    None
}

/// The percentage text of a progress line: the analysis tag and every
/// percent sign removed.
pub open spec fn progress_text(s: Seq<char>, name: Seq<char>) -> Seq<char> {
    replace_seq(replace_seq(s, name + ": "@, ""@), "%"@, ""@)
}

/// How a status line is read, in the order the forms are tried.
pub open spec fn status_ok(
    s: Seq<char>,
    r: &Result<SimulationStatus, SimulationStatusError>,
) -> bool {
    if s == "Source Deck"@ {
        r matches Ok(SimulationStatus::SourceDeck)
    } else if s == "--ready--"@ {
        r matches Ok(SimulationStatus::Ready)
    } else {
        match first_contained(s, known_analysis_names()) {
            Some(name) => {
                if is_numeric(progress_text(s, name)) {
                    r matches Ok(SimulationStatus::Progress { simulation_name, progress })
                        && simulation_name@ == name && progress@ == progress_text(s, name)
                } else {
                    r matches Err(SimulationStatusError::MalformedSimulationStatus)
                }
            },
            None => r matches Err(SimulationStatusError::UnkownStatus),
        }
    }
}

impl SimulationStatus {
    /// Reads one status line: the source-deck marker, the ready marker,
    /// or a percentage tagged with a known analysis name; anything else
    /// is unknown, and a tagged line without a numeric percentage is
    /// malformed.
    pub fn new(status: &str) -> (r: Result<SimulationStatus, SimulationStatusError>)
        ensures
            status_ok(status@, &r),
    {
        if str_eq(status, "Source Deck") {
            return Ok(SimulationStatus::SourceDeck);
        }
        if str_eq(status, "--ready--") {
            return Ok(SimulationStatus::Ready);
        }
        let names = Simulation::available_simulations();
        match contains_any(status, names) {
            Some(simulation_name) => {
                proof {
                    reveal_strlit(": ");
                    reveal_strlit("%");
                }
                let mut pattern = simulation_name.clone();
                pattern.append(": ");
                assert(pattern@ == simulation_name@ + ": "@);
                let cleaned = replace_all(status, pattern.as_str(), "");
                let progress = replace_all(cleaned.as_str(), "%", "");
                if check_numeric(progress.as_str()) {
                    Ok(SimulationStatus::Progress { simulation_name, progress })
                } else {
                    Err(SimulationStatusError::MalformedSimulationStatus)
                }
            },
            None => Err(SimulationStatusError::UnkownStatus),
        }
    }
}

} // verus!
