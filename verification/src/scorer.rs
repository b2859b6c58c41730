//! Scoring a candidate fingerprint against the entries of a corpus.

use crate::corpus::{entry_fingerprint, entry_label, parse_entry, well_formed_entry};
use crate::error::Error;
use crate::fingerprint::FINGERPRINT_LEN;
use crate::similarity::{hash_score, score_of_hashes, simhash_of, simhash_value, similarity_score};
use crate::text::chars_of;
use vstd::prelude::*;

verus! {

/// The label of a corpus entry and the score of its fingerprint.
#[derive(Clone, Debug, PartialEq, Eq)]
pub struct ScoredEntry {
    pub label: String,
    pub score: u32,
}

/// A candidate is accepted where it has the length of a fingerprint.
pub open spec fn valid_candidate(candidate: Seq<char>) -> bool {
    candidate.len() == FINGERPRINT_LEN
}

/// `outcome` is what scoring `line` against `candidate` gives: the label of
/// the entry and the score of its fingerprint, or a parse error where the
/// line is no entry.
pub open spec fn is_line_outcome(
    candidate: Seq<char>,
    line: Seq<char>,
    outcome: Result<ScoredEntry, Error>,
) -> bool {
    match outcome {
        Ok(scored) => {
            &&& well_formed_entry(line)
            &&& scored.label@ == entry_label(line)
            &&& scored.score == similarity_score(entry_fingerprint(line), candidate)
        },
        Err(e) => e == Error::Parse && !well_formed_entry(line),
    }
}

/// Whether `candidate` has the length of a fingerprint.
pub fn check_candidate(candidate: &str) -> (checked: Result<(), Error>)
    ensures
        checked is Ok <==> valid_candidate(candidate@),
        checked is Err ==> checked == Err::<(), Error>(Error::InvalidFingerprint),
{
    if chars_of(candidate).len() == FINGERPRINT_LEN {
        Ok(())
    } else {
        Err(Error::InvalidFingerprint)
    }
}

/// Scores one line of the corpus against a candidate whose hash is
/// `candidate_hash`.
fn score_line(line: &str, candidate_hash: u64) -> (outcome: Result<ScoredEntry, Error>)
    ensures
        match outcome {
            Ok(scored) => {
                &&& well_formed_entry(line@)
                &&& scored.label@ == entry_label(line@)
                &&& scored.score == hash_score(
                    simhash_value(entry_fingerprint(line@)),
                    candidate_hash,
                )
            },
            Err(e) => e == Error::Parse && !well_formed_entry(line@),
        },
{
    match parse_entry(line) {
        Ok(entry) => {
            let stored_hash = simhash_of(entry.fingerprint.as_str());
            Ok(ScoredEntry { label: entry.label, score: score_of_hashes(stored_hash, candidate_hash) })
        },
        Err(e) => Err(e),
    }
}

/// Scores `candidate` against every line of `corpus`. A candidate that does
/// not have 152 characters is refused. Otherwise the outcomes stand in the
/// order of the lines, one for each: the label and the score of an entry, or
/// a parse error for a line that is no entry.
pub fn score_against_corpus(candidate: &str, corpus: &Vec<String>) -> (scores: Result<
    Vec<Result<ScoredEntry, Error>>,
    Error,
>)
    ensures
        match scores {
            Ok(outcomes) => {
                &&& valid_candidate(candidate@)
                &&& outcomes.len() == corpus.len()
                &&& forall|k: int|
                    0 <= k < corpus.len() ==> is_line_outcome(
                        candidate@,
                        corpus@[k]@,
                        #[trigger] outcomes@[k],
                    )
            },
            Err(e) => e == Error::InvalidFingerprint && !valid_candidate(candidate@),
        },
{
    match check_candidate(candidate) {
        Ok(()) => {},
        Err(e) => { return Err(e); },
    }
    let candidate_hash = simhash_of(candidate);
    let mut outcomes: Vec<Result<ScoredEntry, Error>> = Vec::new();
    let mut i: usize = 0;
    while i < corpus.len()
        invariant
            i <= corpus.len(),
            outcomes.len() == i,
            candidate_hash == simhash_value(candidate@),
            forall|k: int|
                0 <= k < i ==> is_line_outcome(candidate@, corpus@[k]@, #[trigger] outcomes@[k]),
        decreases corpus.len() - i,
    {
        let outcome = score_line(corpus[i].as_str(), candidate_hash);
        outcomes.push(outcome);
        i += 1;
    }
    Ok(outcomes)
}

} // verus!
