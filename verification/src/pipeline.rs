//! The per-record pipeline and the batch driver.
//!
//! Each record yields exactly one outcome, decided by that record and its own
//! fetch result alone; a failing record never stops the batch.

use vstd::prelude::*;
use crate::parse::MAX_COMMENT_NESTING;
use crate::parse::count_open_parens;
use crate::parse::email_parse_accepts;
use crate::parse::email_parse_of;
use crate::parse::open_paren_count;
use crate::parse::parse_email_bytes;
use crate::record::ChangeRecord;
use crate::record::Classification;
use crate::record::classify;
use crate::record::declared_size;
use crate::record::is_creation_record;
use crate::record::spec_classify;

verus! {

/// The terminal state of one record's pipeline. The three skip variants are
/// silent successes; the two failure variants each carry the error detail for
/// one diagnostic entry.
#[derive(Clone, Debug, PartialEq, Eq)]
pub enum Outcome {
    /// The event-type tag did not indicate a creation event.
    FilteredOut,
    /// The declared size was at or above the ceiling.
    GatedOut,
    /// The bucket name or the object key was absent.
    MissingLocation,
    /// The object was fetched and parsed as a well-formed message.
    Parsed,
    /// Retrieval failed; holds the storage layer's error detail.
    FetchFailed(String),
    /// The fetched bytes were not a well-formed message; holds the parser's
    /// error detail.
    ParseFailed(String),
}

/// An outcome that produces a diagnostic entry.
pub open spec fn is_failure(o: Outcome) -> bool {
    o is FetchFailed || o is ParseFailed
}

/// The diagnostic for content whose comment nesting exceeds the cap: it is
/// refused before the parser runs, and the refusal counts as a parse failure.
pub open spec fn nesting_refused_detail() -> Seq<char> {
    "comment nesting exceeds the supported depth"@
}

/// How the outcome of a record that reached the fetch step is determined by
/// its own fetch result: the fetch error is kept as the diagnostic; content
/// over the nesting cap is refused with the fixed diagnostic; otherwise the
/// parser decides, and its own error text is kept as the diagnostic.
pub open spec fn fetched_outcome_matches(fetch: Result<Vec<u8>, String>, o: Outcome) -> bool {
    match fetch {
        Result::Ok(bytes) => if open_paren_count(bytes@) > MAX_COMMENT_NESTING as int {
            o is ParseFailed && o->ParseFailed_0@ == nesting_refused_detail()
        } else {
            match email_parse_of(bytes@) {
                Result::Ok(_) => o is Parsed,
                Result::Err(detail) => o is ParseFailed && o->ParseFailed_0@ == detail,
            }
        },
        Result::Err(detail) => o == Outcome::FetchFailed(detail),
    }
}

/// How one record's outcome is determined by that record, the ceiling, and
/// that record's own fetch result — and by nothing else.
pub open spec fn outcome_matches(
    r: ChangeRecord,
    ceiling: u64,
    fetch: Result<Vec<u8>, String>,
    o: Outcome,
) -> bool {
    match spec_classify(r, ceiling) {
        Classification::FilteredOut => o is FilteredOut,
        Classification::GatedOut => o is GatedOut,
        Classification::MissingLocation => o is MissingLocation,
        Classification::Proceed => fetched_outcome_matches(fetch, o),
    }
}

/// Finishes a record that passed classification: hands the fetched bytes to
/// the parser — unless their comment nesting is over the cap — or records
/// the fetch failure.
pub fn conclude_fetch(fetch: &Result<Vec<u8>, String>) -> (o: Outcome)
    ensures
        fetched_outcome_matches(*fetch, o),
{
    match fetch {
        Result::Ok(bytes) => {
            if count_open_parens(bytes) > MAX_COMMENT_NESTING {
                Outcome::ParseFailed(
                    String::from_str("comment nesting exceeds the supported depth"),
                )
            } else {
                match parse_email_bytes(bytes) {
                    Result::Ok(()) => Outcome::Parsed,
                    Result::Err(detail) => Outcome::ParseFailed(detail),
                }
            }
        },
        Result::Err(detail) => Outcome::FetchFailed(detail.clone()),
    }
}

/// Runs one record's whole pipeline, with the fetch result supplied by the
/// caller; records that are not classified `Proceed` ignore it.
pub fn process_record(r: &ChangeRecord, ceiling: u64, fetch: &Result<Vec<u8>, String>) -> (o:
    Outcome)
    ensures
        outcome_matches(*r, ceiling, *fetch, o),
{
    match classify(r, ceiling) {
        Classification::Proceed => conclude_fetch(fetch),
        Classification::FilteredOut => Outcome::FilteredOut,
        Classification::GatedOut => Outcome::GatedOut,
        Classification::MissingLocation => Outcome::MissingLocation,
    }
}

/// Processes a whole batch in delivery order: one outcome per record, each
/// decided by that record and its own fetch result alone. The batch itself
/// always completes: every record is attempted, whatever its siblings did.
pub fn process_batch(
    records: &Vec<ChangeRecord>,
    ceiling: u64,
    fetches: &Vec<Result<Vec<u8>, String>>,
) -> (outcomes: Vec<Outcome>)
    requires
        fetches@.len() == records@.len(),
    ensures
        outcomes@.len() == records@.len(),
        forall|i: int|
            0 <= i < records@.len() ==> outcome_matches(
                records@[i],
                ceiling,
                fetches@[i],
                #[trigger] outcomes@[i],
            ),
{
    let mut outcomes: Vec<Outcome> = Vec::new();
    let mut i: usize = 0;
    while i < records.len()
        invariant
            fetches@.len() == records@.len(),
            i <= records@.len(),
            outcomes@.len() == i,
            forall|k: int|
                0 <= k < i ==> outcome_matches(
                    records@[k],
                    ceiling,
                    fetches@[k],
                    #[trigger] outcomes@[k],
                ),
        decreases records@.len() - i,
    {
        let o = process_record(&records[i], ceiling, &fetches[i]);
        outcomes.push(o);
        i += 1;
    }
    outcomes
}

/// No fetch and no parse for a non-creation record: a record whose event-type
/// tag lacks the creation marker is filtered out, and only records classified
/// `Proceed` are ever fetched or parsed.
pub proof fn lemma_non_creation_never_fetched(r: ChangeRecord, ceiling: u64)
    requires
        !is_creation_record(r),
    ensures
        spec_classify(r, ceiling) == Classification::FilteredOut,
{
}

/// No fetch for a record whose declared size is at or above the ceiling,
/// whatever its event type: such a record is never classified `Proceed`.
pub proof fn lemma_size_gate_blocks_fetch(r: ChangeRecord, ceiling: u64)
    requires
        declared_size(r) >= ceiling,
    ensures
        spec_classify(r, ceiling) != Classification::Proceed,
{
}

/// No fetch for a record missing its bucket name or its object key: such a
/// record is never classified `Proceed`.
pub proof fn lemma_missing_location_blocks_fetch(r: ChangeRecord, ceiling: u64)
    requires
        r.bucket is None || r.key is None,
    ensures
        spec_classify(r, ceiling) != Classification::Proceed,
{
}

/// Failure isolation: in a batch whose outcomes each match their own record
/// and fetch result, a fetch failure at one record leaves every other
/// record's outcome untouched — a sibling that fetched and parsed cleanly is
/// still `Parsed`.
pub proof fn lemma_failure_isolation(
    records: Seq<ChangeRecord>,
    ceiling: u64,
    fetches: Seq<Result<Vec<u8>, String>>,
    outcomes: Seq<Outcome>,
    i: int,
    j: int,
)
    requires
        outcomes.len() == records.len(),
        fetches.len() == records.len(),
        forall|k: int|
            0 <= k < records.len() ==> outcome_matches(
                records[k],
                ceiling,
                fetches[k],
                #[trigger] outcomes[k],
            ),
        0 <= i < records.len(),
        0 <= j < records.len(),
        i != j,
        spec_classify(records[i], ceiling) == Classification::Proceed,
        fetches[i] is Err,
        spec_classify(records[j], ceiling) == Classification::Proceed,
        fetches[j] is Ok,
        open_paren_count(fetches[j]->Ok_0@) <= MAX_COMMENT_NESTING as int,
        email_parse_accepts(fetches[j]->Ok_0@),
    ensures
        outcomes[i] is FetchFailed,
        outcomes[j] is Parsed,
{
}

/// Idempotence: re-processing the same record with the same fetch result
/// yields the same classification of outcome each time — the pipeline keeps
/// no state across attempts.
pub proof fn lemma_reprocessing_deterministic(
    r: ChangeRecord,
    ceiling: u64,
    fetch: Result<Vec<u8>, String>,
    o1: Outcome,
    o2: Outcome,
)
    requires
        outcome_matches(r, ceiling, fetch, o1),
        outcome_matches(r, ceiling, fetch, o2),
    ensures
        o1 is FilteredOut <==> o2 is FilteredOut,
        o1 is GatedOut <==> o2 is GatedOut,
        o1 is MissingLocation <==> o2 is MissingLocation,
        o1 is Parsed <==> o2 is Parsed,
        o1 is FetchFailed <==> o2 is FetchFailed,
        o1 is ParseFailed <==> o2 is ParseFailed,
        is_failure(o1) <==> is_failure(o2),
{
}

} // verus!
