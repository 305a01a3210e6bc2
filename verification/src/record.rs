//! The change-record model and its classification.
//!
//! A record describes one storage mutation event: an event-type tag, an
//! optional bucket name, an optional object key, and an optional declared
//! size. Classification decides whether the object is fetched or why it is
//! skipped.

use vstd::prelude::*;
use crate::text::contains_substring;
use crate::text::has_substring;

verus! {

/// Largest declared object size still eligible for fetch and parse (1 MiB).
pub const MAX_EMAIL_SIZE: u64 = 1024 * 1024;

/// One storage mutation event, as delivered in a notification batch.
/// Bucket, key and size may legitimately be absent.
#[derive(Clone, Debug)]
pub struct ChangeRecord {
    pub event_type: Option<String>,
    pub bucket: Option<String>,
    pub key: Option<String>,
    pub size: Option<u64>,
}

/// The marker that an event-type tag must contain to count as a creation.
pub open spec fn creation_marker() -> Seq<char> {
    "ObjectCreated"@
}

/// A tag indicates a creation event when it contains the creation marker.
pub open spec fn is_creation_tag(tag: Seq<char>) -> bool {
    has_substring(tag, creation_marker())
}

/// A record is a creation event when its tag is present and indicates one.
pub open spec fn is_creation_record(r: ChangeRecord) -> bool {
    match r.event_type {
        Option::Some(tag) => is_creation_tag(tag@),
        Option::None => false,
    }
}

/// The declared size, defaulting to zero when absent.
pub open spec fn declared_size(r: ChangeRecord) -> u64 {
    match r.size {
        Option::Some(s) => s,
        Option::None => 0,
    }
}

/// Both the bucket name and the object key are present.
pub open spec fn has_location(r: ChangeRecord) -> bool {
    r.bucket is Some && r.key is Some
}

/// What classification decides for one record: fetch it, or skip it for the
/// stated reason. Every skip is silent by design, not an error.
#[derive(Clone, Copy, Debug, PartialEq, Eq, Structural)]
pub enum Classification {
    /// Creation event, under the ceiling, bucket and key present: fetch it.
    Proceed,
    /// The event-type tag does not indicate a creation event.
    FilteredOut,
    /// The declared size is at or above the ceiling.
    GatedOut,
    /// The bucket name or the object key is absent.
    MissingLocation,
}

/// How one record is classified, checks in this order: creation filter,
/// size gate, then presence of bucket and key.
pub open spec fn spec_classify(r: ChangeRecord, ceiling: u64) -> Classification {
    if !is_creation_record(r) {
        Classification::FilteredOut
    } else if declared_size(r) >= ceiling {
        Classification::GatedOut
    } else if !has_location(r) {
        Classification::MissingLocation
    } else {
        Classification::Proceed
    }
}

/// Classifies one record against the given size ceiling.
pub fn classify(r: &ChangeRecord, ceiling: u64) -> (c: Classification)
    ensures
        c == spec_classify(*r, ceiling),
{
    let creation = match &r.event_type {
        Option::Some(tag) => contains_substring(tag.as_str(), "ObjectCreated"),
        Option::None => false,
    };
    if !creation {
        return Classification::FilteredOut;
    }
    let size: u64 = match &r.size {
        Option::Some(s) => *s,
        Option::None => 0,
    };
    if size >= ceiling {
        return Classification::GatedOut;
    }
    if r.bucket.is_some() && r.key.is_some() {
        Classification::Proceed
    } else {
        Classification::MissingLocation
    }
}

/// A record classified `Proceed` always carries both bucket and key, so its
/// fetch target is defined.
pub proof fn lemma_proceed_has_location(r: ChangeRecord, ceiling: u64)
    requires
        spec_classify(r, ceiling) == Classification::Proceed,
    ensures
        has_location(r),
{
}

/// The fetch target of a record: exactly its bucket name and object key,
/// when both are present.
pub fn fetch_target(r: &ChangeRecord) -> (t: Option<(String, String)>)
    ensures
        match t {
            Option::Some(pair) => has_location(*r) && pair.0@ == r.bucket->Some_0@ && pair.1@
                == r.key->Some_0@,
            Option::None => !has_location(*r),
        },
{
    match (&r.bucket, &r.key) {
        (Option::Some(bucket), Option::Some(key)) => Option::Some(
            (bucket.clone(), key.clone()),
        ),
        _ => Option::None,
    }
}

} // verus!
