//! The boundary to the structured-text (email) parser.
//!
//! The parser reads parenthesised comments by recursion, one level per `(`,
//! with no depth cap of its own; a message of deeply nested parentheses could
//! exhaust the stack. The wrapper therefore requires the count of `(` bytes —
//! an upper bound on that recursion depth — to stay under a fixed cap, and
//! callers check the cap first.

use vstd::prelude::*;

verus! {

/// Cap on the number of `(` bytes in content handed to the parser. The
/// parser's comment recursion descends at most once per `(` byte, so this
/// bounds its stack depth.
pub const MAX_COMMENT_NESTING: usize = 1024;

/// Number of `(` bytes among the first `n` bytes.
pub open spec fn open_parens_up_to(bytes: Seq<u8>, n: int) -> int
    decreases n,
{
    if n <= 0 {
        0
    } else {
        open_parens_up_to(bytes, n - 1) + if bytes[n - 1] == 40u8 {
            1int
        } else {
            0int
        }
    }
}

/// Number of `(` bytes in the sequence; bounds the parser's recursion depth.
pub open spec fn open_paren_count(bytes: Seq<u8>) -> int {
    open_parens_up_to(bytes, bytes.len() as int)
}

/// Counts the `(` bytes of the content.
pub fn count_open_parens(bytes: &Vec<u8>) -> (n: usize)
    ensures
        n == open_paren_count(bytes@),
{
    let mut count: usize = 0;
    let mut i: usize = 0;
    while i < bytes.len()
        invariant
            i <= bytes@.len(),
            count <= i,
            count == open_parens_up_to(bytes@, i as int),
        decreases bytes@.len() - i,
    {
        if bytes[i] == 40u8 {
            count += 1;
        }
        i += 1;
    }
    count
}

/// What the message parser decides for a byte sequence: Ok for a well-formed
/// message, or the text of its format error. The decision is a function of
/// the bytes alone.
pub uninterp spec fn email_parse_of(bytes: Seq<u8>) -> Result<(), Seq<char>>;

/// Whether the message parser accepts this byte sequence.
pub open spec fn email_parse_accepts(bytes: Seq<u8>) -> bool {
    email_parse_of(bytes) is Ok
}

/// Relies on email_parser::email::Email::parse: the result depends on the
/// given bytes alone, and on failure the error describes the format fault.
/// The parser recurses on nested comments without a cap of its own, so the
/// nesting bound is required here.
#[verifier::external_body]
pub(crate) fn parse_email_bytes(bytes: &Vec<u8>) -> (r: Result<(), String>)
    requires
        open_paren_count(bytes@) <= MAX_COMMENT_NESTING as int,
    ensures
        r is Ok <==> email_parse_of(bytes@) is Ok,
        r is Err ==> r->Err_0@ == email_parse_of(bytes@)->Err_0,
{
    match email_parser::email::Email::parse(bytes.as_slice()) {
        Ok(_) => Ok(()),
        Err(e) => Err(format!("{}", e)),
    }
}

} // verus!
