//! The `multipart/x-mixed-replace` framing of the stream.
//!
//! A part is exactly
//!
//! ```text
//! Content-Type: image/svg+xml\r\n
//! Content-Length: <N>\r\n
//! \r\n
//! <N bytes of SVG>\r\n
//! --frame\r\n
//! ```
//!
//! where `N` is the byte length of the SVG content; the boundary token is
//! the literal `frame`.  The response opens with the boundary opener
//! `--frame\r\n`, then the initial part, then one part per publish; with the
//! double-frame workaround every part is written twice back to back.

use vstd::prelude::*;

use crate::text::{spec_dec, spec_has_prefix, u64_to_dec};
use crate::SvgFrame;

verus! {

/// The byte length of a text, as `str::len` reports it for its UTF-8
/// encoding.
pub open spec fn spec_byte_len(c: Seq<char>) -> nat {
    (vstd::utf8::encode_utf8(c).len() as usize) as nat
}

/// The length of the part's header section, up to and including the blank
/// line that separates it from the content.
pub open spec fn spec_part_header_len(c: Seq<char>) -> int {
    "Content-Type: image/svg+xml\r\n"@.len() + "Content-Length: "@.len() + spec_dec(
        spec_byte_len(c),
    ).len() + "\r\n\r\n"@.len() as int
}

/// One part of the multipart stream carrying the content `c`.
pub open spec fn spec_part(c: Seq<char>) -> Seq<char> {
    "Content-Type: image/svg+xml\r\n"@ + "Content-Length: "@ + spec_dec(spec_byte_len(c))
        + "\r\n\r\n"@ + c + "\r\n--frame\r\n"@
}

/// Encodes one frame as one part.
pub fn encode_multipart(frame: &SvgFrame) -> (r: String)
    ensures
        r@ == spec_part(frame.content@),
{
    let len = frame.content.as_str().len();
    let mut out = String::from_str("Content-Type: image/svg+xml\r\n");
    out.append("Content-Length: ");
    let dec = u64_to_dec(len as u64);
    out.append(dec.as_str());
    out.append("\r\n\r\n");
    out.append(frame.content.as_str());
    out.append("\r\n--frame\r\n");
    proof {
        assert(out@ =~= spec_part(frame.content@));
    }
    out
}

/// What one frame contributes to the byte stream: its part, twice when the
/// double-frame workaround is on.
pub open spec fn spec_emission(c: Seq<char>, double: bool) -> Seq<char> {
    if double {
        spec_part(c) + spec_part(c)
    } else {
        spec_part(c)
    }
}

/// Encodes one frame's emission, duplicating the part when `duplicate` is
/// set.
pub fn encode_stream_frame(frame: &SvgFrame, duplicate: bool) -> (r: String)
    ensures
        r@ == spec_emission(frame.content@, duplicate),
{
    if duplicate {
        let mut out = encode_multipart(frame);
        let second = encode_multipart(frame);
        out.append(second.as_str());
        out
    } else {
        encode_multipart(frame)
    }
}

/// What one frame contributes to the stream, as a list of parts.
pub open spec fn spec_emission_parts(c: Seq<char>, double: bool) -> Seq<Seq<char>> {
    if double {
        seq![spec_part(c), spec_part(c)]
    } else {
        seq![spec_part(c)]
    }
}

/// The parts a subscriber observes: the initial frame's emission, then one
/// emission per publish, in order.
pub open spec fn spec_transcript_parts(
    initial: Seq<char>,
    updates: Seq<Seq<char>>,
    double: bool,
) -> Seq<Seq<char>>
    decreases updates.len(),
{
    if updates.len() == 0 {
        spec_emission_parts(initial, double)
    } else {
        spec_transcript_parts(initial, updates.drop_last(), double) + spec_emission_parts(
            updates.last(),
            double,
        )
    }
}

/// A subscriber that observes `N` publishes without disconnecting has
/// received exactly `N + 1` parts, or `2 * (N + 1)` with the double-frame
/// workaround (keep-alive emissions aside).
pub proof fn lemma_transcript_part_count(
    initial: Seq<char>,
    updates: Seq<Seq<char>>,
    double: bool,
)
    ensures
        spec_transcript_parts(initial, updates, double).len() == (updates.len() + 1) * (
        if double {
            2int
        } else {
            1int
        }),
    decreases updates.len(),
{
    if updates.len() > 0 {
        lemma_transcript_part_count(initial, updates.drop_last(), double);
    }
}

/// The first part a subscriber observes is the initial frame's part: its
/// header opens with the SVG content type, and its body is the frame's
/// content, rendered at join time.
pub proof fn lemma_first_part(initial: Seq<char>, updates: Seq<Seq<char>>, double: bool)
    ensures
        spec_transcript_parts(initial, updates, double).len() > 0,
        spec_transcript_parts(initial, updates, double)[0] == spec_part(initial),
        spec_has_prefix(spec_part(initial), "Content-Type: image/svg+xml\r\n"@),
        spec_part(initial).subrange(
            spec_part_header_len(initial),
            spec_part_header_len(initial) + initial.len(),
        ) == initial,
    decreases updates.len(),
{
    lemma_transcript_part_count(initial, updates, double);
    if updates.len() > 0 {
        lemma_first_part(initial, updates.drop_last(), double);
    }
    let p = spec_part(initial);
    let ct = "Content-Type: image/svg+xml\r\n"@;
    assert(p.subrange(0, ct.len() as int) =~= ct);
    let h = spec_part_header_len(initial);
    assert(p.subrange(h, h + initial.len()) =~= initial);
}

} // verus!
