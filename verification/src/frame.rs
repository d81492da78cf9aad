//! Frame extraction for the streamed-event transport.
//!
//! The wire format is a sequence of event frames, each of the shape
//! `data: <payload>\n\n` where the payload is one or more non-newline
//! characters. `extract_frame` scans a text buffer for the first complete
//! frame, returns its payload with the marker stripped, and hands back the
//! unconsumed remainder so that a partial frame can wait for the next chunk.

use vstd::prelude::*;

verus! {

/// Result of one extraction pass: the first complete frame's payload, if the
/// buffer holds one, and whatever text follows the frame's terminator.
#[derive(Debug, PartialEq)]
pub struct FrameExtraction {
    /// Payload of the first complete frame, with the `data: ` marker and the
    /// blank-line terminator stripped; `None` when the buffer holds no
    /// complete frame.
    pub frame: Option<String>,
    /// Text after the matched terminator (or the whole buffer when no frame
    /// matched); `None` exactly when that text is empty.
    pub remaining_content: Option<String>,
}

/// View of an optional string as an optional character sequence.
pub open spec fn opt_string_view(o: Option<String>) -> Option<Seq<char>> {
    match o {
        Some(s) => Some(s@),
        None => None,
    }
}

/// The text a carry-over option stands for: the empty sequence for `None`.
pub open spec fn carry_text(o: Option<String>) -> Seq<char> {
    match o {
        Some(s) => s@,
        None => Seq::empty(),
    }
}

/// The six marker characters `data: ` stand at position `p` of `s`.
pub open spec fn is_marker_at(s: Seq<char>, p: int) -> bool {
    &&& s[p] == 'd'
    &&& s[p + 1] == 'a'
    &&& s[p + 2] == 't'
    &&& s[p + 3] == 'a'
    &&& s[p + 4] == ':'
    &&& s[p + 5] == ' '
}

/// Index of the first newline at or after `i`, or `s.len()` when the rest of
/// `s` holds none.
pub open spec fn line_end(s: Seq<char>, i: int) -> int
    decreases s.len() - i when 0 <= i <= s.len()
{
    if i >= s.len() {
        s.len() as int
    } else if s[i] == '\n' {
        i
    } else {
        line_end(s, i + 1)
    }
}

/// A complete frame starts at position `p` of `s`: the marker, then at least
/// one non-newline payload character, then the blank-line terminator `\n\n`.
pub open spec fn frame_at(s: Seq<char>, p: int) -> bool {
    let j = line_end(s, p + 6);
    &&& 0 <= p
    &&& p + 6 <= s.len()
    &&& is_marker_at(s, p)
    &&& p + 6 < j
    &&& j + 1 < s.len()
    &&& s[j + 1] == '\n'
}

/// Start position of the leftmost complete frame at or after `p`, if any.
/// A frame spans at least nine characters, so the scan stops once fewer
/// remain.
pub open spec fn first_frame_from(s: Seq<char>, p: int) -> Option<int>
    decreases s.len() - p when 0 <= p <= s.len()
{
    if s.len() - p < 9 {
        None
    } else if frame_at(s, p) {
        Some(p)
    } else {
        first_frame_from(s, p + 1)
    }
}

/// The extraction function itself, at the specification level: the first
/// frame's payload (marker stripped) and the text after its terminator, or
/// no payload and the whole buffer when no complete frame is present.
pub open spec fn spec_extract(s: Seq<char>) -> (Option<Seq<char>>, Seq<char>) {
    match first_frame_from(s, 0) {
        Some(p) => {
            let j = line_end(s, p + 6);
            (Some(s.subrange(p + 6, j)), s.subrange(j + 2, s.len() as int))
        },
        None => (None, s),
    }
}

/// Basic facts about `line_end`: it stays within bounds, lands on a newline
/// unless it ran off the end, and skips no newline.
pub proof fn lemma_line_end_props(s: Seq<char>, i: int)
    requires
        0 <= i <= s.len(),
    ensures
        i <= line_end(s, i) <= s.len(),
        line_end(s, i) < s.len() ==> s[line_end(s, i)] == '\n',
        forall|k: int| i <= k < line_end(s, i) ==> s[k] != '\n',
    decreases s.len() - i,
{
    if i < s.len() && s[i] != '\n' {
        lemma_line_end_props(s, i + 1);
    }
}

/// `line_end` is pinned down by a run of non-newlines ending at a newline or
/// at the end of the text.
pub proof fn lemma_line_end_value(s: Seq<char>, i: int, j: int)
    requires
        0 <= i <= j <= s.len(),
        forall|k: int| i <= k < j ==> s[k] != '\n',
        j < s.len() ==> s[j] == '\n',
    ensures
        line_end(s, i) == j,
    decreases j - i,
{
    if i < j {
        lemma_line_end_value(s, i + 1, j);
    }
}

/// A payload wrapped in the wire framing: the `data: ` marker, the payload,
/// and the blank-line terminator.
pub open spec fn framed(payload: Seq<char>) -> Seq<char> {
    seq!['d', 'a', 't', 'a', ':', ' '] + payload + seq!['\n', '\n']
}

/// The frame scan finds nothing before `p` when no frame starts before `p`.
proof fn lemma_no_frame_scan(s: Seq<char>, p: int)
    requires
        0 <= p <= s.len(),
        forall|q: int| #[trigger] frame_at(s, q) ==> false,
    ensures
        first_frame_from(s, p) is None,
    decreases s.len() - p,
{
    if s.len() - p >= 9 {
        lemma_no_frame_scan(s, p + 1);
    }
}

/// What the scan returns is a frame start, and the earliest one at or after
/// where the scan began.
proof fn lemma_first_frame_found(s: Seq<char>, p0: int, p: int)
    requires
        0 <= p0 <= s.len(),
        first_frame_from(s, p0) == Some(p),
    ensures
        p0 <= p,
        frame_at(s, p),
        forall|q: int| p0 <= q < p ==> !frame_at(s, q),
    decreases s.len() - p0,
{
    if s.len() - p0 >= 9 && !frame_at(s, p0) {
        lemma_first_frame_found(s, p0 + 1, p);
    }
}

/// A buffer that begins with one complete frame yields exactly that frame's
/// payload, and the remainder is exactly the text that follows the
/// terminator, whatever that text holds — in particular a partial next frame.
pub proof fn lemma_extract_frame_prefix(payload: Seq<char>, rest: Seq<char>)
    requires
        payload.len() > 0,
        forall|k: int| 0 <= k < payload.len() ==> payload[k] != '\n',
    ensures
        spec_extract(framed(payload) + rest) == (Some(payload), rest),
{
    let s = framed(payload) + rest;
    let j = 6 + payload.len() as int;
    assert forall|k: int| 6 <= k < j implies s[k] != '\n' by {
        assert(s[k] == payload[k - 6]);
    }
    lemma_line_end_value(s, 6, j);
    assert(s[0] == 'd');
    assert(s[1] == 'a');
    assert(s[2] == 't');
    assert(s[3] == 'a');
    assert(s[4] == ':');
    assert(s[5] == ' ');
    assert(s[j] == '\n');
    assert(s[j + 1] == '\n');
    assert(frame_at(s, 0));
    assert(first_frame_from(s, 0) == Some(0int));
    assert(s.subrange(6, j) =~= payload);
    assert(s.subrange(j + 2, s.len() as int) =~= rest);
}

/// A buffer holding exactly one complete frame and nothing else yields that
/// frame's payload and an empty remainder.
pub proof fn lemma_extract_whole_frame(payload: Seq<char>)
    requires
        payload.len() > 0,
        forall|k: int| 0 <= k < payload.len() ==> payload[k] != '\n',
    ensures
        spec_extract(framed(payload)) == (Some(payload), Seq::<char>::empty()),
{
    lemma_extract_frame_prefix(payload, Seq::empty());
    assert(framed(payload) + Seq::<char>::empty() =~= framed(payload));
}

/// A buffer with no blank-line terminator anywhere holds no complete frame:
/// extraction yields no payload and carries the whole input over.
pub proof fn lemma_no_terminator_no_frame(s: Seq<char>)
    requires
        forall|j: int| 0 <= j < s.len() - 1 ==> !(#[trigger] s[j] == '\n' && s[j + 1] == '\n'),
    ensures
        spec_extract(s) == (None::<Seq<char>>, s),
{
    assert forall|q: int| #[trigger] frame_at(s, q) implies false by {
        let j = line_end(s, q + 6);
        lemma_line_end_props(s, q + 6);
        assert(s[j] == '\n' && s[j + 1] == '\n');
    }
    lemma_no_frame_scan(s, 0);
}

/// Extraction is a pure function of the buffer: two passes over the same
/// unmodified text agree exactly, both on the frame and on the remainder.
pub proof fn lemma_extract_deterministic(
    s: Seq<char>,
    first: (Option<Seq<char>>, Seq<char>),
    second: (Option<Seq<char>>, Seq<char>),
)
    requires
        first == spec_extract(s),
        second == spec_extract(s),
    ensures
        first == second,
{
}

/// When a frame is found, the remainder is strictly shorter than the buffer:
/// repeated extraction terminates.
pub proof fn lemma_extract_consumes(s: Seq<char>)
    requires
        spec_extract(s).0 is Some,
    ensures
        spec_extract(s).1.len() < s.len(),
        spec_extract(s).1.len() <= s.len() - 9,
{
    let p = first_frame_from(s, 0)->Some_0;
    lemma_first_frame_found(s, 0, p);
    let j = line_end(s, p + 6);
    lemma_line_end_props(s, p + 6);
}

/// Scan for the first newline at or after `start`.
fn scan_line_end(content: &str, start: usize, n: usize) -> (j: usize)
    requires
        n == content@.len(),
        start <= n,
    ensures
        j == line_end(content@, start as int),
{
    let mut j = start;
    while j < n
        invariant
            n == content@.len(),
            start <= j <= n,
            forall|k: int| start <= k < j ==> content@[k] != '\n',
        decreases n - j,
    {
        if content.get_char(j) == '\n' {
            proof {
                lemma_line_end_value(content@, start as int, j as int);
            }
            return j;
        }
        j = j + 1;
    }
    proof {
        lemma_line_end_value(content@, start as int, n as int);
    }
    j
}

/// Check whether a complete frame starts at position `p`; on success return
/// the position of the terminator's first newline.
fn frame_match_at(content: &str, p: usize, n: usize) -> (r: Option<usize>)
    requires
        n == content@.len(),
        p <= n,
        n - p >= 9,
    ensures
        match r {
            Some(j) => {
                &&& frame_at(content@, p as int)
                &&& j == line_end(content@, p as int + 6)
                &&& p + 6 < j
                &&& j + 1 < n
            },
            None => !frame_at(content@, p as int),
        },
{
    if content.get_char(p) != 'd' {
        return None;
    }
    if content.get_char(p + 1) != 'a' {
        return None;
    }
    if content.get_char(p + 2) != 't' {
        return None;
    }
    if content.get_char(p + 3) != 'a' {
        return None;
    }
    if content.get_char(p + 4) != ':' {
        return None;
    }
    if content.get_char(p + 5) != ' ' {
        return None;
    }
    let j = scan_line_end(content, p + 6, n);
    proof {
        lemma_line_end_props(content@, p as int + 6);
    }
    if j == p + 6 {
        return None;
    }
    if n - j < 2 {
        return None;
    }
    if content.get_char(j + 1) != '\n' {
        return None;
    }
    Some(j)
}

/// Extract the first complete `data: <payload>\n\n` frame from `content`.
///
/// When a frame is found, `frame` is its payload with the marker stripped and
/// `remaining_content` is everything after the terminator. When none is
/// found — in particular for a buffer that ends mid-payload — `frame` is
/// `None` and the whole input is carried over. An empty leftover is
/// represented as `None` rather than an empty string.
pub fn extract_frame(content: &str) -> (r: FrameExtraction)
    ensures
        opt_string_view(r.frame) == spec_extract(content@).0,
        carry_text(r.remaining_content) == spec_extract(content@).1,
        (r.remaining_content is None) <==> spec_extract(content@).1.len() == 0,
{
    let n = content.unicode_len();
    let mut p: usize = 0;
    while n - p >= 9
        invariant
            n == content@.len(),
            p <= n,
            first_frame_from(content@, 0) == first_frame_from(content@, p as int),
        decreases n - p,
    {
        match frame_match_at(content, p, n) {
            Some(j) => {
                let payload = content.substring_char(p + 6, j).to_owned();
                let remaining_content = if j + 2 == n {
                    None
                } else {
                    Some(content.substring_char(j + 2, n).to_owned())
                };
                return FrameExtraction { frame: Some(payload), remaining_content };
            },
            None => {
                p = p + 1;
            },
        }
    }
    let remaining_content = if n == 0 {
        None
    } else {
        Some(content.to_owned())
    };
    FrameExtraction { frame: None, remaining_content }
}

} // verus!
