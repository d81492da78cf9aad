//! The streaming response adapter: turns arbitrarily chunked transport text
//! into decoded chat records.
//!
//! The adapter owns one piece of state, the carry-over: text received but not
//! yet forming a complete frame. Each chunk is prepended with the carry-over,
//! frames are extracted until none remains — so frames batched into one read
//! are never dropped — and every extracted frame is decoded and handed to the
//! caller in the order its frame completed in the byte stream.

use vstd::prelude::*;
use crate::frame::{
    extract_frame, spec_extract, carry_text, framed, lemma_extract_consumes,
    lemma_extract_frame_prefix, lemma_extract_whole_frame,
};
use crate::qianfan::{
    QianfanChatResponse, QianfanChatResponseParseError, parsed_record, strip_data_prefix,
    has_data_prefix,
};

verus! {

/// The payloads of all complete frames at the front of `s`, in order, and the
/// text left once no complete frame remains.
pub open spec fn spec_frames(s: Seq<char>) -> (Seq<Seq<char>>, Seq<char>)
    decreases s.len(),
    via spec_frames_decreases
{
    if spec_extract(s).0 is Some {
        let payload = spec_extract(s).0->Some_0;
        let tail = spec_frames(spec_extract(s).1);
        (seq![payload] + tail.0, tail.1)
    } else {
        (Seq::empty(), s)
    }
}

#[via_fn]
proof fn spec_frames_decreases(s: Seq<char>) {
    if spec_extract(s).0 is Some {
        lemma_extract_consumes(s);
    }
}

/// Two frames batched into one read are both drained, in their wire order,
/// and nothing is left behind: the adapter never drops a queued frame.
pub proof fn lemma_drain_batched_frames(first: Seq<char>, second: Seq<char>)
    requires
        first.len() > 0,
        second.len() > 0,
        forall|k: int| 0 <= k < first.len() ==> first[k] != '\n',
        forall|k: int| 0 <= k < second.len() ==> second[k] != '\n',
    ensures
        spec_frames(framed(first) + framed(second)).0 == seq![first, second],
        spec_frames(framed(first) + framed(second)).1 == Seq::<char>::empty(),
{
    let s = framed(first) + framed(second);
    lemma_extract_frame_prefix(first, framed(second));
    assert(spec_extract(s).0 == Some(first));
    assert(spec_extract(s).1 == framed(second));
    lemma_extract_whole_frame(second);
    assert(spec_extract(framed(second)).0 == Some(second));
    assert(spec_extract(framed(second)).1 == Seq::<char>::empty());
    assert(spec_frames(Seq::<char>::empty()).0 == Seq::<Seq<char>>::empty());
    assert(spec_frames(Seq::<char>::empty()).1 == Seq::<char>::empty());
    assert(spec_frames(framed(second)).0 == seq![second] + Seq::<Seq<char>>::empty());
    assert(spec_frames(framed(second)).1 == Seq::<char>::empty());
    assert(spec_frames(s).0 == seq![first] + (seq![second] + Seq::<Seq<char>>::empty()));
    assert(spec_frames(s).1 == Seq::<char>::empty());
    assert(spec_frames(s).0 =~= seq![first, second]);
}

/// How one decoded output relates to the frame payload it came from: the
/// record on a payload matching the schema, the fitting error otherwise.
pub open spec fn decoded_output(
    payload: Seq<char>,
    output: Result<QianfanChatResponse, QianfanChatResponseParseError>,
) -> bool {
    match parsed_record(strip_data_prefix(payload)) {
        Some(rv) => output matches Ok(rec) && rec@ == rv,
        None => output matches Err(e) && (e is MissingDataPrefix <==> !has_data_prefix(payload)),
    }
}

/// The whole contract of one pull step: starting from `old_carry`, the chunk
/// is appended, every complete frame is drained in order and decoded, and the
/// frameless tail becomes the new carry-over (`None` when empty).
pub open spec fn drain_post(
    old_carry: Option<String>,
    chunk: Seq<char>,
    new_carry: Option<String>,
    outputs: Seq<Result<QianfanChatResponse, QianfanChatResponseParseError>>,
) -> bool {
    let combined = carry_text(old_carry) + chunk;
    let (payloads, rest) = spec_frames(combined);
    &&& outputs.len() == payloads.len()
    &&& (forall|i: int| 0 <= i < payloads.len() ==> decoded_output(payloads[i], #[trigger] outputs[i]))
    &&& carry_text(new_carry) == rest
    &&& (new_carry is None <==> rest.len() == 0)
}

/// The result of one fused extract-and-decode pass over a buffer.
#[derive(Debug, PartialEq)]
pub struct ExtractedResponseWithRemainingContent {
    /// The record decoded from the first complete frame, when the buffer held
    /// one.
    pub response: Option<QianfanChatResponse>,
    /// The text after the consumed frame — or the whole buffer when no frame
    /// was complete; `None` exactly when that text is empty.
    pub remaining_content: Option<String>,
}

/// Extract the first complete frame of `content` and decode its payload in
/// one pass.
///
/// With no complete frame in the buffer, the whole input becomes the
/// remainder and no response is produced. With one, its payload must parse as
/// a bare record — the extractor has already stripped the marker — and a
/// payload that does not parse fails the whole pass.
pub fn extract_first_response(content: &str) -> (r: Result<
    ExtractedResponseWithRemainingContent,
    QianfanChatResponseParseError,
>)
    ensures
        ({
            let (f, rest) = spec_extract(content@);
            match r {
                Ok(ex) => {
                    &&& (match f {
                        Some(p) => ex.response matches Some(rec) && parsed_record(p) == Some(
                            rec@,
                        ),
                        None => ex.response is None,
                    })
                    &&& carry_text(ex.remaining_content) == rest
                    &&& (ex.remaining_content is None <==> rest.len() == 0)
                },
                Err(e) => {
                    &&& f matches Some(p) && parsed_record(p) is None
                    &&& e is JsonParseError
                },
            }
        }),
{
    let extraction = extract_frame(content);
    match extraction.frame {
        Some(payload) => match QianfanChatResponse::parse_payload(payload.as_str()) {
            Ok(rec) => Ok(
                ExtractedResponseWithRemainingContent {
                    response: Some(rec),
                    remaining_content: extraction.remaining_content,
                },
            ),
            Err(e) => Err(e),
        },
        None => Ok(
            ExtractedResponseWithRemainingContent {
                response: None,
                remaining_content: extraction.remaining_content,
            },
        ),
    }
}

/// One event of the underlying transport, as the adapter sees it.
#[derive(Debug)]
pub enum StreamEvent {
    /// The transport delivered another chunk of text.
    Chunk(String),
    /// The transport failed or timed out: the sequence ends, surfacing no
    /// partial frame.
    TransportError,
    /// The transport reached its normal end of stream.
    Exhausted,
}

/// What one pull step produces.
#[derive(Debug)]
pub enum StreamStep {
    /// The records decoded from this chunk, in frame order; may be empty when
    /// the chunk completed no frame.
    Records(Vec<Result<QianfanChatResponse, QianfanChatResponseParseError>>),
    /// The sequence has ended; no further event produces records.
    Finished,
}

/// The stateful adapter of a streamed chat call: it carries the text between
/// pulls and hands out decoded records.
pub struct QianfanChatResponseStream {
    /// Text received but not yet forming a complete frame; never holds a
    /// complete frame, and never the empty string.
    pub remaining_content: Option<String>,
}

impl QianfanChatResponseStream {
    /// The adapter's invariant: the carry-over is nonempty text in which
    /// extraction finds no complete frame — had it held one, the last pull
    /// would have consumed it.
    pub open spec fn wf(self) -> bool {
        match self.remaining_content {
            Some(c) => c@.len() > 0 && spec_extract(c@).0 is None,
            None => true,
        }
    }

    /// A fresh adapter: no carry-over yet.
    pub fn new() -> (r: Self)
        ensures
            r.remaining_content is None,
            r.wf(),
    {
        QianfanChatResponseStream { remaining_content: None }
    }

    /// Consume one chunk of transport text: prepend the carry-over, extract
    /// frames until none remains, decode each, and keep the frameless tail as
    /// the next carry-over.
    pub fn process_chunk(&mut self, chunk: &str) -> (outputs: Vec<
        Result<QianfanChatResponse, QianfanChatResponseParseError>,
    >)
        requires
            old(self).wf(),
        ensures
            final(self).wf(),
            drain_post(
                old(self).remaining_content,
                chunk@,
                final(self).remaining_content,
                outputs@,
            ),
    {
        let ghost combined = carry_text(old(self).remaining_content) + chunk@;
        let mut buffer: String = match &self.remaining_content {
            Some(c) => {
                let mut b = c.clone();
                b.append(chunk);
                b
            },
            None => chunk.to_owned(),
        };
        let mut outputs: Vec<Result<QianfanChatResponse, QianfanChatResponseParseError>> =
            Vec::new();
        let ghost mut done: Seq<Seq<char>> = Seq::empty();
        proof {
            assert(buffer@ == combined);
            assert(done + spec_frames(buffer@).0 =~= spec_frames(combined).0);
        }
        loop
            invariant
                combined == carry_text(old(self).remaining_content) + chunk@,
                spec_frames(combined).0 == done + spec_frames(buffer@).0,
                spec_frames(combined).1 == spec_frames(buffer@).1,
                outputs@.len() == done.len(),
                forall|i: int|
                    0 <= i < done.len() ==> decoded_output(done[i], #[trigger] outputs@[i]),
            decreases buffer@.len(),
        {
            let extraction = extract_frame(buffer.as_str());
            match extraction.frame {
                Some(payload) => {
                    proof {
                        lemma_extract_consumes(buffer@);
                    }
                    outputs.push(QianfanChatResponse::try_from(payload.as_str()));
                    let ghost tail = spec_frames(spec_extract(buffer@).1);
                    proof {
                        assert(spec_frames(buffer@).0 == seq![payload@] + tail.0);
                        done = done.push(payload@);
                        assert(done + tail.0 =~= spec_frames(combined).0);
                    }
                    buffer = match extraction.remaining_content {
                        Some(c) => c,
                        None => String::new(),
                    };
                },
                None => {
                    self.remaining_content = extraction.remaining_content;
                    proof {
                        assert(spec_frames(buffer@).0 =~= Seq::<Seq<char>>::empty());
                        assert(done + spec_frames(buffer@).0 =~= done);
                    }
                    return outputs;
                },
            }
        }
    }

    /// One pull step of the state machine: a chunk is drained as in
    /// `process_chunk`; a transport error or the end of the stream finishes
    /// the sequence, changing nothing and surfacing no partial frame.
    pub fn handle_event(&mut self, event: StreamEvent) -> (r: StreamStep)
        requires
            old(self).wf(),
        ensures
            final(self).wf(),
            match event {
                StreamEvent::Chunk(c) => r matches StreamStep::Records(outputs) && drain_post(
                    old(self).remaining_content,
                    c@,
                    final(self).remaining_content,
                    outputs@,
                ),
                StreamEvent::TransportError => r is Finished && final(self).remaining_content
                    == old(self).remaining_content,
                StreamEvent::Exhausted => r is Finished && final(self).remaining_content == old(
                    self,
                ).remaining_content,
            },
    {
        match event {
            StreamEvent::Chunk(c) => StreamStep::Records(self.process_chunk(c.as_str())),
            StreamEvent::TransportError => StreamStep::Finished,
            StreamEvent::Exhausted => StreamStep::Finished,
        }
    }
}

} // verus!
