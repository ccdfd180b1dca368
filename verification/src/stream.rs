use crate::chat::Usage;
use crate::error::Error;
use vstd::prelude::*;
use vstd::string::StringExecFns;

verus! {

/// One decoded item of a provider's streaming transport, as the adapter's
/// frame decoder hands it to the pipeline.
#[derive(Debug)]
pub enum TransportEvent {
    Start,
    Chunk(String),
    ReasoningChunk(String),
    End { finish_reason: Option<String>, usage: Option<Usage> },
    Failed { message: String },
}

/// One incremental text delta.
#[derive(Debug)]
pub struct StreamChunk {
    pub content: String,
}

/// The terminal event of a successful stream, carrying what capture was
/// asked for.
#[derive(Debug)]
pub struct StreamEnd {
    pub finish_reason: Option<String>,
    pub captured_usage: Option<Usage>,
    pub captured_content: Option<String>,
}

/// One uniform stream event handed to the consumer.
#[derive(Debug)]
pub enum ChatStreamEvent {
    Start,
    Chunk(StreamChunk),
    ReasoningChunk(StreamChunk),
    End(StreamEnd),
}

/// Whether a transport item ends the stream.
pub open spec fn is_terminal(ev: TransportEvent) -> bool {
    ev is End || ev is Failed
}

/// The text of one transport item that counts toward content capture.
pub open spec fn chunk_text(ev: TransportEvent) -> Seq<char> {
    match ev {
        TransportEvent::Chunk(t) => t@,
        _ => Seq::empty(),
    }
}

/// The reassembled content of the first `upto` transport items.
pub open spec fn captured_text(items: Seq<TransportEvent>, upto: int) -> Seq<char>
    decreases upto,
{
    if upto <= 0 {
        Seq::empty()
    } else {
        captured_text(items, upto - 1) + chunk_text(items[upto - 1])
    }
}

/// How many items of a transport sequence the pipeline consumes: everything
/// up to and including the first terminal item.
pub open spec fn active_len(items: Seq<TransportEvent>) -> int
    decreases items.len(),
{
    if items.len() == 0 {
        0
    } else if is_terminal(items[0]) {
        1
    } else {
        1 + active_len(items.drop_first())
    }
}

/// What the pipeline emits for the transport item at position `i`: the same
/// event, in the same position; the terminal `End` carries the capture, and
/// a transport failure becomes the terminal error.
pub open spec fn stream_out_ok(
    items: Seq<TransportEvent>,
    i: int,
    out: Result<ChatStreamEvent, Error>,
    capture_content: bool,
    capture_usage: bool,
) -> bool {
    match items[i] {
        TransportEvent::Start => out matches Ok(ChatStreamEvent::Start),
        TransportEvent::Chunk(t) => out matches Ok(ChatStreamEvent::Chunk(c)) && c.content@ == t@,
        TransportEvent::ReasoningChunk(t) => out matches Ok(ChatStreamEvent::ReasoningChunk(c))
            && c.content@ == t@,
        TransportEvent::End { finish_reason, usage } => out matches Ok(ChatStreamEvent::End(e))
            && e.finish_reason == finish_reason && e.captured_usage == (if capture_usage {
            usage
        } else {
            None
        }) && (capture_content ==> (e.captured_content matches Some(c) && c@ == captured_text(
            items,
            i,
        ))) && (!capture_content ==> e.captured_content is None),
        TransportEvent::Failed { message } => out matches Err(Error::Transport { message: m })
            && m@ == message@,
    }
}

/// Drives one stream: accumulates content and usage capture across
/// incremental events and seals them into the terminal event. Events pass
/// through in the exact order received; nothing follows the terminal one.
pub struct StreamPipeline {
    pub capture_content: bool,
    pub capture_usage: bool,
    pub done: bool,
    pub acc: String,
}

impl StreamPipeline {
    pub fn new(capture_content: bool, capture_usage: bool) -> (p: StreamPipeline)
        ensures
            p.capture_content == capture_content,
            p.capture_usage == capture_usage,
            !p.done,
            p.acc@ == Seq::<char>::empty(),
    {
        StreamPipeline { capture_content, capture_usage, done: false, acc: String::new() }
    }

    /// Feeds one decoded transport item through the pipeline and yields the
    /// event the consumer sees, as soon as the item is decoded.
    ///
    /// A chunk passes through unchanged (and is accumulated when content
    /// capture is on); the transport's end yields the terminal `End` with
    /// the captured content and usage; a transport failure yields the
    /// terminal error. After a terminal item the pipeline is done and takes
    /// nothing further.
    pub fn step(&mut self, ev: TransportEvent) -> (r: Result<ChatStreamEvent, Error>)
        requires
            !old(self).done,
        ensures
            final(self).capture_content == old(self).capture_content,
            final(self).capture_usage == old(self).capture_usage,
            final(self).done == is_terminal(ev),
            match ev {
                TransportEvent::Start => r matches Ok(ChatStreamEvent::Start) && final(self).acc@
                    == old(self).acc@,
                TransportEvent::Chunk(t) => (r matches Ok(ChatStreamEvent::Chunk(c)) && c.content
                    == t) && final(self).acc@ == old(self).acc@ + (if old(self).capture_content {
                    t@
                } else {
                    Seq::empty()
                }),
                TransportEvent::ReasoningChunk(t) => (r matches Ok(
                    ChatStreamEvent::ReasoningChunk(c),
                ) && c.content == t) && final(self).acc@ == old(self).acc@,
                TransportEvent::End { finish_reason, usage } => r matches Ok(
                    ChatStreamEvent::End(e),
                ) && e.finish_reason == finish_reason && e.captured_usage == (if old(
                    self,
                ).capture_usage {
                    usage
                } else {
                    None
                }) && (old(self).capture_content ==> (e.captured_content matches Some(c) && c@
                    == old(self).acc@)) && (!old(self).capture_content
                    ==> e.captured_content is None),
                TransportEvent::Failed { message } => r matches Err(
                    Error::Transport { message: m },
                ) && m == message,
            },
    {
        match ev {
            TransportEvent::Start => Ok(ChatStreamEvent::Start),
            TransportEvent::Chunk(t) => {
                if self.capture_content {
                    self.acc.append(t.as_str());
                } else {
                    proof {
                        assert(self.acc@ + Seq::<char>::empty() =~= self.acc@);
                    }
                }
                Ok(ChatStreamEvent::Chunk(StreamChunk { content: t }))
            },
            TransportEvent::ReasoningChunk(t) => Ok(
                ChatStreamEvent::ReasoningChunk(StreamChunk { content: t }),
            ),
            TransportEvent::End { finish_reason, usage } => {
                self.done = true;
                let captured_content = if self.capture_content {
                    Some(self.acc.clone())
                } else {
                    None
                };
                let captured_usage = if self.capture_usage {
                    usage
                } else {
                    None
                };
                Ok(ChatStreamEvent::End(StreamEnd { finish_reason, captured_usage, captured_content }))
            },
            TransportEvent::Failed { message } => {
                self.done = true;
                Err(Error::Transport { message })
            },
        }
    }
}

/// If the first terminal item stands at position `k`, the pipeline consumes
/// exactly the items up to and including it.
pub proof fn lemma_active_len_terminal(items: Seq<TransportEvent>, k: int)
    requires
        0 <= k < items.len(),
        is_terminal(items[k]),
        forall|j: int| 0 <= j < k ==> !is_terminal(#[trigger] items[j]),
    ensures
        active_len(items) == k + 1,
    decreases k,
{
    if k > 0 {
        let rest = items.drop_first();
        assert(forall|m: int| 0 <= m < rest.len() ==> rest[m] == items[m + 1]);
        lemma_active_len_terminal(rest, k - 1);
    }
}

/// A transport sequence without a terminal item is consumed whole.
pub proof fn lemma_active_len_all(items: Seq<TransportEvent>)
    requires
        forall|j: int| 0 <= j < items.len() ==> !is_terminal(#[trigger] items[j]),
    ensures
        active_len(items) == items.len(),
    decreases items.len(),
{
    if items.len() > 0 {
        let rest = items.drop_first();
        assert(forall|m: int| 0 <= m < rest.len() ==> rest[m] == items[m + 1]);
        lemma_active_len_all(rest);
    }
}

/// Runs a whole decoded transport sequence through a fresh pipeline.
///
/// The output holds one event per consumed item, in the exact order
/// received; consumption stops right after the first terminal item, so
/// nothing follows the terminal `End` or the terminal error. With content
/// capture on, the terminal `End` carries the concatenation of every chunk
/// before it; with it off, no reassembled content. Usage is attached only
/// when usage capture is on.
pub fn run_stream(
    items: &Vec<TransportEvent>,
    capture_content: bool,
    capture_usage: bool,
) -> (r: Vec<Result<ChatStreamEvent, Error>>)
    ensures
        r@.len() == active_len(items@),
        forall|i: int|
            0 <= i < r@.len() ==> stream_out_ok(items@, i, #[trigger] r@[i], capture_content,
                capture_usage),
{
    let mut pipe = StreamPipeline::new(capture_content, capture_usage);
    let mut out: Vec<Result<ChatStreamEvent, Error>> = Vec::new();
    let n = items.len();
    let mut i: usize = 0;
    while i < n && !pipe.done
        invariant
            n == items@.len(),
            0 <= i <= n,
            out@.len() == i,
            pipe.capture_content == capture_content,
            pipe.capture_usage == capture_usage,
            forall|j: int| 0 <= j < i - 1 ==> !is_terminal(#[trigger] items@[j]),
            pipe.done <==> (i > 0 && is_terminal(items@[i - 1])),
            !pipe.done ==> pipe.acc@ == (if capture_content {
                captured_text(items@, i as int)
            } else {
                Seq::<char>::empty()
            }),
            forall|j: int|
                0 <= j < i ==> stream_out_ok(items@, j, #[trigger] out@[j], capture_content,
                    capture_usage),
        decreases n - i,
    {
        let ev = copy_event(&items[i]);
        let res = pipe.step(ev);
        out.push(res);
        i += 1;
        proof {
            if !pipe.done && capture_content {
                assert(pipe.acc@ =~= captured_text(items@, i as int));
            }
            assert(stream_out_ok(items@, i - 1, out@[i - 1], capture_content, capture_usage));
        }
    }
    proof {
        if pipe.done {
            lemma_active_len_terminal(items@, i - 1);
        } else {
            lemma_active_len_all(items@);
        }
    }
    out
}

/// Copies one transport item field by field.
fn copy_event(ev: &TransportEvent) -> (r: TransportEvent)
    ensures
        r == *ev,
{
    match ev {
        TransportEvent::Start => TransportEvent::Start,
        TransportEvent::Chunk(t) => TransportEvent::Chunk(t.clone()),
        TransportEvent::ReasoningChunk(t) => TransportEvent::ReasoningChunk(t.clone()),
        TransportEvent::End { finish_reason, usage } => {
            let f = match finish_reason {
                Some(s) => Some(s.clone()),
                None => None,
            };
            TransportEvent::End { finish_reason: f, usage: *usage }
        },
        TransportEvent::Failed { message } => TransportEvent::Failed { message: message.clone() },
    }
}

} // verus!
