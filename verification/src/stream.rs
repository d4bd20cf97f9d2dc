//! The response stream: chunks of outputs, each output with an optional delta
//! of text and tool-call events. The aggregator appends delta text in arrival
//! order and surfaces a notice for every tool call; the notices never touch
//! the text.

use vstd::prelude::*;
use vstd::string::StringExecFns;
use crate::errors::{map_status_message, mapped_message, CompletionError};
use crate::text::{is_blank, is_blank_text};

verus! {

/// What a notice says before the kind of tool.
pub const RUNNING_OPENING: &'static str = "Running ";

/// What a notice says after the kind of tool.
pub const RUNNING_CLOSING: &'static str = " tool...";

/// What a function-call notice says before the function's name.
pub const CALLING_OPENING: &'static str = "Calling tool: ";

/// What a function-call notice says between name and arguments.
pub const CALLING_ARGUMENTS: &'static str = " with arguments: ";

/// Where a tool call is executed and by which tool.
#[derive(Debug, Clone, Copy, PartialEq, Eq, Structural)]
pub enum ToolKind {
    Invalid,
    ClientSideTool,
    WebSearchTool,
    XSearchTool,
    CodeExecutionTool,
    CollectionsSearchTool,
    McpTool,
}

/// A function-style call: the function's name and its serialized arguments.
#[derive(Debug, Clone, PartialEq, Eq)]
pub struct FunctionCall {
    pub name: String,
    pub arguments: String,
}

/// A tool invocation surfaced in the stream. It is observed, never acted on.
#[derive(Debug, Clone, PartialEq, Eq)]
pub struct ToolCallEvent {
    pub kind: ToolKind,
    pub function: Option<FunctionCall>,
}

/// An increment of the response: text, possibly empty, and tool-call events.
#[derive(Debug, Clone, PartialEq, Eq)]
pub struct Delta {
    pub content: String,
    pub tool_calls: Vec<ToolCallEvent>,
}

/// One output of a chunk; it may carry a delta.
#[derive(Debug, Clone, PartialEq, Eq)]
pub struct Output {
    pub delta: Option<Delta>,
}

/// A unit of the response stream.
#[derive(Debug, Clone, PartialEq, Eq)]
pub struct StreamChunk {
    pub outputs: Vec<Output>,
}

/// What the stream delivers next: a chunk, or the message of a delivery
/// failure, after which nothing more is read.
#[derive(Debug, Clone, PartialEq, Eq)]
pub enum StreamEvent {
    Chunk(StreamChunk),
    Failed(String),
}

/// The name a kind of tool is shown under.
pub open spec fn kind_name(kind: ToolKind) -> Seq<char> {
    match kind {
        ToolKind::Invalid => "Invalid"@,
        ToolKind::ClientSideTool => "ClientSideTool"@,
        ToolKind::WebSearchTool => "WebSearchTool"@,
        ToolKind::XSearchTool => "XSearchTool"@,
        ToolKind::CodeExecutionTool => "CodeExecutionTool"@,
        ToolKind::CollectionsSearchTool => "CollectionsSearchTool"@,
        ToolKind::McpTool => "McpTool"@,
    }
}

/// The notice that a tool of the given kind is running.
pub open spec fn running_notice(kind: ToolKind) -> Seq<char> {
    RUNNING_OPENING@ + kind_name(kind) + RUNNING_CLOSING@
}

/// The notice that a function is called with its arguments.
pub open spec fn calling_notice(call: FunctionCall) -> Seq<char> {
    CALLING_OPENING@ + call.name@ + CALLING_ARGUMENTS@ + call.arguments@
}

/// The notices of one tool call: that the tool runs and, for a function-style
/// call, which function is called with which arguments.
pub open spec fn call_notices(call: ToolCallEvent) -> Seq<Seq<char>> {
    match call.function {
        Some(function) => seq![running_notice(call.kind), calling_notice(function)],
        None => seq![running_notice(call.kind)],
    }
}

/// The notices of a run of tool calls, in order.
pub open spec fn calls_notices(calls: Seq<ToolCallEvent>) -> Seq<Seq<char>>
    decreases calls.len(),
{
    if calls.len() == 0 {
        Seq::empty()
    } else {
        calls_notices(calls.drop_last()) + call_notices(calls.last())
    }
}

/// The text an output contributes: its delta's content, or nothing.
pub open spec fn output_text(output: Output) -> Seq<char> {
    match output.delta {
        Some(delta) => delta.content@,
        None => Seq::empty(),
    }
}

/// The notices an output gives rise to: those of its delta's tool calls.
pub open spec fn output_notices(output: Output) -> Seq<Seq<char>> {
    match output.delta {
        Some(delta) => calls_notices(delta.tool_calls@),
        None => Seq::empty(),
    }
}

/// The text of a run of outputs: their contents, concatenated in order.
pub open spec fn outputs_text(outputs: Seq<Output>) -> Seq<char>
    decreases outputs.len(),
{
    if outputs.len() == 0 {
        Seq::empty()
    } else {
        outputs_text(outputs.drop_last()) + output_text(outputs.last())
    }
}

/// The notices of a run of outputs, in order.
pub open spec fn outputs_notices(outputs: Seq<Output>) -> Seq<Seq<char>>
    decreases outputs.len(),
{
    if outputs.len() == 0 {
        Seq::empty()
    } else {
        outputs_notices(outputs.drop_last()) + output_notices(outputs.last())
    }
}

/// The text of a chunk.
pub open spec fn chunk_text(chunk: StreamChunk) -> Seq<char> {
    outputs_text(chunk.outputs@)
}

/// The notices of a chunk.
pub open spec fn chunk_notices(chunk: StreamChunk) -> Seq<Seq<char>> {
    outputs_notices(chunk.outputs@)
}

/// The text of a stream: the ordered concatenation of all delta contents.
pub open spec fn stream_text(chunks: Seq<StreamChunk>) -> Seq<char>
    decreases chunks.len(),
{
    if chunks.len() == 0 {
        Seq::empty()
    } else {
        stream_text(chunks.drop_last()) + chunk_text(chunks.last())
    }
}

/// The notices of a stream, in order.
pub open spec fn stream_notices(chunks: Seq<StreamChunk>) -> Seq<Seq<char>>
    decreases chunks.len(),
{
    if chunks.len() == 0 {
        Seq::empty()
    } else {
        stream_notices(chunks.drop_last()) + chunk_notices(chunks.last())
    }
}

/// The texts of a vector of strings.
pub open spec fn texts_of(lines: Seq<String>) -> Seq<Seq<char>> {
    lines.map_values(|line: String| line@)
}

/// How an exhausted stream with the given text ends: with the text where
/// something other than whitespace is in it, as missing completion text
/// otherwise.
pub open spec fn is_outcome_of(text: Seq<char>, outcome: Result<String, CompletionError>) -> bool {
    if is_blank(text) {
        outcome == Err::<String, CompletionError>(CompletionError::MissingCompletionText)
    } else {
        outcome matches Ok(summary) && summary@ == text
    }
}

/// Two runs of outputs carry the same delta contents at the same places.
pub open spec fn same_contents(left: Seq<Output>, right: Seq<Output>) -> bool {
    &&& left.len() == right.len()
    &&& forall|i: int| 0 <= i < left.len() ==> output_text(#[trigger] left[i]) == output_text(right[i])
}

/// Two streams carry the same delta contents at the same places, whatever
/// tool calls they carry.
pub open spec fn same_stream_contents(left: Seq<StreamChunk>, right: Seq<StreamChunk>) -> bool {
    &&& left.len() == right.len()
    &&& forall|i: int|
        0 <= i < left.len() ==> same_contents((#[trigger] left[i]).outputs@, right[i].outputs@)
}

/// The text of a run of outputs depends on the delta contents alone.
pub proof fn lemma_outputs_text_ignores_tool_calls(left: Seq<Output>, right: Seq<Output>)
    requires
        same_contents(left, right),
    ensures
        outputs_text(left) == outputs_text(right),
    decreases left.len(),
{
    if left.len() > 0 {
        assert(same_contents(left.drop_last(), right.drop_last())) by {
            assert forall|i: int| 0 <= i < left.drop_last().len() implies output_text(
                #[trigger] left.drop_last()[i],
            ) == output_text(right.drop_last()[i]) by {
                assert(left.drop_last()[i] == left[i]);
                assert(right.drop_last()[i] == right[i]);
            }
        }
        lemma_outputs_text_ignores_tool_calls(left.drop_last(), right.drop_last());
        assert(output_text(left[left.len() - 1]) == output_text(right[left.len() - 1]));
    }
}

/// The text of a stream is the same whatever tool-call events are interleaved
/// with its delta contents.
pub proof fn lemma_stream_text_ignores_tool_calls(left: Seq<StreamChunk>, right: Seq<StreamChunk>)
    requires
        same_stream_contents(left, right),
    ensures
        stream_text(left) == stream_text(right),
    decreases left.len(),
{
    if left.len() > 0 {
        assert(same_stream_contents(left.drop_last(), right.drop_last())) by {
            assert forall|i: int| 0 <= i < left.drop_last().len() implies same_contents(
                (#[trigger] left.drop_last()[i]).outputs@,
                right.drop_last()[i].outputs@,
            ) by {
                assert(left.drop_last()[i] == left[i]);
                assert(right.drop_last()[i] == right[i]);
            }
        }
        lemma_stream_text_ignores_tool_calls(left.drop_last(), right.drop_last());
        let last = left.len() - 1;
        assert(same_contents(left[last].outputs@, right[last].outputs@));
        lemma_outputs_text_ignores_tool_calls(left[last].outputs@, right[last].outputs@);
    }
}

/// The text of a stream is the text of its front followed by the text of its
/// last chunk, and likewise for any split in two.
pub proof fn lemma_stream_text_concat(front: Seq<StreamChunk>, back: Seq<StreamChunk>)
    ensures
        stream_text(front + back) == stream_text(front) + stream_text(back),
    decreases back.len(),
{
    if back.len() == 0 {
        assert(front + back =~= front);
    } else {
        assert((front + back).drop_last() =~= front + back.drop_last());
        assert((front + back).last() == back.last());
        lemma_stream_text_concat(front, back.drop_last());
        assert(stream_text(front + back) =~= stream_text(front) + stream_text(back));
    }
}

/// A stream whose deltas are all empty, or that has no chunks at all, has a
/// blank text, so aggregating it can only end as missing completion text.
pub proof fn lemma_empty_contents_give_blank_text(chunks: Seq<StreamChunk>)
    requires
        forall|i: int, j: int|
            0 <= i < chunks.len() && 0 <= j < chunks[i].outputs@.len() ==> output_text(
                #[trigger] chunks[i].outputs@[j],
            ).len() == 0,
    ensures
        stream_text(chunks).len() == 0,
        is_blank(stream_text(chunks)),
        forall|outcome: Result<String, CompletionError>|
            #[trigger] is_outcome_of(stream_text(chunks), outcome) ==> outcome == Err::<
                String,
                CompletionError,
            >(CompletionError::MissingCompletionText),
    decreases chunks.len(),
{
    if chunks.len() > 0 {
        let front = chunks.drop_last();
        assert forall|i: int, j: int|
            0 <= i < front.len() && 0 <= j < front[i].outputs@.len() implies output_text(
            #[trigger] front[i].outputs@[j],
        ).len() == 0 by {
            assert(front[i] == chunks[i]);
        }
        lemma_empty_contents_give_blank_text(front);
        lemma_empty_outputs_give_no_text(chunks.last().outputs@);
    }
}

/// A run of outputs whose deltas are all empty has no text.
pub proof fn lemma_empty_outputs_give_no_text(outputs: Seq<Output>)
    requires
        forall|j: int| 0 <= j < outputs.len() ==> output_text(#[trigger] outputs[j]).len() == 0,
    ensures
        outputs_text(outputs).len() == 0,
    decreases outputs.len(),
{
    if outputs.len() > 0 {
        let front = outputs.drop_last();
        assert forall|j: int| 0 <= j < front.len() implies output_text(#[trigger] front[j]).len()
            == 0 by {
            assert(front[j] == outputs[j]);
        }
        lemma_empty_outputs_give_no_text(front);
        assert(output_text(outputs[outputs.len() - 1]).len() == 0);
    }
}

/// The message of the first delivery failure among `events`, if any.
pub open spec fn failure_of(events: Seq<StreamEvent>) -> Option<Seq<char>>
    decreases events.len(),
{
    if events.len() == 0 {
        None
    } else {
        match failure_of(events.drop_last()) {
            Some(message) => Some(message),
            None => match events.last() {
                StreamEvent::Failed(message) => Some(message@),
                StreamEvent::Chunk(_) => None,
            },
        }
    }
}

/// The chunks delivered before the first failure among `events`, in order.
pub open spec fn delivered(events: Seq<StreamEvent>) -> Seq<StreamChunk>
    decreases events.len(),
{
    if events.len() == 0 {
        Seq::empty()
    } else if failure_of(events.drop_last()) is Some {
        delivered(events.drop_last())
    } else {
        match events.last() {
            StreamEvent::Chunk(chunk) => delivered(events.drop_last()).push(chunk),
            StreamEvent::Failed(_) => delivered(events.drop_last()),
        }
    }
}

/// How an attempt over the given events ends: with the mapped message of the
/// first delivery failure, or as the exhausted stream of its chunks ends.
pub open spec fn is_attempt_outcome(
    events: Seq<StreamEvent>,
    outcome: Result<String, CompletionError>,
) -> bool {
    match failure_of(events) {
        Some(message) => outcome matches Err(CompletionError::Agentic(error)) && error@
            == mapped_message(message),
        None => is_outcome_of(stream_text(delivered(events)), outcome),
    }
}

/// Once a delivery has failed, what follows changes neither the failure nor
/// what was delivered before it.
pub proof fn lemma_nothing_is_read_after_a_failure(events: Seq<StreamEvent>, upto: int)
    requires
        0 <= upto <= events.len(),
        failure_of(events.take(upto)) is Some,
    ensures
        failure_of(events) == failure_of(events.take(upto)),
        delivered(events) == delivered(events.take(upto)),
    decreases events.len(),
{
    if upto == events.len() {
        assert(events.take(upto) =~= events);
    } else {
        assert(events.drop_last().take(upto) =~= events.take(upto));
        lemma_nothing_is_read_after_a_failure(events.drop_last(), upto);
    }
}

/// Without a failure, every event is a chunk and all of them are delivered.
pub proof fn lemma_all_delivered_without_failure(events: Seq<StreamEvent>)
    requires
        failure_of(events) is None,
    ensures
        delivered(events).len() == events.len(),
        forall|i: int|
            0 <= i < events.len() ==> (#[trigger] events[i]) == StreamEvent::Chunk(
                delivered(events)[i],
            ),
    decreases events.len(),
{
    if events.len() > 0 {
        lemma_all_delivered_without_failure(events.drop_last());
        assert forall|i: int| 0 <= i < events.len() implies (#[trigger] events[i])
            == StreamEvent::Chunk(delivered(events)[i]) by {
            if i < events.len() - 1 {
                assert(events.drop_last()[i] == events[i]);
            }
        }
    }
}

/// The name a kind of tool is shown under.
pub fn kind_label(kind: ToolKind) -> (label: &'static str)
    ensures
        label@ == kind_name(kind),
{
    match kind {
        ToolKind::Invalid => "Invalid",
        ToolKind::ClientSideTool => "ClientSideTool",
        ToolKind::WebSearchTool => "WebSearchTool",
        ToolKind::XSearchTool => "XSearchTool",
        ToolKind::CodeExecutionTool => "CodeExecutionTool",
        ToolKind::CollectionsSearchTool => "CollectionsSearchTool",
        ToolKind::McpTool => "McpTool",
    }
}

/// Appends the notices of one tool call to `notices`.
pub fn note_tool_call(notices: &mut Vec<String>, call: &ToolCallEvent)
    ensures
        texts_of(final(notices)@) == texts_of(old(notices)@) + call_notices(*call),
{
    let mut running = String::from_str(RUNNING_OPENING);
    running.append(kind_label(call.kind));
    running.append(RUNNING_CLOSING);
    notices.push(running);
    match &call.function {
        Some(function) => {
            let mut calling = String::from_str(CALLING_OPENING);
            calling.append(function.name.as_str());
            calling.append(CALLING_ARGUMENTS);
            calling.append(function.arguments.as_str());
            notices.push(calling);
        },
        None => {},
    }
    assert(texts_of(notices@) =~= texts_of(old(notices)@) + call_notices(*call));
}

/// The growing summary of one attempt. It is append-only and starts empty
/// with every attempt.
pub struct Aggregator {
    summary: String,
}

impl View for Aggregator {
    type V = Seq<char>;

    closed spec fn view(&self) -> Seq<char> {
        self.summary@
    }
}

impl Aggregator {
    /// An aggregator that has seen nothing.
    pub fn new() -> (fresh: Aggregator)
        ensures
            fresh@ == Seq::<char>::empty(),
    {
        Aggregator { summary: String::new() }
    }

    /// Takes in one chunk: for each output with a delta, first its tool calls
    /// are noted, then its content is appended. Returns the notices, in order.
    pub fn absorb(&mut self, chunk: &StreamChunk) -> (notices: Vec<String>)
        ensures
            final(self)@ == old(self)@ + chunk_text(*chunk),
            texts_of(notices@) == chunk_notices(*chunk),
    {
        let mut notices: Vec<String> = Vec::new();
        let outputs = &chunk.outputs;
        let mut i: usize = 0;
        assert(texts_of(notices@) =~= outputs_notices(outputs@.take(0)));
        assert(self@ =~= old(self)@ + outputs_text(outputs@.take(0)));
        while i < outputs.len()
            invariant
                i <= outputs.len(),
                outputs == &chunk.outputs,
                self@ == old(self)@ + outputs_text(outputs@.take(i as int)),
                texts_of(notices@) == outputs_notices(outputs@.take(i as int)),
            decreases outputs.len() - i,
        {
            let ghost before_text = self@;
            let ghost before_notices = texts_of(notices@);
            let output = &outputs[i];
            match &output.delta {
                Some(delta) => {
                    let calls = &delta.tool_calls;
                    let mut k: usize = 0;
                    assert(texts_of(notices@) =~= before_notices + calls_notices(calls@.take(0)));
                    while k < calls.len()
                        invariant
                            k <= calls.len(),
                            texts_of(notices@) == before_notices + calls_notices(
                                calls@.take(k as int),
                            ),
                        decreases calls.len() - k,
                    {
                        note_tool_call(&mut notices, &calls[k]);
                        proof {
                            assert(calls@.take(k + 1).drop_last() =~= calls@.take(k as int));
                            assert(calls@.take(k + 1).last() == calls@[k as int]);
                            assert(texts_of(notices@) =~= before_notices + calls_notices(
                                calls@.take(k + 1),
                            ));
                        }
                        k += 1;
                    }
                    assert(calls@.take(calls.len() as int) =~= calls@);
                    if !delta.content.as_str().is_empty() {
                        self.summary.append(delta.content.as_str());
                    }
                    assert(self@ =~= before_text + delta.content@);
                },
                None => {
                    assert(self@ =~= before_text + output_text(*output));
                    assert(texts_of(notices@) =~= before_notices + output_notices(*output));
                },
            }
            proof {
                assert(outputs@.take(i + 1).drop_last() =~= outputs@.take(i as int));
                assert(outputs@.take(i + 1).last() == outputs@[i as int]);
                assert(self@ =~= old(self)@ + outputs_text(outputs@.take(i + 1)));
                assert(texts_of(notices@) =~= outputs_notices(outputs@.take(i + 1)));
            }
            i += 1;
        }
        assert(outputs@.take(outputs.len() as int) =~= outputs@);
        notices
    }

    /// Ends the attempt once the stream is exhausted: the summary where it
    /// holds something other than whitespace, missing completion text
    /// otherwise.
    pub fn finish(self) -> (outcome: Result<String, CompletionError>)
        ensures
            is_outcome_of(self@, outcome),
    {
        if is_blank_text(self.summary.as_str()) {
            Err(CompletionError::MissingCompletionText)
        } else {
            Ok(self.summary)
        }
    }
}

/// What consuming a whole stream yields: the notices surfaced on the way and
/// how the attempt ended.
#[derive(Debug, PartialEq, Eq)]
pub struct Aggregation {
    pub notices: Vec<String>,
    pub outcome: Result<String, CompletionError>,
}

/// Consumes a stream of chunks to exhaustion, in order. The summary is the
/// ordered concatenation of all delta contents; it is returned where it
/// holds something other than whitespace, and the attempt fails with missing
/// completion text otherwise. Tool calls only give rise to notices.
pub fn aggregate(chunks: &Vec<StreamChunk>) -> (done: Aggregation)
    ensures
        is_outcome_of(stream_text(chunks@), done.outcome),
        texts_of(done.notices@) == stream_notices(chunks@),
{
    let mut aggregator = Aggregator::new();
    let mut notices: Vec<String> = Vec::new();
    let mut i: usize = 0;
    assert(texts_of(notices@) =~= stream_notices(chunks@.take(0)));
    assert(aggregator@ =~= stream_text(chunks@.take(0)));
    while i < chunks.len()
        invariant
            i <= chunks.len(),
            aggregator@ == stream_text(chunks@.take(i as int)),
            texts_of(notices@) == stream_notices(chunks@.take(i as int)),
        decreases chunks.len() - i,
    {
        let ghost before = texts_of(notices@);
        let mut fresh = aggregator.absorb(&chunks[i]);
        let ghost added = texts_of(fresh@);
        notices.append(&mut fresh);
        proof {
            assert(texts_of(notices@) =~= before + added);
            assert(chunks@.take(i + 1).drop_last() =~= chunks@.take(i as int));
            assert(chunks@.take(i + 1).last() == chunks@[i as int]);
        }
        i += 1;
    }
    assert(chunks@.take(chunks.len() as int) =~= chunks@);
    Aggregation { notices, outcome: aggregator.finish() }
}

/// Runs one attempt over what the stream delivered, in order, up to its end
/// or its first delivery failure. A failure ends the attempt with its message
/// mapped; what follows it is not read. Without a failure the attempt ends as
/// the exhausted stream does. The notices are those of the chunks delivered.
pub fn consume(events: &Vec<StreamEvent>) -> (done: Aggregation)
    ensures
        is_attempt_outcome(events@, done.outcome),
        texts_of(done.notices@) == stream_notices(delivered(events@)),
{
    let mut aggregator = Aggregator::new();
    let mut notices: Vec<String> = Vec::new();
    let mut i: usize = 0;
    assert(texts_of(notices@) =~= stream_notices(delivered(events@.take(0))));
    assert(aggregator@ =~= stream_text(delivered(events@.take(0))));
    while i < events.len()
        invariant
            i <= events.len(),
            failure_of(events@.take(i as int)) is None,
            aggregator@ == stream_text(delivered(events@.take(i as int))),
            texts_of(notices@) == stream_notices(delivered(events@.take(i as int))),
        decreases events.len() - i,
    {
        proof {
            assert(events@.take(i + 1).drop_last() =~= events@.take(i as int));
            assert(events@.take(i + 1).last() == events@[i as int]);
        }
        match &events[i] {
            StreamEvent::Chunk(chunk) => {
                let ghost before = texts_of(notices@);
                let ghost so_far = delivered(events@.take(i as int));
                let mut fresh = aggregator.absorb(chunk);
                let ghost added = texts_of(fresh@);
                notices.append(&mut fresh);
                proof {
                    assert(texts_of(notices@) =~= before + added);
                    assert(delivered(events@.take(i + 1)) == so_far.push(*chunk));
                    assert(so_far.push(*chunk).drop_last() =~= so_far);
                }
            },
            StreamEvent::Failed(message) => {
                proof {
                    assert(failure_of(events@.take(i + 1)) == Some(message@));
                    lemma_nothing_is_read_after_a_failure(events@, i + 1);
                }
                let error = map_status_message(message.clone());
                return Aggregation { notices, outcome: Err(CompletionError::Agentic(error)) };
            },
        }
        i += 1;
    }
    assert(events@.take(events.len() as int) =~= events@);
    Aggregation { notices, outcome: aggregator.finish() }
}

} // verus!
