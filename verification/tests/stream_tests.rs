use grokipedia_x::errors::{AgenticError, CompletionError};
use grokipedia_x::stream::{
    aggregate, consume, kind_label, note_tool_call, Aggregator, Delta, FunctionCall, Output,
    StreamChunk, StreamEvent, ToolCallEvent, ToolKind,
};

fn text_chunk(content: &str) -> StreamChunk {
    StreamChunk {
        outputs: vec![Output {
            delta: Some(Delta { content: content.to_string(), tool_calls: Vec::new() }),
        }],
    }
}

fn tool_chunk(kind: ToolKind, function: Option<(&str, &str)>, content: &str) -> StreamChunk {
    let function = function
        .map(|(name, arguments)| FunctionCall {
            name: name.to_string(),
            arguments: arguments.to_string(),
        });
    StreamChunk {
        outputs: vec![Output {
            delta: Some(Delta {
                content: content.to_string(),
                tool_calls: vec![ToolCallEvent { kind, function }],
            }),
        }],
    }
}

#[test]
fn summary_is_the_ordered_concatenation_of_delta_contents() {
    let chunks = vec![text_chunk("[{\"url\""), text_chunk(": 1}"), text_chunk(""), text_chunk("]")];
    let done = aggregate(&chunks);
    assert_eq!(done.outcome, Ok("[{\"url\": 1}]".to_string()));
    assert!(done.notices.is_empty());
}

#[test]
fn tool_calls_do_not_change_the_summary() {
    let plain = vec![text_chunk("Hello, "), text_chunk("world")];
    let interleaved = vec![
        tool_chunk(ToolKind::WebSearchTool, None, ""),
        tool_chunk(ToolKind::ClientSideTool, Some(("lookup", "{\"q\":\"x\"}")), "Hello, "),
        StreamChunk { outputs: vec![Output { delta: None }] },
        tool_chunk(ToolKind::CodeExecutionTool, None, "world"),
    ];
    assert_eq!(aggregate(&plain).outcome, Ok("Hello, world".to_string()));
    assert_eq!(aggregate(&interleaved).outcome, aggregate(&plain).outcome);
}

#[test]
fn tool_calls_are_surfaced_in_order() {
    let chunks = vec![
        tool_chunk(ToolKind::WebSearchTool, None, "a"),
        tool_chunk(ToolKind::ClientSideTool, Some(("lookup", "{\"q\":\"x\"}")), "b"),
        tool_chunk(ToolKind::XSearchTool, None, ""),
    ];
    let done = aggregate(&chunks);
    assert_eq!(
        done.notices,
        vec![
            "Running WebSearchTool tool...".to_string(),
            "Running ClientSideTool tool...".to_string(),
            "Calling tool: lookup with arguments: {\"q\":\"x\"}".to_string(),
            "Running XSearchTool tool...".to_string(),
        ]
    );
    assert_eq!(done.outcome, Ok("ab".to_string()));
}

#[test]
fn several_outputs_of_one_chunk_are_taken_in_order() {
    let chunk = StreamChunk {
        outputs: vec![
            Output { delta: Some(Delta { content: "one ".to_string(), tool_calls: Vec::new() }) },
            Output { delta: None },
            Output {
                delta: Some(Delta {
                    content: "two".to_string(),
                    tool_calls: vec![
                        ToolCallEvent { kind: ToolKind::McpTool, function: None },
                        ToolCallEvent { kind: ToolKind::CollectionsSearchTool, function: None },
                    ],
                }),
            },
        ],
    };
    let done = aggregate(&vec![chunk]);
    assert_eq!(done.outcome, Ok("one two".to_string()));
    assert_eq!(
        done.notices,
        vec![
            "Running McpTool tool...".to_string(),
            "Running CollectionsSearchTool tool...".to_string()
        ]
    );
}

#[test]
fn no_chunks_means_missing_completion_text() {
    let done = aggregate(&Vec::new());
    assert_eq!(done.outcome, Err(CompletionError::MissingCompletionText));
    assert!(done.notices.is_empty());
}

#[test]
fn empty_contents_mean_missing_completion_text() {
    let chunks = vec![
        text_chunk(""),
        tool_chunk(ToolKind::WebSearchTool, None, ""),
        StreamChunk { outputs: Vec::new() },
        StreamChunk { outputs: vec![Output { delta: None }] },
    ];
    let done = aggregate(&chunks);
    assert_eq!(done.outcome, Err(CompletionError::MissingCompletionText));
    assert_eq!(done.notices, vec!["Running WebSearchTool tool...".to_string()]);
    assert_eq!(
        done.outcome.unwrap_err().message(),
        "xAI response missing completion text"
    );
}

#[test]
fn whitespace_only_contents_mean_missing_completion_text() {
    let chunks = vec![text_chunk("  "), text_chunk("\n\t"), text_chunk("\u{a0}")];
    assert_eq!(aggregate(&chunks).outcome, Err(CompletionError::MissingCompletionText));
}

#[test]
fn surrounding_whitespace_is_kept_in_the_summary() {
    let chunks = vec![text_chunk("  "), text_chunk("[1]"), text_chunk("\n")];
    assert_eq!(aggregate(&chunks).outcome, Ok("  [1]\n".to_string()));
}

#[test]
fn aggregator_takes_chunks_one_at_a_time() {
    let mut aggregator = Aggregator::new();
    let first = aggregator.absorb(&tool_chunk(ToolKind::WebSearchTool, None, "[1,"));
    assert_eq!(first, vec!["Running WebSearchTool tool...".to_string()]);
    let second = aggregator.absorb(&text_chunk("2]"));
    assert!(second.is_empty());
    assert_eq!(aggregator.finish(), Ok("[1,2]".to_string()));
    assert_eq!(Aggregator::new().finish(), Err(CompletionError::MissingCompletionText));
}

#[test]
fn every_attempt_starts_from_an_empty_summary() {
    let mut first = Aggregator::new();
    first.absorb(&text_chunk("partial"));
    let mut second = Aggregator::new();
    second.absorb(&text_chunk("whole"));
    assert_eq!(second.finish(), Ok("whole".to_string()));
}

#[test]
fn tool_kinds_have_their_labels() {
    assert_eq!(kind_label(ToolKind::Invalid), "Invalid");
    assert_eq!(kind_label(ToolKind::ClientSideTool), "ClientSideTool");
    assert_eq!(kind_label(ToolKind::WebSearchTool), "WebSearchTool");
    assert_eq!(kind_label(ToolKind::XSearchTool), "XSearchTool");
    assert_eq!(kind_label(ToolKind::CodeExecutionTool), "CodeExecutionTool");
    assert_eq!(kind_label(ToolKind::CollectionsSearchTool), "CollectionsSearchTool");
    assert_eq!(kind_label(ToolKind::McpTool), "McpTool");
}

#[test]
fn noting_a_call_appends_to_what_was_noted() {
    let mut notices = vec!["earlier".to_string()];
    let call = ToolCallEvent {
        kind: ToolKind::ClientSideTool,
        function: Some(FunctionCall { name: "f".to_string(), arguments: "{}".to_string() }),
    };
    note_tool_call(&mut notices, &call);
    assert_eq!(
        notices,
        vec![
            "earlier".to_string(),
            "Running ClientSideTool tool...".to_string(),
            "Calling tool: f with arguments: {}".to_string()
        ]
    );
}

#[test]
fn an_attempt_without_failure_ends_as_the_stream_does() {
    let events = vec![
        StreamEvent::Chunk(tool_chunk(ToolKind::WebSearchTool, None, "[1")),
        StreamEvent::Chunk(text_chunk("]")),
    ];
    let done = consume(&events);
    assert_eq!(done.outcome, Ok("[1]".to_string()));
    assert_eq!(done.notices, vec!["Running WebSearchTool tool...".to_string()]);
    assert_eq!(consume(&Vec::new()).outcome, Err(CompletionError::MissingCompletionText));
}

#[test]
fn a_delivery_failure_ends_the_attempt_with_its_message() {
    let events = vec![
        StreamEvent::Chunk(tool_chunk(ToolKind::XSearchTool, None, "partial")),
        StreamEvent::Failed("status: Unavailable".to_string()),
        StreamEvent::Chunk(tool_chunk(ToolKind::McpTool, None, " more")),
        StreamEvent::Failed("later".to_string()),
    ];
    let done = consume(&events);
    assert_eq!(
        done.outcome,
        Err(CompletionError::Agentic(AgenticError("status: Unavailable".to_string())))
    );
    assert_eq!(done.notices, vec!["Running XSearchTool tool...".to_string()]);
}

#[test]
fn a_gateway_abort_is_reported_with_the_prefix() {
    let raw = "invalid compression flag: 60; status: 504 Gateway Timeout";
    let done = consume(&vec![StreamEvent::Failed(raw.to_string())]);
    assert_eq!(
        done.outcome,
        Err(CompletionError::Agentic(AgenticError(format!(
            "xAI agentic stream aborted (gateway timeout before first chunk). Raw error: {raw}"
        ))))
    );
    assert!(done.notices.is_empty());
}
