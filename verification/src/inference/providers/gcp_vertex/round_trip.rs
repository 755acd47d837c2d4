//! What survives a round trip through the provider's format: a turn of the
//! assistant that is sent as parts and read back as an answer.

use crate::inference::providers::gcp_vertex::{
    assistant_parts, call_part, function_calls, joined_text, response_tool_calls, tool_call_of,
    PartView,
};
use crate::inference::types::ToolCallView;
use vstd::prelude::*;

verus! {

/// A tool call as the provider can hold it: the provider keeps no ids, so
/// the name of the function stands in for the id.
pub open spec fn without_id(call: ToolCallView) -> ToolCallView {
    ToolCallView { id: call.name, name: call.name, arguments: call.arguments }
}

/// The tool calls of a turn as the provider can hold them: without ids, and
/// nothing in place of an empty list.
pub open spec fn calls_as_sent(tool_calls: Option<Seq<ToolCallView>>) -> Option<
    Seq<ToolCallView>,
> {
    match tool_calls {
        Some(calls) => if calls.len() == 0 {
            None
        } else {
            Some(calls.map_values(|c: ToolCallView| without_id(c)))
        },
        None => None,
    }
}

/// The parts that tool calls are sent as.
pub open spec fn call_parts(calls: Seq<ToolCallView>) -> Seq<PartView> {
    calls.map_values(|c: ToolCallView| call_part(c))
}

/// Function calls that follow other parts add nothing to the text of those
/// parts, and are read back in their order after the function calls among
/// those parts.
pub proof fn lemma_calls_after_parts(before: Seq<PartView>, calls: Seq<ToolCallView>)
    ensures
        joined_text(before + call_parts(calls)) == joined_text(before),
        function_calls(before + call_parts(calls)) == function_calls(before) + calls.map_values(
            |c: ToolCallView| (c.name, c.arguments),
        ),
    decreases calls.len(),
{
    let parts = before + call_parts(calls);
    let pairs = calls.map_values(|c: ToolCallView| (c.name, c.arguments));
    if calls.len() == 0 {
        assert(parts =~= before);
        assert(function_calls(before) + pairs =~= function_calls(before));
    } else {
        let fewer = calls.drop_last();
        lemma_calls_after_parts(before, fewer);
        assert(parts.drop_last() =~= before + call_parts(fewer));
        assert(parts.last() == call_part(calls.last()));
        assert(function_calls(before) + pairs =~= (function_calls(before) + fewer.map_values(
            |c: ToolCallView| (c.name, c.arguments),
        )).push((calls.last().name, calls.last().arguments)));
    }
}

/// A turn of the assistant survives the round trip but for the ids of its
/// tool calls: when the parts that it is sent as come back as an answer,
/// the answer has the text of the turn and its tool calls, in their order,
/// each with the name of its function as its id. An empty list of tool
/// calls comes back as no list.
pub proof fn lemma_assistant_round_trip(
    content: Option<Seq<char>>,
    tool_calls: Option<Seq<ToolCallView>>,
)
    ensures
        joined_text(assistant_parts(content, tool_calls)) == content,
        response_tool_calls(assistant_parts(content, tool_calls)) == calls_as_sent(tool_calls),
{
    let text_parts = match content {
        Some(text) => seq![PartView::Text { text }],
        None => Seq::<PartView>::empty(),
    };
    let calls = match tool_calls {
        Some(calls) => calls,
        None => Seq::<ToolCallView>::empty(),
    };
    assert(assistant_parts(content, tool_calls) =~= text_parts + call_parts(calls));
    lemma_calls_after_parts(text_parts, calls);
    assert(joined_text(text_parts) == content && function_calls(text_parts).len() == 0) by {
        reveal_with_fuel(joined_text, 2);
        reveal_with_fuel(function_calls, 2);
        if content is Some {
            assert(text_parts.drop_last() =~= Seq::<PartView>::empty());
        }
    }
    let pairs = calls.map_values(|c: ToolCallView| (c.name, c.arguments));
    assert(function_calls(text_parts) + pairs =~= pairs);
    if calls.len() > 0 {
        assert(pairs.map_values(|c: (Seq<char>, Seq<char>)| tool_call_of(c)) =~= calls.map_values(
            |c: ToolCallView| without_id(c),
        ));
    }
}

} // verus!
