use vstd::prelude::*;

use crate::jsonio::{render_value_pretty, rendered_json_pretty};
use crate::schema::Tool;

verus! {

/// What a message carries: nothing, plain text, or a structured value that
/// only passes through (some clients send arrays of content parts).
pub enum MsgContent {
    Absent,
    Text(String),
    Rich(serde_json::Value),
}

/// One structured tool call attached to an assistant message.
pub struct ToolCallRecord {
    pub id: String,
    pub name: String,
    pub arguments: String,
}

/// One chat message of a conversation. Order within the conversation is
/// chronological and is only ever extended, never reordered.
pub struct ChatMessage {
    pub role: String,
    pub content: MsgContent,
    pub tool_calls: Option<Vec<ToolCallRecord>>,
    pub name: Option<String>,
    pub tool_call_id: Option<String>,
}

/// A freshly built message holding only a role and plain text.
pub open spec fn is_plain_text_msg(m: ChatMessage, role: Seq<char>, text: Seq<char>) -> bool {
    &&& m.role@ == role
    &&& m.content matches MsgContent::Text(t) && t@ == text
    &&& m.tool_calls is None
    &&& m.name is None
    &&& m.tool_call_id is None
}

pub fn plain_text_msg(role: String, text: String) -> (m: ChatMessage)
    ensures
        is_plain_text_msg(m, role@, text@),
{
    ChatMessage {
        role,
        content: MsgContent::Text(text),
        tool_calls: None,
        name: None,
        tool_call_id: None,
    }
}

/// After a rejection, the conversation grew by exactly the rejected reply and
/// one corrective user message; everything before is untouched.
pub open spec fn grew_by_feedback(
    before: Seq<ChatMessage>,
    after: Seq<ChatMessage>,
    reply: Seq<char>,
    feedback: Seq<char>,
) -> bool {
    &&& after.len() == before.len() + 2
    &&& forall|k: int| 0 <= k < before.len() ==> after[k] == before[k]
    &&& is_plain_text_msg(after[before.len() as int], "assistant"@, reply)
    &&& is_plain_text_msg(after[before.len() as int + 1], "user"@, feedback)
}

/// Append the rejected assistant reply and a corrective user message, so the
/// next attempt carries the full context of the failure.
pub fn push_retry_messages(messages: &mut Vec<ChatMessage>, reply: String, feedback: String)
    ensures
        grew_by_feedback(old(messages)@, final(messages)@, reply@, feedback@),
{
    let m1 = plain_text_msg(String::from_str("assistant"), reply);
    messages.push(m1);
    let m2 = plain_text_msg(String::from_str("user"), feedback);
    messages.push(m2);
}

/// The first message of `after` carries the instruction text merged into the
/// first message of `before`: appended to its text with a blank-line
/// separator, or standing alone where that message had no plain text. All
/// other fields and all later messages are untouched.
pub open spec fn merged_head(
    before: Seq<ChatMessage>,
    after: Seq<ChatMessage>,
    injection: Seq<char>,
) -> bool {
    &&& after.len() == before.len()
    &&& forall|k: int| 1 <= k < before.len() ==> after[k] == before[k]
    &&& after[0].role == before[0].role
    &&& after[0].tool_calls == before[0].tool_calls
    &&& after[0].name == before[0].name
    &&& after[0].tool_call_id == before[0].tool_call_id
    &&& (before[0].content matches MsgContent::Text(t) ==> (after[0].content
        matches MsgContent::Text(t2) && t2@ == t@ + "\n\n"@ + injection))
    &&& (!(before[0].content is Text) ==> (after[0].content matches MsgContent::Text(t2) && t2@
        == injection))
}

/// Merge the instruction text into the head of the conversation: append it to
/// the first message's text with a blank-line separator, replace non-text
/// content with it, or open the conversation with a new system message.
pub fn merge_instructions(conversation: &mut Vec<ChatMessage>, injection: &str)
    ensures
        old(conversation)@.len() == 0 ==> (final(conversation)@.len() == 1 && is_plain_text_msg(
            final(conversation)@[0],
            "system"@,
            injection@,
        )),
        old(conversation)@.len() > 0 ==> merged_head(
            old(conversation)@,
            final(conversation)@,
            injection@,
        ),
{
    if conversation.len() == 0 {
        let m = plain_text_msg(String::from_str("system"), String::from_str(injection));
        conversation.push(m);
    } else {
        let first = conversation.remove(0);
        let new_content = match first.content {
            MsgContent::Text(t) => {
                let mut s = t;
                s.append("\n\n");
                s.append(injection);
                MsgContent::Text(s)
            },
            _ => MsgContent::Text(String::from_str(injection)),
        };
        let updated = ChatMessage {
            role: first.role,
            content: new_content,
            tool_calls: first.tool_calls,
            name: first.name,
            tool_call_id: first.tool_call_id,
        };
        conversation.insert(0, updated);
        proof {
            assert(forall|k: int|
                1 <= k < old(conversation)@.len() ==> conversation@[k] == old(conversation)@[k]);
        }
    }
}

/// The optional description as it appears in a catalog entry.
pub open spec fn desc_part(d: Option<String>) -> Seq<char> {
    match d {
        Some(s) => ": "@ + s@,
        None => Seq::empty(),
    }
}

/// One catalog entry of the instruction block: the tool's name and
/// description verbatim, over the indented rendering of its schema.
pub open spec fn spec_tool_entry(name: Seq<char>, desc: Seq<char>, schema_text: Seq<char>)
    -> Seq<char> {
    "- "@ + name + desc + "\n  parameters: "@ + schema_text + "\n"@
}

/// The first `n` catalog entries in order, each over its rendered schema.
pub open spec fn spec_catalog_text(tools: Seq<Tool>, n: int) -> Seq<char>
    decreases n,
{
    if n <= 0 {
        Seq::empty()
    } else {
        spec_catalog_text(tools, n - 1) + spec_tool_entry(
            tools[n - 1].name@,
            desc_part(tools[n - 1].description),
            rendered_json_pretty(tools[n - 1].parameters),
        )
    }
}

/// One catalog entry rendered for the instruction block.
fn render_catalog_entry(out: &mut String, tool: &Tool)
    ensures
        final(out)@ == old(out)@ + spec_tool_entry(
            tool.name@,
            desc_part(tool.description),
            rendered_json_pretty(tool.parameters),
        ),
{
    out.append("- ");
    out.append(tool.name.as_str());
    match &tool.description {
        Some(d) => {
            out.append(": ");
            out.append(d.as_str());
        },
        None => {},
    }
    out.append("\n  parameters: ");
    match render_value_pretty(&tool.parameters) {
        Ok(p) => out.append(p.as_str()),
        Err(_) => out.append("{}"),
    }
    out.append("\n");
    proof {
        assert(out@ =~= old(out)@ + spec_tool_entry(
            tool.name@,
            desc_part(tool.description),
            rendered_json_pretty(tool.parameters),
        ));
    }
}

/// The fixed instruction template around the rendered catalog.
pub open spec fn spec_injection(defs: Seq<char>) -> Seq<char> {
    "### TOOL USE INSTRUCTIONS\nYou have access to the following tools:\n"@ + defs
        + "\nTo call a tool, you MUST strictly follow this format:\n1. Wrap your JSON inside <tool_code> tags.\n2. The JSON must contain \"name\" and \"arguments\".\n\nExample:\n<tool_code>\n{\n  \"name\": \"get_stock_price\",\n  \"arguments\": { \"symbol\": \"AAPL\" }\n}\n</tool_code>"@
}

/// Serialize the tool catalog into the instructional template the upstream
/// model is steered by: every tool's name and description stand in the
/// template in catalog order, each over the indented rendering of its
/// parameter schema.
pub fn build_injection(tools: &Vec<Tool>) -> (r: String)
    ensures
        r@ == spec_injection(spec_catalog_text(tools@, tools@.len() as int)),
{
    let mut body = String::new();
    let n = tools.len();
    let mut i: usize = 0;
    while i < n
        invariant
            0 <= i <= n,
            n == tools@.len(),
            body@ == spec_catalog_text(tools@, i as int),
        decreases n - i,
    {
        render_catalog_entry(&mut body, &tools[i]);
        i = i + 1;
    }
    let mut out = String::from_str(
        "### TOOL USE INSTRUCTIONS\nYou have access to the following tools:\n",
    );
    out.append(body.as_str());
    out.append(
        "\nTo call a tool, you MUST strictly follow this format:\n1. Wrap your JSON inside <tool_code> tags.\n2. The JSON must contain \"name\" and \"arguments\".\n\nExample:\n<tool_code>\n{\n  \"name\": \"get_stock_price\",\n  \"arguments\": { \"symbol\": \"AAPL\" }\n}\n</tool_code>",
    );
    proof {
        assert(out@ == spec_injection(body@));
    }
    out
}

/// Inject the tool instructions into a conversation, exactly once per
/// request, before the retry loop first sends it upstream.
pub fn inject_tool_prompt(conversation: &mut Vec<ChatMessage>, tools: &Vec<Tool>)
    ensures
        final(conversation)@.len() > 0,
        old(conversation)@.len() == 0 ==> (final(conversation)@.len() == 1 && is_plain_text_msg(
            final(conversation)@[0],
            "system"@,
            spec_injection(spec_catalog_text(tools@, tools@.len() as int)),
        )),
        old(conversation)@.len() > 0 ==> merged_head(
            old(conversation)@,
            final(conversation)@,
            spec_injection(spec_catalog_text(tools@, tools@.len() as int)),
        ),
{
    let injection = build_injection(tools);
    merge_instructions(conversation, injection.as_str());
}

} // verus!
