use vstd::prelude::*;

use crate::chat::{grew_by_feedback, push_retry_messages, ChatMessage};
use crate::decision::{accepts_candidate, evaluate_candidate, Verdict};
use crate::extract::{block_inner, extract_tool_block, has_tool_block};
use crate::jsonio::{json_arguments_value, json_name_field, lenient_depth_ok, lenient_json,
    lenient_value, parse_lenient_text, parse_strict_text, rendered_json, spec_open_brackets,
    strict_json, strict_value, LENIENT_NESTING_LIMIT};
use crate::repair::{remove_trailing_commas, spec_repair_text, swap_quotes, wrap_braces};
use crate::schema::{catalog_has_name, SchemaCheck, Tool};
use crate::strtool::{push_decimal, spec_decimal, spec_trim, trim_text};

verus! {

/// How the boundary layer must treat one inbound request.
#[derive(Clone, Copy, Debug, PartialEq, Eq)]
pub enum Route {
    PassthroughJson,
    PassthroughStream,
    ToolLoop,
}

/// Route an inbound request. With a bypass asked for, or with an empty tool
/// catalog, the emulation core is never invoked: the request is relayed
/// as-is, streaming or buffered as the client asked.
pub fn choose_route(
    header_bypass: bool,
    url_bypass: bool,
    wants_stream: bool,
    catalog_len: usize,
) -> (r: Route)
    ensures
        (header_bypass || url_bypass || catalog_len == 0) ==> r == (if wants_stream {
            Route::PassthroughStream
        } else {
            Route::PassthroughJson
        }),
        !(header_bypass || url_bypass || catalog_len == 0) ==> r == Route::ToolLoop,
{
    if header_bypass || url_bypass || catalog_len == 0 {
        if wants_stream {
            Route::PassthroughStream
        } else {
            Route::PassthroughJson
        }
    } else {
        Route::ToolLoop
    }
}

/// Relies on std::time::SystemTime::now and its distance from
/// std::time::UNIX_EPOCH: the current time in milliseconds, or zero when the
/// clock reads before the epoch. The result depends on the clock, so nothing
/// further is promised of it.
#[verifier::external_body]
pub fn current_millis() -> u128 {
    std::time::SystemTime::now()
        .duration_since(std::time::UNIX_EPOCH)
        .unwrap_or_default()
        .as_millis()
}

/// A call identifier: the fixed prefix followed by decimal digits.
pub open spec fn is_call_id(s: Seq<char>) -> bool {
    exists|n: int| 0 <= n && s == "call_"@ + spec_decimal(n)
}

/// Render a fresh identifier for an accepted call from a millisecond reading.
pub fn format_call_id(millis: u128) -> (r: String)
    ensures
        r@ == "call_"@ + spec_decimal(millis as int),
        is_call_id(r@),
{
    let mut out = String::from_str("call_");
    push_decimal(&mut out, millis);
    out
}

/// The candidate text of a reply's first invocation block after the repair
/// pipeline: the trimmed inner text, quote-normalized, comma-elided and
/// brace-wrapped.
pub open spec fn repaired_block(content: Seq<char>) -> Seq<char> {
    spec_repair_text(spec_trim(block_inner(content)))
}

/// The repaired block parses: strictly, or — within the nesting bound — under
/// the lenient grammar.
pub open spec fn block_parses(content: Seq<char>) -> bool {
    strict_json(repaired_block(content)) || (spec_open_brackets(repaired_block(content))
        <= LENIENT_NESTING_LIMIT as int && lenient_json(repaired_block(content)))
}

/// The value the repaired block parses to: the strict parser's where the
/// text is strict JSON, else the lenient parser's. Meaningful where
/// `block_parses` holds.
pub open spec fn parsed_block(content: Seq<char>) -> serde_json::Value {
    if strict_json(repaired_block(content)) {
        strict_value(repaired_block(content))
    } else {
        lenient_value(repaired_block(content))
    }
}

/// What one upstream exchange produced, as the boundary hands it to the core.
pub enum ReplyEvent {
    /// Transport failure, a malformed envelope, or an empty choice list.
    Infra { detail: String },
    /// A reply whose first choice carries no plain text.
    NoText,
    /// The text of the reply's first choice.
    Text { content: String },
}

/// What the orchestrator decided for one attempt.
#[derive(Debug)]
pub enum StepResult {
    /// The reply is a plain non-tool answer: relay the upstream response as-is.
    Passthrough,
    /// A structured tool call was accepted; the boundary builds the final
    /// response from it, clearing the free-text content.
    ToolAccepted { call_id: String, tool_name: String, arguments_text: String },
    /// The payload was rejected and corrective feedback appended: send again.
    RetryFeedback,
    /// An infrastructure failure; the conversation is unchanged: send again.
    RetryBare,
    /// Every attempt is spent without an accepted call.
    Exhausted,
}

/// The retry loop's whole mutable state for one request.
pub struct AttemptState {
    pub conversation: Vec<ChatMessage>,
    pub attempt_index: usize,
    pub max_attempts: usize,
}

impl AttemptState {
    /// The attempt counter never passes its bound.
    pub open spec fn wf(self) -> bool {
        self.attempt_index <= self.max_attempts
    }

    /// Open a run over an already-injected conversation.
    pub fn start(conversation: Vec<ChatMessage>, max_attempts: usize) -> (s: AttemptState)
        ensures
            s.wf(),
            s.attempt_index == 0,
            s.max_attempts == max_attempts,
            s.conversation == conversation,
    {
        AttemptState { conversation, attempt_index: 0, max_attempts }
    }

    /// Whether the loop may send another attempt upstream.
    pub fn can_attempt(&self) -> (r: bool)
        ensures
            r == (self.attempt_index < self.max_attempts),
    {
        self.attempt_index < self.max_attempts
    }

    /// Record one rejected attempt: append the rejected reply and the
    /// corrective feedback, advance the attempt counter, and report whether
    /// attempts remain.
    fn note_rejection(&mut self, reply: String, feedback: String) -> (r: StepResult)
        requires
            old(self).wf(),
            old(self).attempt_index < old(self).max_attempts,
        ensures
            final(self).wf(),
            final(self).max_attempts == old(self).max_attempts,
            final(self).attempt_index == old(self).attempt_index + 1,
            grew_by_feedback(
                old(self).conversation@,
                final(self).conversation@,
                reply@,
                feedback@,
            ),
            r is RetryFeedback || r is Exhausted,
            r is Exhausted <==> final(self).attempt_index == final(self).max_attempts,
    {
        push_retry_messages(&mut self.conversation, reply, feedback);
        self.attempt_index = self.attempt_index + 1;
        if self.attempt_index == self.max_attempts {
            StepResult::Exhausted
        } else {
            StepResult::RetryFeedback
        }
    }

    /// Drive one full attempt from the upstream outcome: extract the
    /// invocation block, repair and parse it, judge it against the catalog,
    /// and either finish or record the failure and advance the counter.
    pub fn handle_reply(
        &mut self,
        event: ReplyEvent,
        tools: &Vec<Tool>,
        validators: &Vec<SchemaCheck>,
    ) -> (r: StepResult)
        requires
            old(self).wf(),
            old(self).attempt_index < old(self).max_attempts,
            validators@.len() == tools@.len(),
        ensures
            final(self).wf(),
            final(self).max_attempts == old(self).max_attempts,
            (r is Passthrough || r is ToolAccepted) ==> *final(self) == *old(self),
            (r is RetryFeedback || r is RetryBare || r is Exhausted) ==> final(self).attempt_index
                == old(self).attempt_index + 1,
            (r is RetryFeedback || r is RetryBare) ==> final(self).attempt_index
                < final(self).max_attempts,
            r is Exhausted ==> final(self).attempt_index == final(self).max_attempts,
            r is RetryBare ==> final(self).conversation == old(self).conversation,
            r is RetryFeedback ==> final(self).conversation@.len() == old(self).conversation@.len()
                + 2,
            event matches ReplyEvent::Infra { .. } ==> (final(self).conversation
                == old(self).conversation && (r is RetryBare || r is Exhausted)),
            event is NoText ==> r is Passthrough,
            event matches ReplyEvent::Text { content } ==> (if has_tool_block(content@) {
                !(r is Passthrough)
            } else {
                r is Passthrough
            }),
            event matches ReplyEvent::Text { content } ==> ((r is RetryFeedback || r is Exhausted)
                ==> exists|fb: Seq<char>|
                grew_by_feedback(
                    old(self).conversation@,
                    final(self).conversation@,
                    content@,
                    fb,
                )),
            r matches StepResult::ToolAccepted { call_id, tool_name, .. } ==> (catalog_has_name(
                tools@,
                tool_name@,
            ) && is_call_id(call_id@)),
            r is RetryBare ==> event is Infra,
            r is ToolAccepted ==> (event matches ReplyEvent::Text { content } && has_tool_block(
                content@,
            ) && spec_trim(block_inner(content@)).len() > 0 && block_parses(content@)),
            event matches ReplyEvent::Text { content } ==> ((has_tool_block(content@)
                && spec_trim(block_inner(content@)).len() == 0) ==> (r is RetryFeedback
                || r is Exhausted)),
            event matches ReplyEvent::Text { content } ==> ((has_tool_block(content@)
                && spec_trim(block_inner(content@)).len() > 0 && !block_parses(content@)) ==> (
            r is RetryFeedback || r is Exhausted)),
            event matches ReplyEvent::Text { content } ==> (r is ToolAccepted <==> (
            has_tool_block(content@) && spec_trim(block_inner(content@)).len() > 0 && block_parses(
                content@,
            ) && accepts_candidate(parsed_block(content@), tools@, validators@))),
            r matches StepResult::ToolAccepted { tool_name, arguments_text, .. } ==> (event
                matches ReplyEvent::Text { content } && json_name_field(parsed_block(content@))
                == Some(tool_name@) && arguments_text@ == rendered_json(
                json_arguments_value(parsed_block(content@)),
            )),
    {
        match event {
            ReplyEvent::Infra { detail: _ } => {
                self.attempt_index = self.attempt_index + 1;
                if self.attempt_index == self.max_attempts {
                    StepResult::Exhausted
                } else {
                    StepResult::RetryBare
                }
            },
            ReplyEvent::NoText => StepResult::Passthrough,
            ReplyEvent::Text { content } => {
                match extract_tool_block(content.as_str()) {
                    None => StepResult::Passthrough,
                    Some(raw) => {
                        let trimmed = trim_text(raw.as_str());
                        if trimmed.unicode_len() == 0 {
                            let feedback = String::from_str(
                                "Output is not valid JSON: empty input",
                            );
                            return self.note_rejection(content, feedback);
                        }
                        let swapped = swap_quotes(trimmed);
                        let stripped = remove_trailing_commas(swapped.as_str());
                        let fixed = wrap_braces(stripped);
                        proof {
                            assert(fixed@ == repaired_block(content@));
                        }
                        let parsed = match parse_strict_text(fixed.as_str()) {
                            Ok(v) => Ok(v),
                            Err(_) => {
                                if lenient_depth_ok(fixed.as_str()) {
                                    parse_lenient_text(fixed.as_str())
                                } else {
                                    Err(String::from_str("nesting too deep"))
                                }
                            },
                        };
                        proof {
                            assert(parsed is Ok <==> block_parses(content@));
                        }
                        match parsed {
                            Err(detail) => {
                                let mut feedback = String::from_str("Output is not valid JSON: ");
                                feedback.append(detail.as_str());
                                self.note_rejection(content, feedback)
                            },
                            Ok(v) => {
                                proof {
                                    assert(v == parsed_block(content@));
                                }
                                match evaluate_candidate(&v, tools, validators) {
                                    Verdict::Accept { tool_name, arguments_text } => {
                                        let call_id = format_call_id(current_millis());
                                        StepResult::ToolAccepted {
                                            call_id,
                                            tool_name,
                                            arguments_text,
                                        }
                                    },
                                    Verdict::Reject { kind: _, message } => {
                                        let mut feedback = String::from_str("SYSTEM ERROR: ");
                                        feedback.append(message.as_str());
                                        feedback.append(". Try again using <tool_code>.");
                                        self.note_rejection(content, feedback)
                                    },
                                }
                            },
                        }
                    },
                }
            },
        }
    }
}

} // verus!
