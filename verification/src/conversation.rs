//! The conversation state machine: ordered message history, the set of tool
//! invocations still awaiting results, and the rules for folding a model
//! response or a batch of tool results back into the history.

use vstd::prelude::*;
use vstd::string::StringExecFns;

use crate::error::AnthropicError;
use crate::messages::{
    blocks_view, clone_blocks, clone_messages, lemma_blocks_view, messages_view, strings_view,
    Content, ContentBlock, ContentBlockView, ContentView, CreateMessageRequest, Message,
    MessageResponse, MessageView, ResponseContentBlock, Role, StopReason, SystemPrompt,
    ToolResultContent, ToolResultContentView,
};
use crate::tools::{clone_tools, tools_view, Tool, ToolChoice};

verus! {

/// A tool invocation the model has requested and the caller has not yet
/// answered.
#[derive(Debug, PartialEq)]
pub struct PendingToolUse {
    pub id: String,
    pub name: String,
    pub input: serde_json::Value,
}

impl Clone for PendingToolUse {
    fn clone(&self) -> (r: Self)
        ensures
            r == *self,
    {
        PendingToolUse { id: self.id.clone(), name: self.name.clone(), input: self.input.clone() }
    }
}

/// A tool execution result the caller hands back for a pending invocation.
#[derive(Debug, PartialEq)]
pub struct ToolResult {
    pub tool_use_id: String,
    pub content: ToolResultData,
    pub is_error: bool,
}

/// What a tool produced: plain text or content blocks.
#[derive(Debug, PartialEq)]
pub enum ToolResultData {
    Text(String),
    Blocks(Vec<ContentBlock>),
}

/// The model of a tool result's payload.
pub open spec fn tool_result_data_view(d: ToolResultData) -> ToolResultContentView {
    match d {
        ToolResultData::Text(t) => ToolResultContentView::Text(t@),
        ToolResultData::Blocks(v) => ToolResultContentView::Blocks(blocks_view(v@)),
    }
}

impl Clone for ToolResultData {
    fn clone(&self) -> (r: Self)
        ensures
            tool_result_data_view(r) == tool_result_data_view(*self),
    {
        match self {
            ToolResultData::Text(t) => ToolResultData::Text(t.clone()),
            ToolResultData::Blocks(v) => ToolResultData::Blocks(clone_blocks(v)),
        }
    }
}

impl Clone for ToolResult {
    fn clone(&self) -> (r: Self)
        ensures
            r.tool_use_id == self.tool_use_id,
            r.is_error == self.is_error,
            tool_result_data_view(r.content) == tool_result_data_view(self.content),
    {
        ToolResult {
            tool_use_id: self.tool_use_id.clone(),
            content: self.content.clone(),
            is_error: self.is_error,
        }
    }
}

impl ToolResult {
    /// A successful tool result with text content.
    pub fn success(tool_use_id: &str, content: &str) -> (r: ToolResult)
        ensures
            r.tool_use_id@ == tool_use_id@,
            r.content matches ToolResultData::Text(t) && t@ == content@,
            r.is_error == false,
    {
        ToolResult {
            tool_use_id: tool_use_id.to_owned(),
            content: ToolResultData::Text(content.to_owned()),
            is_error: false,
        }
    }

    /// A failed tool result carrying an error description.
    pub fn error(tool_use_id: &str, error: &str) -> (r: ToolResult)
        ensures
            r.tool_use_id@ == tool_use_id@,
            r.content matches ToolResultData::Text(t) && t@ == error@,
            r.is_error == true,
    {
        ToolResult {
            tool_use_id: tool_use_id.to_owned(),
            content: ToolResultData::Text(error.to_owned()),
            is_error: true,
        }
    }
}

/// What one model turn produced: the tool invocations requested, the text
/// fragments, and why the model stopped. Rebuilt fresh for every turn.
#[derive(Debug, PartialEq)]
pub struct ConversationUpdate {
    pub tool_uses: Vec<PendingToolUse>,
    pub text_responses: Vec<String>,
    pub stop_reason: Option<StopReason>,
}

impl ConversationUpdate {
    /// True when this turn requested at least one tool invocation.
    pub fn has_tool_uses(&self) -> (r: bool)
        ensures
            r == (self.tool_uses@.len() != 0),
    {
        self.tool_uses.len() != 0
    }

    /// The text fragments of this turn joined with newlines.
    pub fn text(&self) -> (r: String)
        ensures
            r@ == crate::text::join_lines(strings_view(self.text_responses@)),
    {
        crate::text::join_with_newlines(&self.text_responses)
    }
}

impl Clone for ConversationUpdate {
    fn clone(&self) -> (r: Self)
        ensures
            r.tool_uses@ == self.tool_uses@,
            r.text_responses@ == self.text_responses@,
            r.stop_reason == self.stop_reason,
    {
        let tool_uses = self.tool_uses.clone();
        let text_responses = self.text_responses.clone();
        proof {
            assert(tool_uses@ =~= self.tool_uses@);
            assert(text_responses@ =~= self.text_responses@);
        }
        ConversationUpdate { tool_uses, text_responses, stop_reason: self.stop_reason }
    }
}

// ---------------------------------------------------------------------------
// The conversation.
// ---------------------------------------------------------------------------

/// An ongoing conversation: its ordered history, its sampling settings, and
/// the tool invocations still awaiting results. `temperature` is held in
/// thousandths, as in `CreateMessageRequest`.
#[derive(Debug)]
pub struct Conversation {
    pub messages: Vec<Message>,
    pub model: String,
    pub max_tokens: u32,
    pub system: Option<String>,
    pub tools: Option<Vec<Tool>>,
    pub tool_choice: Option<ToolChoice>,
    pub temperature: Option<u32>,
    pub pending_tool_uses: Vec<PendingToolUse>,
}

impl Clone for Conversation {
    fn clone(&self) -> (r: Self)
        ensures
            r.msgs() == self.msgs(),
            r.pending_tool_uses@ == self.pending_tool_uses@,
            r.model == self.model,
            r.max_tokens == self.max_tokens,
            r.system == self.system,
            match (r.tools, self.tools) {
                (Some(a), Some(b)) => tools_view(a@) == tools_view(b@),
                (None, None) => true,
                _ => false,
            },
            r.tool_choice == self.tool_choice,
            r.temperature == self.temperature,
    {
        let pending_tool_uses = self.pending_tool_uses.clone();
        proof {
            assert(pending_tool_uses@ =~= self.pending_tool_uses@);
        }
        Conversation {
            messages: clone_messages(&self.messages),
            model: self.model.clone(),
            max_tokens: self.max_tokens,
            system: match &self.system {
                Option::Some(s) => Option::Some(s.clone()),
                Option::None => Option::None,
            },
            tools: match &self.tools {
                Option::Some(t) => Option::Some(clone_tools(t)),
                Option::None => Option::None,
            },
            tool_choice: match &self.tool_choice {
                Option::Some(tc) => Option::Some(tc.clone()),
                Option::None => Option::None,
            },
            temperature: self.temperature,
            pending_tool_uses,
        }
    }
}

/// The settings of `b` are exactly those of `a`; history and pending set
/// are not compared.
pub open spec fn same_settings(a: Conversation, b: Conversation) -> bool {
    &&& a.model == b.model
    &&& a.max_tokens == b.max_tokens
    &&& a.system == b.system
    &&& a.tools == b.tools
    &&& a.tool_choice == b.tool_choice
    &&& a.temperature == b.temperature
}

/// The pending descriptors created by a response's tool-use blocks, in
/// response order.
pub open spec fn response_pendings(s: Seq<ResponseContentBlock>) -> Seq<PendingToolUse>
    decreases s.len(),
{
    if s.len() == 0 {
        Seq::empty()
    } else {
        response_pendings(s.drop_last()) + (match s.last() {
            ResponseContentBlock::ToolUse { id, name, input } => seq![
                PendingToolUse { id, name, input },
            ],
            _ => Seq::empty(),
        })
    }
}

/// The text fragments of a response, in response order.
pub open spec fn response_texts(s: Seq<ResponseContentBlock>) -> Seq<String>
    decreases s.len(),
{
    if s.len() == 0 {
        Seq::empty()
    } else {
        response_texts(s.drop_last()) + (match s.last() {
            ResponseContentBlock::Text { text, .. } => seq![text],
            _ => Seq::empty(),
        })
    }
}

/// How one response block is stored in the history: the same text or tool
/// invocation, with no caching directive.
pub open spec fn stored_block_view(b: ResponseContentBlock) -> ContentBlockView {
    match b {
        ResponseContentBlock::Text { text, .. } => ContentBlockView::Text {
            text: text@,
            cache_control: None,
        },
        ResponseContentBlock::ToolUse { id, name, input } => ContentBlockView::ToolUse {
            id: id@,
            name: name@,
            input: input,
            cache_control: None,
        },
    }
}

/// How a whole response is stored in the history, block for block.
pub open spec fn stored_blocks_of(s: Seq<ResponseContentBlock>) -> Seq<ContentBlockView> {
    Seq::new(s.len(), |i: int| stored_block_view(s[i]))
}

/// The first pending entry whose id is `id`, if any.
pub open spec fn find_pending(s: Seq<PendingToolUse>, id: Seq<char>) -> Option<int>
    decreases s.len(),
{
    if s.len() == 0 {
        None
    } else if s[0].id@ == id {
        Some(0)
    } else {
        match find_pending(s.drop_first(), id) {
            None => None,
            Some(j) => Some(j + 1),
        }
    }
}

/// `find_pending` yields the first match: a hit is in range, carries the id,
/// and nothing before it does; a miss means nothing carries the id.
pub proof fn lemma_find_pending(s: Seq<PendingToolUse>, id: Seq<char>)
    ensures
        find_pending(s, id) matches Some(i) ==> 0 <= i < s.len() && s[i].id@ == id && (forall|
            k: int,
        | 0 <= k < i ==> s[k].id@ != id),
        find_pending(s, id) is None ==> (forall|k: int| 0 <= k < s.len() ==> s[k].id@ != id),
    decreases s.len(),
{
    if s.len() > 0 && s[0].id@ != id {
        let t = s.drop_first();
        lemma_find_pending(t, id);
        assert(forall|k: int| 0 <= k < t.len() ==> #[trigger] t[k] == s[k + 1]);
        match find_pending(t, id) {
            Option::Some(j) => {
                assert(find_pending(s, id) == Some(j + 1));
                assert(s[j + 1].id@ == id);
                assert forall|k: int| 0 <= k < j + 1 implies s[k].id@ != id by {
                    if k > 0 {
                        assert(t[k - 1].id@ != id);
                    }
                }
            },
            Option::None => {
                assert forall|k: int| 0 <= k < s.len() implies s[k].id@ != id by {
                    if k > 0 {
                        assert(t[k - 1].id@ != id);
                    }
                }
            },
        }
    }
}

/// Find the first pending entry with the given id.
fn find_pending_index(v: &Vec<PendingToolUse>, id: &String) -> (r: Option<usize>)
    ensures
        match r {
            Some(i) => find_pending(v@, id@) == Some(i as int),
            None => find_pending(v@, id@) is None,
        },
{
    proof {
        lemma_find_pending(v@, id@);
    }
    let mut i: usize = 0;
    while i < v.len()
        invariant
            i <= v@.len(),
            forall|k: int| 0 <= k < i ==> v@[k].id@ != id@,
        decreases v@.len() - i,
    {
        if v[i].id == *id {
            proof {
                lemma_find_pending(v@, id@);
                match find_pending(v@, id@) {
                    Option::Some(j) => {
                        assert(j == i as int);
                    },
                    Option::None => {
                        assert(v@[i as int].id@ == id@);
                    },
                }
            }
            return Some(i);
        }
        i = i + 1;
    }
    None
}

/// The outcome of merging tool results into a pending set, one by one:
/// either every result matched and left behind the reduced set and the
/// stored result blocks, or the first result that matched nothing.
pub enum ApplyOutcome {
    Applied { pending: Seq<PendingToolUse>, blocks: Seq<ContentBlockView> },
    Unmatched { failing: ToolResult },
}

/// How a tool result is stored in the history.
pub open spec fn block_view_of_result(r: ToolResult) -> ContentBlockView {
    ContentBlockView::ToolResult {
        tool_use_id: r.tool_use_id@,
        content: Some(tool_result_data_view(r.content)),
        is_error: Some(r.is_error),
        cache_control: None,
    }
}

/// Merge the results into the pending set in order: each one claims the
/// first pending entry with its id, which earlier results may already have
/// removed; the earliest result that claims nothing stops the merge.
pub open spec fn apply_results(pending: Seq<PendingToolUse>, results: Seq<ToolResult>)
    -> ApplyOutcome
    decreases results.len(),
{
    if results.len() == 0 {
        ApplyOutcome::Applied { pending, blocks: Seq::empty() }
    } else {
        match apply_results(pending, results.drop_last()) {
            ApplyOutcome::Unmatched { failing } => ApplyOutcome::Unmatched { failing },
            ApplyOutcome::Applied { pending: p, blocks } => {
                match find_pending(p, results.last().tool_use_id@) {
                    None => ApplyOutcome::Unmatched { failing: results.last() },
                    Some(i) => ApplyOutcome::Applied {
                        pending: p.remove(i),
                        blocks: blocks.push(block_view_of_result(results.last())),
                    },
                }
            },
        }
    }
}

/// Once a prefix of the results fails to match, the whole batch fails the
/// same way.
pub proof fn lemma_apply_unmatched_extends(
    pending: Seq<PendingToolUse>,
    results: Seq<ToolResult>,
    j: int,
)
    requires
        0 <= j <= results.len(),
        apply_results(pending, results.take(j)) matches ApplyOutcome::Unmatched { failing },
    ensures
        apply_results(pending, results) == apply_results(pending, results.take(j)),
    decreases results.len() - j,
{
    if j < results.len() {
        assert(results.take(j + 1).drop_last() =~= results.take(j));
        lemma_apply_unmatched_extends(pending, results, j + 1);
    } else {
        assert(results.take(j) =~= results);
    }
}

impl Conversation {
    /// The history as a sequence of message views.
    pub open spec fn msgs(self) -> Seq<MessageView> {
        messages_view(self.messages@)
    }

    /// The pending tool invocations, in the order they were requested.
    pub open spec fn pending(self) -> Seq<PendingToolUse> {
        self.pending_tool_uses@
    }

    /// A fresh conversation for the given model and token budget: empty
    /// history, no pending tool uses, no options set.
    pub fn new(model: &str, max_tokens: u32) -> (r: Conversation)
        ensures
            r.messages@.len() == 0,
            r.model@ == model@,
            r.max_tokens == max_tokens,
            r.system is None,
            r.tools is None,
            r.tool_choice is None,
            r.temperature is None,
            r.pending_tool_uses@.len() == 0,
    {
        Conversation {
            messages: Vec::new(),
            model: model.to_owned(),
            max_tokens,
            system: None,
            tools: None,
            tool_choice: None,
            temperature: None,
            pending_tool_uses: Vec::new(),
        }
    }

    /// Set the system prompt.
    pub fn with_system(self, system: &str) -> (r: Self)
        ensures
            r.system matches Some(s) && s@ == system@,
            r == (Conversation { system: r.system, ..self }),
    {
        Conversation { system: Some(system.to_owned()), ..self }
    }

    /// Set the tools available in this conversation.
    pub fn with_tools(self, tools: Vec<Tool>) -> (r: Self)
        ensures
            r == (Conversation { tools: Some(tools), ..self }),
    {
        Conversation { tools: Some(tools), ..self }
    }

    /// Set the tool-choice directive.
    pub fn with_tool_choice(self, tool_choice: ToolChoice) -> (r: Self)
        ensures
            r == (Conversation { tool_choice: Some(tool_choice), ..self }),
    {
        Conversation { tool_choice: Some(tool_choice), ..self }
    }

    /// Set the sampling temperature, in thousandths.
    pub fn with_temperature(self, temperature: u32) -> (r: Self)
        ensures
            r == (Conversation { temperature: Some(temperature), ..self }),
    {
        Conversation { temperature: Some(temperature), ..self }
    }

    /// Append a plain-text user message.
    pub fn add_user_message(&mut self, content: &str)
        ensures
            final(self).msgs() == old(self).msgs().push(
                MessageView { role: Role::User, content: ContentView::Text(content@) },
            ),
            final(self).pending_tool_uses == old(self).pending_tool_uses,
            same_settings(*final(self), *old(self)),
    {
        self.messages.push(Message { role: Role::User, content: Content::Text(content.to_owned()) });
        proof {
            assert(final(self).msgs() =~= old(self).msgs().push(
                MessageView { role: Role::User, content: ContentView::Text(content@) },
            ));
        }
    }

    /// Append a user message made of content blocks.
    pub fn add_user_blocks(&mut self, blocks: Vec<ContentBlock>)
        ensures
            final(self).msgs() == old(self).msgs().push(
                MessageView { role: Role::User, content: ContentView::Blocks(blocks_view(blocks@)) },
            ),
            final(self).pending_tool_uses == old(self).pending_tool_uses,
            same_settings(*final(self), *old(self)),
    {
        self.messages.push(Message { role: Role::User, content: Content::Blocks(blocks) });
        proof {
            assert(final(self).msgs() =~= old(self).msgs().push(
                MessageView { role: Role::User, content: ContentView::Blocks(blocks_view(blocks@)) },
            ));
        }
    }

    /// Append a plain-text assistant message.
    pub fn add_assistant_message(&mut self, content: &str)
        ensures
            final(self).msgs() == old(self).msgs().push(
                MessageView { role: Role::Assistant, content: ContentView::Text(content@) },
            ),
            final(self).pending_tool_uses == old(self).pending_tool_uses,
            same_settings(*final(self), *old(self)),
    {
        self.messages.push(
            Message { role: Role::Assistant, content: Content::Text(content.to_owned()) },
        );
        proof {
            assert(final(self).msgs() =~= old(self).msgs().push(
                MessageView { role: Role::Assistant, content: ContentView::Text(content@) },
            ));
        }
    }

    /// Append an assistant message made of content blocks.
    pub fn add_assistant_blocks(&mut self, blocks: Vec<ContentBlock>)
        ensures
            final(self).msgs() == old(self).msgs().push(
                MessageView {
                    role: Role::Assistant,
                    content: ContentView::Blocks(blocks_view(blocks@)),
                },
            ),
            final(self).pending_tool_uses == old(self).pending_tool_uses,
            same_settings(*final(self), *old(self)),
    {
        self.messages.push(Message { role: Role::Assistant, content: Content::Blocks(blocks) });
        proof {
            assert(final(self).msgs() =~= old(self).msgs().push(
                MessageView {
                    role: Role::Assistant,
                    content: ContentView::Blocks(blocks_view(blocks@)),
                },
            ));
        }
    }

    /// True when tool invocations are awaiting results.
    pub fn has_pending_tool_uses(&self) -> (r: bool)
        ensures
            r == (self.pending_tool_uses@.len() != 0),
    {
        self.pending_tool_uses.len() != 0
    }

    /// The tool invocations awaiting results.
    pub fn pending_tool_uses(&self) -> (r: &Vec<PendingToolUse>)
        ensures
            *r == self.pending_tool_uses,
    {
        &self.pending_tool_uses
    }

    /// The message history.
    pub fn messages(&self) -> (r: &Vec<Message>)
        ensures
            *r == self.messages,
    {
        &self.messages
    }

    /// Drop the history and the pending set, keeping the settings.
    pub fn clear(&mut self)
        ensures
            final(self).messages@.len() == 0,
            final(self).pending_tool_uses@.len() == 0,
            same_settings(*final(self), *old(self)),
    {
        self.messages.clear();
        self.pending_tool_uses.clear();
    }

    /// A new conversation with the same settings, empty history and no
    /// pending tool uses.
    pub fn fork(&self) -> (r: Conversation)
        ensures
            r.messages@.len() == 0,
            r.pending_tool_uses@.len() == 0,
            r.model == self.model,
            r.max_tokens == self.max_tokens,
            r.system == self.system,
            match (r.tools, self.tools) {
                (Some(a), Some(b)) => tools_view(a@) == tools_view(b@),
                (None, None) => true,
                _ => false,
            },
            r.tool_choice == self.tool_choice,
            r.temperature == self.temperature,
    {
        Conversation {
            messages: Vec::new(),
            model: self.model.clone(),
            max_tokens: self.max_tokens,
            system: match &self.system {
                Option::Some(s) => Option::Some(s.clone()),
                Option::None => Option::None,
            },
            tools: match &self.tools {
                Option::Some(t) => Option::Some(clone_tools(t)),
                Option::None => Option::None,
            },
            tool_choice: match &self.tool_choice {
                Option::Some(tc) => Option::Some(tc.clone()),
                Option::None => Option::None,
            },
            temperature: self.temperature,
            pending_tool_uses: Vec::new(),
        }
    }

    /// Fold one model response into the conversation, in the order of its
    /// blocks: text fragments accumulate into the update, tool invocations
    /// join both the update and the pending set, and all blocks together
    /// become one new assistant message (none when the response was empty).
    pub fn process_response(&mut self, response: &MessageResponse) -> (update: ConversationUpdate)
        ensures
            update.tool_uses@ == response_pendings(response.content@),
            update.text_responses@ == response_texts(response.content@),
            update.stop_reason == response.stop_reason,
            final(self).pending_tool_uses@ == old(self).pending_tool_uses@ + response_pendings(
                response.content@,
            ),
            response.content@.len() == 0 ==> final(self).messages == old(self).messages,
            response.content@.len() > 0 ==> final(self).msgs() == old(self).msgs().push(
                MessageView {
                    role: Role::Assistant,
                    content: ContentView::Blocks(stored_blocks_of(response.content@)),
                },
            ),
            same_settings(*final(self), *old(self)),
    {
        let ghost content = response.content@;
        let mut tool_uses: Vec<PendingToolUse> = Vec::new();
        let mut text_responses: Vec<String> = Vec::new();
        let mut blocks: Vec<ContentBlock> = Vec::new();
        let mut i: usize = 0;
        while i < response.content.len()
            invariant
                i <= content.len(),
                content == response.content@,
                blocks@.len() == i,
                tool_uses@ == response_pendings(content.take(i as int)),
                text_responses@ == response_texts(content.take(i as int)),
                blocks_view(blocks@) == stored_blocks_of(content.take(i as int)),
                self.pending_tool_uses@ == old(self).pending_tool_uses@ + response_pendings(
                    content.take(i as int),
                ),
                self.messages == old(self).messages,
                same_settings(*self, *old(self)),
            decreases content.len() - i,
        {
            proof {
                assert(content.take(i as int + 1).drop_last() =~= content.take(i as int));
                assert(content.take(i as int + 1).last() == content[i as int]);
                lemma_blocks_view(blocks@);
            }
            let ghost blocks_before = blocks@;
            match &response.content[i] {
                ResponseContentBlock::Text { text, citations: _ } => {
                    text_responses.push(text.clone());
                    blocks.push(ContentBlock::Text { text: text.clone(), cache_control: None });
                },
                ResponseContentBlock::ToolUse { id, name, input } => {
                    let pending = PendingToolUse {
                        id: id.clone(),
                        name: name.clone(),
                        input: input.clone(),
                    };
                    tool_uses.push(pending.clone());
                    self.pending_tool_uses.push(pending);
                    blocks.push(
                        ContentBlock::ToolUse {
                            id: id.clone(),
                            name: name.clone(),
                            input: input.clone(),
                            cache_control: None,
                        },
                    );
                },
            }
            proof {
                lemma_blocks_view(blocks@);
                assert(blocks@.drop_last() =~= blocks_before);
                assert(tool_uses@ =~= response_pendings(content.take(i as int + 1)));
                assert(text_responses@ =~= response_texts(content.take(i as int + 1)));
                assert(blocks_view(blocks@) =~= stored_blocks_of(content.take(i as int + 1)));
                assert(self.pending_tool_uses@ =~= old(self).pending_tool_uses@
                    + response_pendings(content.take(i as int + 1)));
            }
            i = i + 1;
        }
        proof {
            assert(content.take(content.len() as int) =~= content);
        }
        if blocks.len() > 0 {
            self.messages.push(Message { role: Role::Assistant, content: Content::Blocks(blocks) });
            proof {
                assert(final(self).msgs() =~= old(self).msgs().push(
                    MessageView {
                        role: Role::Assistant,
                        content: ContentView::Blocks(stored_blocks_of(content)),
                    },
                ));
            }
        }
        ConversationUpdate { tool_uses, text_responses, stop_reason: response.stop_reason }
    }

    /// Merge a batch of tool results into the conversation, atomically: every
    /// result must match a distinct pending invocation (earlier results
    /// claiming an id first), the matched invocations leave the pending set,
    /// and the whole batch becomes one new user message. If any result
    /// matches nothing, nothing changes and the error names the failing id.
    /// An empty batch changes nothing.
    pub fn add_tool_results(&mut self, results: Vec<ToolResult>) -> (r: Result<
        (),
        AnthropicError,
    >)
        ensures
            same_settings(*final(self), *old(self)),
            results@.len() == 0 ==> r is Ok && final(self).messages == old(self).messages
                && final(self).pending_tool_uses == old(self).pending_tool_uses,
            results@.len() > 0 ==> (apply_results(old(self).pending_tool_uses@, results@) matches
                ApplyOutcome::Applied { pending, blocks } ==> (r is Ok
                && final(self).pending_tool_uses@ == pending
                && final(self).msgs() == old(self).msgs().push(
                MessageView { role: Role::User, content: ContentView::Blocks(blocks) },
            ))),
            apply_results(old(self).pending_tool_uses@, results@) matches ApplyOutcome::Unmatched {
                failing,
            } ==> (r matches Err(e) && e matches AnthropicError::InvalidResponse(m) && m@
                == "No pending tool use with id: "@ + failing.tool_use_id@
                && final(self).messages == old(self).messages
                && final(self).pending_tool_uses == old(self).pending_tool_uses),
    {
        if results.len() == 0 {
            return Ok(());
        }
        let ghost rs = results@;
        let ghost p0 = self.pending_tool_uses@;
        let mut working = self.pending_tool_uses.clone();
        proof {
            assert(working@ =~= p0);
        }
        let mut blocks: Vec<ContentBlock> = Vec::new();
        let mut i: usize = 0;
        while i < results.len()
            invariant
                i <= rs.len(),
                rs == results@,
                p0 == self.pending_tool_uses@,
                *self == *old(self),
                apply_results(p0, rs.take(i as int)) == (ApplyOutcome::Applied {
                    pending: working@,
                    blocks: blocks_view(blocks@),
                }),
            decreases results.len() - i,
        {
            proof {
                assert(rs.take(i as int + 1).drop_last() =~= rs.take(i as int));
                assert(rs.take(i as int + 1).last() == rs[i as int]);
                lemma_blocks_view(blocks@);
            }
            let ghost blocks_before = blocks@;
            let res = results[i].clone();
            match find_pending_index(&working, &res.tool_use_id) {
                Option::Some(idx) => {
                    proof {
                        lemma_find_pending(working@, res.tool_use_id@);
                    }
                    let ghost working_before = working@;
                    working.remove(idx);
                    let ToolResult { tool_use_id, content, is_error } = res;
                    let stored = match content {
                        ToolResultData::Text(t) => ToolResultContent::Text(t),
                        ToolResultData::Blocks(b) => ToolResultContent::Blocks(b),
                    };
                    blocks.push(
                        ContentBlock::ToolResult {
                            tool_use_id,
                            content: Some(stored),
                            is_error: Some(is_error),
                            cache_control: None,
                        },
                    );
                    proof {
                        lemma_blocks_view(blocks@);
                        assert(blocks@.drop_last() =~= blocks_before);
                        assert(block_view_of_result(rs[i as int]) == blocks_view(blocks@).last());
                        assert(blocks_view(blocks@) =~= blocks_view(blocks_before).push(
                            block_view_of_result(rs[i as int]),
                        ));
                        assert(apply_results(p0, rs.take(i as int + 1)) == (ApplyOutcome::Applied {
                            pending: working@,
                            blocks: blocks_view(blocks@),
                        }));
                    }
                },
                Option::None => {
                    proof {
                        assert(apply_results(p0, rs.take(i as int + 1))
                            == (ApplyOutcome::Unmatched { failing: rs[i as int] }));
                        lemma_apply_unmatched_extends(p0, rs, i as int + 1);
                    }
                    let mut m = "No pending tool use with id: ".to_owned();
                    m.append(res.tool_use_id.as_str());
                    return Err(AnthropicError::InvalidResponse(m));
                },
            }
            i = i + 1;
        }
        proof {
            assert(rs.take(rs.len() as int) =~= rs);
        }
        self.pending_tool_uses = working;
        self.messages.push(Message { role: Role::User, content: Content::Blocks(blocks) });
        proof {
            assert(final(self).msgs() =~= old(self).msgs().push(
                MessageView {
                    role: Role::User,
                    content: ContentView::Blocks(
                        apply_results(p0, rs)->Applied_blocks,
                    ),
                },
            ));
        }
        Ok(())
    }

    /// Merge a single text tool result; one matched pending invocation
    /// leaves the set and one user message with the lone result block is
    /// appended, or nothing changes and the error names the id.
    pub fn add_tool_result(&mut self, tool_use_id: String, content: &str, is_error: bool) -> (r:
        Result<(), AnthropicError>)
        ensures
            same_settings(*final(self), *old(self)),
            find_pending(old(self).pending_tool_uses@, tool_use_id@) matches Some(i) ==> (r is Ok
                && final(self).pending_tool_uses@ == old(self).pending_tool_uses@.remove(i)
                && final(self).msgs() == old(self).msgs().push(
                MessageView {
                    role: Role::User,
                    content: ContentView::Blocks(
                        seq![
                            ContentBlockView::ToolResult {
                                tool_use_id: tool_use_id@,
                                content: Some(ToolResultContentView::Text(content@)),
                                is_error: Some(is_error),
                                cache_control: None,
                            },
                        ],
                    ),
                },
            )),
            find_pending(old(self).pending_tool_uses@, tool_use_id@) is None ==> (r matches Err(e)
                && e matches AnthropicError::InvalidResponse(m) && m@
                == "No pending tool use with id: "@ + tool_use_id@
                && final(self).messages == old(self).messages
                && final(self).pending_tool_uses == old(self).pending_tool_uses),
    {
        let ghost p0 = self.pending_tool_uses@;
        let result = ToolResult {
            tool_use_id,
            content: ToolResultData::Text(content.to_owned()),
            is_error,
        };
        let ghost rv = result;
        let results = vec![result];
        proof {
            assert(results@.drop_last() =~= Seq::<ToolResult>::empty());
            assert(results@.take(0) =~= Seq::<ToolResult>::empty());
            assert(apply_results(p0, results@.drop_last()) == (ApplyOutcome::Applied {
                pending: p0,
                blocks: Seq::<ContentBlockView>::empty(),
            }));
            match find_pending(p0, tool_use_id@) {
                Option::Some(i) => {
                    assert(apply_results(p0, results@) == (ApplyOutcome::Applied {
                        pending: p0.remove(i),
                        blocks: Seq::<ContentBlockView>::empty().push(block_view_of_result(rv)),
                    }));
                    assert(Seq::<ContentBlockView>::empty().push(block_view_of_result(rv)) =~= seq![
                        ContentBlockView::ToolResult {
                            tool_use_id: tool_use_id@,
                            content: Some(ToolResultContentView::Text(content@)),
                            is_error: Some(is_error),
                            cache_control: None,
                        },
                    ]);
                },
                Option::None => {},
            }
        }
        self.add_tool_results(results)
    }

    /// Snapshot the conversation as a request: its history, model, token
    /// budget and options, with streaming disabled.
    pub fn build_request(&self) -> (r: CreateMessageRequest)
        ensures
            r.model@ == self.model@,
            messages_view(r.messages@) == self.msgs(),
            r.max_tokens == self.max_tokens,
            self.system matches Some(s) ==> (r.system matches Some(sp) && sp matches
                SystemPrompt::Text(t) && t@ == s@),
            self.system is None ==> r.system is None,
            r.metadata is None,
            r.stop_sequences is None,
            r.stream == Some(false),
            r.temperature == self.temperature,
            r.top_p is None,
            r.top_k is None,
            match (r.tools, self.tools) {
                (Some(a), Some(b)) => tools_view(a@) == tools_view(b@),
                (None, None) => true,
                _ => false,
            },
            r.tool_choice == self.tool_choice,
    {
        let mut request = CreateMessageRequest::new(
            self.model.as_str(),
            clone_messages(&self.messages),
            self.max_tokens,
        );
        request = match &self.system {
            Option::Some(s) => request.with_system(s.as_str()),
            Option::None => request,
        };
        request = match &self.tools {
            Option::Some(t) => request.with_tools(clone_tools(t)),
            Option::None => request,
        };
        request = match &self.tool_choice {
            Option::Some(tc) => request.with_tool_choice(tc.clone()),
            Option::None => request,
        };
        request = match self.temperature {
            Option::Some(t) => request.with_temperature(t),
            Option::None => request,
        };
        request
    }
}

} // verus!
