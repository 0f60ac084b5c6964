//! Message, content-block and request/response types, together with their
//! mathematical models: each carrier type has a view made of `Seq`, plain
//! values and opaque JSON values, and the contracts of the library speak of
//! those views.

use vstd::prelude::*;

verus! {

/// Who speaks a message.
#[derive(Clone, Copy, Debug, PartialEq, Eq, Structural)]
pub enum Role {
    User,
    Assistant,
}

/// Why the model stopped producing output.
#[derive(Clone, Copy, Debug, PartialEq, Eq, Structural)]
pub enum StopReason {
    EndTurn,
    MaxTokens,
    StopSequence,
    ToolUse,
}

/// Token accounting reported by the provider.
#[derive(Clone, Copy, Debug, PartialEq, Eq, Structural)]
pub struct Usage {
    pub input_tokens: u32,
    pub output_tokens: u32,
    pub cache_creation_input_tokens: Option<u32>,
    pub cache_read_input_tokens: Option<u32>,
}

/// A provider-side caching directive; passed through, never interpreted.
#[derive(Debug, PartialEq, Eq)]
pub struct CacheControl {
    pub cache_type: String,
    pub ttl: Option<String>,
}

/// The source of an image block.
#[derive(Clone, Copy, Debug, PartialEq, Eq, Structural)]
pub enum ImageSourceType {
    Base64,
    Url,
}

/// The payload of an image source: inline data or a URL.
#[derive(Debug, PartialEq, Eq)]
pub enum ImageSourceData {
    Base64 { media_type: String, data: String },
    Url { url: String },
}

/// An image reference inside a content block.
#[derive(Debug, PartialEq, Eq)]
pub struct ImageSource {
    pub source_type: ImageSourceType,
    pub data: ImageSourceData,
}

/// One block of message content: text, an image, a tool invocation the model
/// requested, or the result of a tool invocation.
#[derive(Debug, PartialEq)]
pub enum ContentBlock {
    Text { text: String, cache_control: Option<CacheControl> },
    Image { source: ImageSource, cache_control: Option<CacheControl> },
    ToolUse {
        id: String,
        name: String,
        input: serde_json::Value,
        cache_control: Option<CacheControl>,
    },
    ToolResult {
        tool_use_id: String,
        content: Option<ToolResultContent>,
        is_error: Option<bool>,
        cache_control: Option<CacheControl>,
    },
}

/// The content carried by a tool-result block.
#[derive(Debug, PartialEq)]
pub enum ToolResultContent {
    Text(String),
    Blocks(Vec<ContentBlock>),
}

/// A message is plain text or an ordered run of content blocks.
#[derive(Debug, PartialEq)]
pub enum Content {
    Text(String),
    Blocks(Vec<ContentBlock>),
}

/// One turn of a conversation.
#[derive(Debug, PartialEq)]
pub struct Message {
    pub role: Role,
    pub content: Content,
}

/// A system prompt: plain text or structured blocks.
#[derive(Debug, PartialEq, Eq)]
pub enum SystemPrompt {
    Text(String),
    Blocks(Vec<SystemPromptBlock>),
}

/// One block of a structured system prompt.
#[derive(Debug, PartialEq, Eq)]
pub struct SystemPromptBlock {
    pub block_type: String,
    pub text: String,
}

// ---------------------------------------------------------------------------
// Views: the models the contracts speak of. Strings become sequences of
// characters, vectors become sequences, JSON values stay opaque.
// ---------------------------------------------------------------------------

pub struct CacheControlView {
    pub cache_type: Seq<char>,
    pub ttl: Option<Seq<char>>,
}

pub enum ImageSourceDataView {
    Base64 { media_type: Seq<char>, data: Seq<char> },
    Url { url: Seq<char> },
}

pub struct ImageSourceView {
    pub source_type: ImageSourceType,
    pub data: ImageSourceDataView,
}

pub enum ContentBlockView {
    Text { text: Seq<char>, cache_control: Option<CacheControlView> },
    Image { source: ImageSourceView, cache_control: Option<CacheControlView> },
    ToolUse {
        id: Seq<char>,
        name: Seq<char>,
        input: serde_json::Value,
        cache_control: Option<CacheControlView>,
    },
    ToolResult {
        tool_use_id: Seq<char>,
        content: Option<ToolResultContentView>,
        is_error: Option<bool>,
        cache_control: Option<CacheControlView>,
    },
}

pub enum ToolResultContentView {
    Text(Seq<char>),
    Blocks(Seq<ContentBlockView>),
}

pub enum ContentView {
    Text(Seq<char>),
    Blocks(Seq<ContentBlockView>),
}

pub struct MessageView {
    pub role: Role,
    pub content: ContentView,
}

pub enum SystemPromptView {
    Text(Seq<char>),
    Blocks(Seq<(Seq<char>, Seq<char>)>),
}

pub open spec fn cache_control_view(c: CacheControl) -> CacheControlView {
    CacheControlView {
        cache_type: c.cache_type@,
        ttl: match c.ttl {
            Some(t) => Some(t@),
            None => None,
        },
    }
}

pub open spec fn opt_cache_control_view(c: Option<CacheControl>) -> Option<CacheControlView> {
    match c {
        Some(cc) => Some(cache_control_view(cc)),
        None => None,
    }
}

pub open spec fn image_source_view(s: ImageSource) -> ImageSourceView {
    ImageSourceView {
        source_type: s.source_type,
        data: match s.data {
            ImageSourceData::Base64 { media_type, data } => ImageSourceDataView::Base64 {
                media_type: media_type@,
                data: data@,
            },
            ImageSourceData::Url { url } => ImageSourceDataView::Url { url: url@ },
        },
    }
}

pub open spec fn block_view(b: ContentBlock) -> ContentBlockView
    decreases b,
{
    match b {
        ContentBlock::Text { text, cache_control } => ContentBlockView::Text {
            text: text@,
            cache_control: opt_cache_control_view(cache_control),
        },
        ContentBlock::Image { source, cache_control } => ContentBlockView::Image {
            source: image_source_view(source),
            cache_control: opt_cache_control_view(cache_control),
        },
        ContentBlock::ToolUse { id, name, input, cache_control } => ContentBlockView::ToolUse {
            id: id@,
            name: name@,
            input: input,
            cache_control: opt_cache_control_view(cache_control),
        },
        ContentBlock::ToolResult { tool_use_id, content, is_error, cache_control } => (
        ContentBlockView::ToolResult {
            tool_use_id: tool_use_id@,
            content: match content {
                Some(c) => Some(tool_result_content_view(c)),
                None => None,
            },
            is_error: is_error,
            cache_control: opt_cache_control_view(cache_control),
        }),
    }
}

pub open spec fn tool_result_content_view(c: ToolResultContent) -> ToolResultContentView
    decreases c,
{
    match c {
        ToolResultContent::Text(t) => ToolResultContentView::Text(t@),
        ToolResultContent::Blocks(v) => ToolResultContentView::Blocks(blocks_view(v@)),
    }
}

pub open spec fn blocks_view(s: Seq<ContentBlock>) -> Seq<ContentBlockView>
    decreases s,
{
    if s.len() == 0 {
        Seq::empty()
    } else {
        blocks_view(s.drop_last()).push(block_view(s.last()))
    }
}

/// The view of a run of blocks is the blocks' views, elementwise.
pub proof fn lemma_blocks_view(s: Seq<ContentBlock>)
    ensures
        blocks_view(s).len() == s.len(),
        forall|i: int| 0 <= i < s.len() ==> blocks_view(s)[i] == block_view(s[i]),
    decreases s.len(),
{
    if s.len() > 0 {
        lemma_blocks_view(s.drop_last());
    }
}

pub open spec fn content_view(c: Content) -> ContentView {
    match c {
        Content::Text(t) => ContentView::Text(t@),
        Content::Blocks(v) => ContentView::Blocks(blocks_view(v@)),
    }
}

pub open spec fn message_view(m: Message) -> MessageView {
    MessageView { role: m.role, content: content_view(m.content) }
}

pub open spec fn messages_view(s: Seq<Message>) -> Seq<MessageView> {
    Seq::new(s.len(), |i: int| message_view(s[i]))
}

pub open spec fn system_prompt_view(s: SystemPrompt) -> SystemPromptView {
    match s {
        SystemPrompt::Text(t) => SystemPromptView::Text(t@),
        SystemPrompt::Blocks(v) => SystemPromptView::Blocks(
            Seq::new(v@.len(), |i: int| (v@[i].block_type@, v@[i].text@)),
        ),
    }
}

pub open spec fn strings_view(s: Seq<String>) -> Seq<Seq<char>> {
    Seq::new(s.len(), |i: int| s[i]@)
}

pub open spec fn pairs_view(s: Seq<(String, String)>) -> Seq<(Seq<char>, Seq<char>)> {
    Seq::new(s.len(), |i: int| (s[i].0@, s[i].1@))
}

// ---------------------------------------------------------------------------
// Clones that keep the view.
// ---------------------------------------------------------------------------

impl Clone for CacheControl {
    fn clone(&self) -> (r: Self)
        ensures
            r == *self,
    {
        CacheControl { cache_type: self.cache_type.clone(), ttl: self.ttl.clone() }
    }
}

impl Clone for ImageSourceData {
    fn clone(&self) -> (r: Self)
        ensures
            r == *self,
    {
        match self {
            ImageSourceData::Base64 { media_type, data } => ImageSourceData::Base64 {
                media_type: media_type.clone(),
                data: data.clone(),
            },
            ImageSourceData::Url { url } => ImageSourceData::Url { url: url.clone() },
        }
    }
}

impl Clone for ImageSource {
    fn clone(&self) -> (r: Self)
        ensures
            r == *self,
    {
        ImageSource { source_type: self.source_type, data: self.data.clone() }
    }
}

impl Clone for SystemPromptBlock {
    fn clone(&self) -> (r: Self)
        ensures
            r == *self,
    {
        SystemPromptBlock { block_type: self.block_type.clone(), text: self.text.clone() }
    }
}

/// Clone a vector of content blocks, keeping every block's view.
pub(crate) fn clone_blocks(v: &Vec<ContentBlock>) -> (r: Vec<ContentBlock>)
    ensures
        blocks_view(r@) == blocks_view(v@),
    decreases v@,
{
    let mut r: Vec<ContentBlock> = Vec::new();
    let mut i: usize = 0;
    while i < v.len()
        invariant
            i <= v.len(),
            r@.len() == i,
            forall|k: int| 0 <= k < i ==> block_view(r@[k]) == block_view(v@[k]),
        decreases v.len() - i,
    {
        proof {
            assert(decreases_to!(v@ => v@[i as int]));
        }
        r.push(v[i].clone());
        i = i + 1;
    }
    proof {
        lemma_blocks_view(r@);
        lemma_blocks_view(v@);
        assert(blocks_view(r@) =~= blocks_view(v@));
    }
    r
}

impl Clone for ContentBlock {
    fn clone(&self) -> (r: Self)
        ensures
            block_view(r) == block_view(*self),
        decreases *self,
    {
        match self {
            ContentBlock::Text { text, cache_control } => ContentBlock::Text {
                text: text.clone(),
                cache_control: cache_control.clone(),
            },
            ContentBlock::Image { source, cache_control } => ContentBlock::Image {
                source: source.clone(),
                cache_control: cache_control.clone(),
            },
            ContentBlock::ToolUse { id, name, input, cache_control } => ContentBlock::ToolUse {
                id: id.clone(),
                name: name.clone(),
                input: input.clone(),
                cache_control: cache_control.clone(),
            },
            ContentBlock::ToolResult { tool_use_id, content, is_error, cache_control } => {
                let c = match content {
                    Option::Some(inner) => Option::Some(inner.clone()),
                    Option::None => Option::None,
                };
                ContentBlock::ToolResult {
                    tool_use_id: tool_use_id.clone(),
                    content: c,
                    is_error: *is_error,
                    cache_control: cache_control.clone(),
                }
            },
        }
    }
}

impl Clone for ToolResultContent {
    fn clone(&self) -> (r: Self)
        ensures
            tool_result_content_view(r) == tool_result_content_view(*self),
        decreases *self,
    {
        match self {
            ToolResultContent::Text(t) => ToolResultContent::Text(t.clone()),
            ToolResultContent::Blocks(v) => ToolResultContent::Blocks(clone_blocks(v)),
        }
    }
}

impl Clone for Content {
    fn clone(&self) -> (r: Self)
        ensures
            content_view(r) == content_view(*self),
    {
        match self {
            Content::Text(t) => Content::Text(t.clone()),
            Content::Blocks(v) => Content::Blocks(clone_blocks(v)),
        }
    }
}

impl Clone for Message {
    fn clone(&self) -> (r: Self)
        ensures
            message_view(r) == message_view(*self),
    {
        Message { role: self.role, content: self.content.clone() }
    }
}

impl Clone for SystemPrompt {
    fn clone(&self) -> (r: Self)
        ensures
            system_prompt_view(r) == system_prompt_view(*self),
    {
        match self {
            SystemPrompt::Text(t) => SystemPrompt::Text(t.clone()),
            SystemPrompt::Blocks(v) => {
                let c = v.clone();
                proof {
                    assert forall|i: int| 0 <= i < v@.len() implies (#[trigger] c@[i].block_type@
                        == v@[i].block_type@ && c@[i].text@ == v@[i].text@) by {
                        assert(cloned::<SystemPromptBlock>(v@[i], c@[i]));
                    }
                    assert(system_prompt_view(SystemPrompt::Blocks(c)) =~= system_prompt_view(
                        SystemPrompt::Blocks(*v),
                    ));
                }
                SystemPrompt::Blocks(c)
            },
        }
    }
}

// ---------------------------------------------------------------------------
// The request sent to the provider and the response it returns.
// ---------------------------------------------------------------------------

/// The body of a message-creation request.
///
/// `temperature` and `top_p` are held in thousandths (`700` stands for
/// seven tenths), so that the sampling settings are plain integers; the
/// transport layer converts them to the wire's fractional form.
#[derive(Debug, PartialEq)]
pub struct CreateMessageRequest {
    pub model: String,
    pub messages: Vec<Message>,
    pub max_tokens: u32,
    pub system: Option<SystemPrompt>,
    pub metadata: Option<Vec<(String, String)>>,
    pub stop_sequences: Option<Vec<String>>,
    pub stream: Option<bool>,
    pub temperature: Option<u32>,
    pub top_p: Option<u32>,
    pub top_k: Option<u32>,
    pub tools: Option<Vec<crate::tools::Tool>>,
    pub tool_choice: Option<crate::tools::ToolChoice>,
}

impl CreateMessageRequest {
    /// A fresh request: the given model, messages and token budget, all
    /// options unset, and streaming explicitly disabled.
    pub fn new(model: &str, messages: Vec<Message>, max_tokens: u32) -> (r: CreateMessageRequest)
        ensures
            r.model@ == model@,
            r.messages == messages,
            r.max_tokens == max_tokens,
            r.system is None,
            r.metadata is None,
            r.stop_sequences is None,
            r.stream == Some(false),
            r.temperature is None,
            r.top_p is None,
            r.top_k is None,
            r.tools is None,
            r.tool_choice is None,
    {
        CreateMessageRequest {
            model: model.to_owned(),
            messages,
            max_tokens,
            system: None,
            metadata: None,
            stop_sequences: None,
            stream: Some(false),
            temperature: None,
            top_p: None,
            top_k: None,
            tools: None,
            tool_choice: None,
        }
    }

    /// Set a plain-text system prompt.
    pub fn with_system(self, system: &str) -> (r: Self)
        ensures
            r.system matches Some(s) && s matches SystemPrompt::Text(t) && t@ == system@,
            r == (CreateMessageRequest { system: r.system, ..self }),
    {
        CreateMessageRequest { system: Some(SystemPrompt::Text(system.to_owned())), ..self }
    }

    /// Set the tools available to the model.
    pub fn with_tools(self, tools: Vec<crate::tools::Tool>) -> (r: Self)
        ensures
            r == (CreateMessageRequest { tools: Some(tools), ..self }),
    {
        CreateMessageRequest { tools: Some(tools), ..self }
    }

    /// Set the tool-choice directive.
    pub fn with_tool_choice(self, tool_choice: crate::tools::ToolChoice) -> (r: Self)
        ensures
            r == (CreateMessageRequest { tool_choice: Some(tool_choice), ..self }),
    {
        CreateMessageRequest { tool_choice: Some(tool_choice), ..self }
    }

    /// Set the sampling temperature, in thousandths.
    pub fn with_temperature(self, temperature: u32) -> (r: Self)
        ensures
            r == (CreateMessageRequest { temperature: Some(temperature), ..self }),
    {
        CreateMessageRequest { temperature: Some(temperature), ..self }
    }

    /// Force streaming off, leaving every other field as it was.
    pub fn with_streaming_disabled(self) -> (r: Self)
        ensures
            r == (CreateMessageRequest { stream: Some(false), ..self }),
    {
        CreateMessageRequest { stream: Some(false), ..self }
    }
}

/// One content block of a model response: text or a tool invocation.
#[derive(Debug, PartialEq)]
pub enum ResponseContentBlock {
    Text { text: String, citations: Option<Vec<serde_json::Value>> },
    ToolUse { id: String, name: String, input: serde_json::Value },
}

/// A parsed model response.
#[derive(Debug, PartialEq)]
pub struct MessageResponse {
    pub id: String,
    pub response_type: String,
    pub role: String,
    pub content: Vec<ResponseContentBlock>,
    pub model: String,
    pub stop_reason: Option<StopReason>,
    pub stop_sequence: Option<String>,
    pub usage: Usage,
}

/// Clone a vector of messages, keeping every message's view.
pub(crate) fn clone_messages(v: &Vec<Message>) -> (r: Vec<Message>)
    ensures
        messages_view(r@) == messages_view(v@),
{
    let mut r: Vec<Message> = Vec::new();
    let mut i: usize = 0;
    while i < v.len()
        invariant
            i <= v.len(),
            r@.len() == i,
            forall|k: int| 0 <= k < i ==> message_view(r@[k]) == message_view(v@[k]),
        decreases v.len() - i,
    {
        r.push(v[i].clone());
        i = i + 1;
    }
    proof {
        assert(messages_view(r@) =~= messages_view(v@));
    }
    r
}

} // verus!
