//! A client library for a large-language-model provider's message API:
//! request construction, a retry/backoff policy, and a conversation state
//! machine that tracks the tool-invocation protocol.

pub mod client;
pub mod conversation;
pub mod error;
pub mod messages;
pub mod text;
pub mod tools;
pub mod trusted;

pub use client::{
    accept_success_body, classify_error_body, first_response_text, is_success_status,
    AnthropicClient, AuthMode, RetryStep,
};
pub use conversation::{
    Conversation, ConversationUpdate, PendingToolUse, ToolResult, ToolResultData,
};
pub use error::{AnthropicError, ApiErrorDetail, ApiErrorResponse};
pub use messages::{
    CacheControl, Content, ContentBlock, CreateMessageRequest, ImageSource, ImageSourceData,
    ImageSourceType, Message, MessageResponse, ResponseContentBlock, Role, StopReason,
    SystemPrompt, SystemPromptBlock, ToolResultContent, Usage,
};
pub use tools::{InputSchema, Tool, ToolChoice};
