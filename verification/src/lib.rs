//! `ai-core`: a provider-agnostic AI layer whose request, response, streaming,
//! tool-calling and memory logic is specified and proved with Verus.

pub mod agent;
pub mod auth;
pub mod error;
pub mod history;
pub mod json;
pub mod mcp;
pub mod memory;
pub mod message;
pub mod providers;
pub mod request;
pub mod stream;
pub mod response;
pub mod runnable;
pub mod structured;
pub mod text;
pub mod tool;
pub mod trace;

pub use agent::{AgentConfig, AgentOutcome, AgentRun, StopCause};
pub use auth::{ApiKeyAuth, BearerAuth, NoAuth};
pub use error::{ApiErrorKind, Error};
pub use history::{ChatHistory, InMemoryChatStore};
pub use memory::InMemoryTraceStore;
pub use message::{ContentBlock, ImageSource, Message, Role};
pub use request::{ChatRequest, ChatRequestBuilder};
pub use response::{ChatResponse, StopReason, ToolUseRef, Usage};
pub use stream::{ResponseAccumulator, StreamEvent};
pub use structured::{ResponseFormat, ResponseFormatKind};
pub use tool::{ToolChoice, ToolDef, ToolRegistry};
pub use trace::{RecordingTracer, ToolCall, TraceEvent, TraceId};
