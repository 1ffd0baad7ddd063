//! The adapter for Cohere's chat and embedding services.

pub mod client;
pub mod completion;
pub mod decode;
pub mod embedding;
pub mod message;
pub mod tool;

pub use client::{Client, COHERE_API_BASE_URL};
pub use completion::{
    ChatHistory, Citation, CompletionModel, CompletionResponse, Connector, Document, SearchQuery,
    SearchResult, COMMAND, COMMAND_LIGHT, COMMAND_LIGHT_NIGHTLY, COMMAND_NIGHTLY, COMMAND_R,
    COMMAND_R_PLUS,
};
pub use decode::{ApiErrorResponse, ApiResponse};
pub use embedding::{
    ApiVersion, BilledUnits, EmbeddingModel, EmbeddingResponse, Meta, EMBED_ENGLISH_LIGHT_V2,
    EMBED_ENGLISH_LIGHT_V3, EMBED_ENGLISH_V2, EMBED_ENGLISH_V3, EMBED_MULTILINGUAL_LIGHT_V3,
    EMBED_MULTILINGUAL_V2, EMBED_MULTILINGUAL_V3,
};
pub use message::{Message, MessageView, ToolCall, ToolCallView, ToolResult, ToolResultView};
pub use tool::{Parameter, ParameterView, ToolDefinition, ToolDefinitionView};
