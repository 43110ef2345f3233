pub mod text;
pub mod keyed;
pub mod json;
pub mod error;
pub mod sse;
pub mod function_calling;
pub mod conversation;
pub mod stream;
pub mod tool_calls;
pub mod openai_stream;
pub mod gemini_stream;
pub mod session;
pub mod transport;
pub mod chat_client;
pub mod openai;
pub mod gemini;
pub mod mock_llm;
pub mod tools;
pub mod orchestrator;
pub mod input_manager;
pub mod mcp_client;
pub mod dispatcher;
pub mod ui;
pub mod response_card;
pub mod prompt_input;
pub mod loading_animation;
