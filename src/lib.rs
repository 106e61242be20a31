//! Prompt templates with named placeholders, and a chat-completion client
//! whose request framing and reply handling are verified.
pub mod component;
pub mod error;
pub mod laws;
pub mod llm_interface;
pub mod menu;
pub mod playground;
pub mod prompt_manager;
pub mod template;

pub use component::{AIComponent, NamedComponent};
pub use error::PlaygroundError;
pub use llm_interface::{LLMConfig, LLMInterface};
pub use playground::AIPlayground;
pub use prompt_manager::PromptManager;
