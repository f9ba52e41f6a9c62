//! Prompt construction and reply handling for a one-shot markdown translator
//! that talks to a hosted chat-completion service.
//!
//! The crate performs no input or output. A caller reads the document, asks
//! [`create_prompt`] for the prompt, lets [`request`] describe the one call
//! that carries it, performs that call, and hands what came back to
//! [`translation`].

pub mod client;
pub mod lang;
pub mod prompt;

pub use client::request;
pub use client::translation;
pub use client::ChatMessage;
pub use client::ChatRequest;
pub use client::Reply;
pub use client::Role;
pub use client::TranslationError;
pub use client::MODEL;
pub use lang::lang_to_prompt;
pub use lang::Lang;
pub use prompt::create_prompt;
