//! Configuration and gateway core of a desktop chat assistant: input
//! validation, the settings store, the hotkey binder and the chat gateway.
pub mod audit;
pub mod codec;
pub mod extract;
pub mod gateway;
pub mod json;
pub mod normalize;
pub mod settings;
pub mod shortcut;
pub mod text;
pub mod validate;
pub mod window;
