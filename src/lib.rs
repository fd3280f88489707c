//! Markdown-to-HTML rendering for a Lua host, with a verified mapping from a
//! loosely typed options record to the renderer's compile options.

pub mod external;
pub mod options;
pub mod render;

pub use options::{LuaCompileOptions, OptionEntry, OptionValue, OptionsArgument, OptionsError};
pub use render::MarkdownExtension;
