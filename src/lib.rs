//! Line annotation by ordered literal-pattern rules.
//!
//! Each input line is checked against every rule of a profile, in order;
//! every rule that is not ignored yields one rendered line, styled when its
//! pattern matches and plain otherwise.
pub mod annotator;
pub mod config;
pub mod rule;
pub mod text;

pub use annotator::{annotate_line, evaluate};
pub use config::{Config, NamedProfile, get_profile};
pub use rule::{ColorEntry, RenderedOutput, Scope};
pub use text::{chars_of, is_prefix_of, occurs_in, occurs_in_chars, same_chars, starts_with_chars};
