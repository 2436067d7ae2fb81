//! Fontconfig XML configuration (`fonts.conf`).
pub mod alias;
pub mod context;
pub mod description;
pub mod dir;
pub mod match_rule;
pub mod select;
pub mod value;

pub use alias::Alias;
pub use context::{FontconfigConfig, FontconfigDocument, FontconfigRenderContext};
pub use description::Description;
pub use dir::{CacheDir, Dir, Include};
pub use match_rule::{Edit, EditBinding, EditMode, Match, MatchTarget, Test, TestCompare, TestQual};
pub use select::{Glob, PatternElement, SelectAction, SelectFont, SelectPattern};
pub use value::FontconfigValue;
