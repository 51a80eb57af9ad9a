//! A gitignore-style path-ignore rule engine, with supporting
//! project-language detection tables and ignore-template lookup.
//!
//! Newline-delimited ignore-pattern text is parsed into ordered rules,
//! compiled into one combined multi-pattern matcher, and queried with
//! `is_ignored(path, is_dir)`, reproducing git's precedence, negation,
//! anchoring and directory-only semantics.

pub mod code;
pub mod detector;
pub mod globs;
pub mod project;
pub mod ruleset;
pub mod text;
