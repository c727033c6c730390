//! Pretty-print tree-like structures
//!
//! A tree is any type that implements [`TreeItem`]: each item writes its own
//! text and lists its children. [`write_tree_with`] writes a tree in the style
//! of the `tree` command, one line per item, each line prefixed with the
//! branches that lead to it:
//!
//! ```text
//! root
//! ├── quickcheck
//! │   ├── libc
//! │   └── rand
//! │       └── libc
//! └── fixedbitset
//! ```
//!
//! [`PrintConfig`] sets the depth limit, the indentation, the characters of the
//! branches, the styles of branches and items, and when output is styled.
//! [`TreeBuilder`] builds a tree of [`StringItem`]s.

/// Builds trees of `StringItem`s
pub mod builder;
/// The `TreeItem` trait and `StringItem`
pub mod item;
/// Writes trees, and what they print as
pub mod output;
/// Structures to control the output formatting
pub mod print_config;
/// Structures to control terminal colors and styles
pub mod style;

pub use builder::TreeBuilder;
pub use item::{StringItem, TreeItem};
pub use output::{render_tree, write_tree, write_tree_with, Indent};
pub use print_config::{IndentChars, OutputKind, PrintConfig, StaticIndentChars, StyleWhen};
pub use style::{Color, Style};
