//! A locally-nameless variable-binding core.
//!
//! Terms that contain binders (lambdas, lets, quantifiers) are encoded so
//! that free variables carry stable names while bound variables carry only
//! positional de Bruijn indices.  Alpha-equivalent terms, which differ only
//! in the names chosen for their bound variables, then compare equal.
//!
//! The pieces are:
//! - [`debruijn::Debruijn`]: the index type, "how many binders out";
//! - [`name::FreeName`]: the capability a type needs to identify a free
//!   variable (equality, cloning, and in-place freshening);
//! - [`alpha::AlphaEq`]: structural alpha-equivalence;
//! - [`term::Term`]: the traversal capability of an AST node
//!   (`open_at` / `close_at`);
//! - [`pattern::Pattern`]: the capability of a binder shape
//!   (`freshen`, `rename`, `on_free`, `on_bound`);
//! - [`named::Named`]: a wrapper that attaches a debug-only name to a
//!   binder without letting that name affect equality or hashing;
//! - [`var::Var`]: the minimal term form, a single variable occurrence,
//!   either free or bound.

pub mod alpha;
pub mod debruijn;
pub mod name;
pub mod named;
pub mod pattern;
pub mod term;
pub mod var;
