//! Constant folding and dead-code elimination for script syntax trees.
//!
//! The passes work on the tree of [`ast`]; what they do is stated over the
//! model of that tree in [`model`], which [`view`] relates to it.
//!
//! - [`value`], [`number`], [`coerce`], [`types`], [`purity`] and [`shape`] say
//!   what can be known of an expression without running it.
//! - [`literal`] tells literals from other expressions and prices them.
//! - [`effects`] reduces an expression to what can be observed of it;
//!   [`laws`] and [`steady`] say what holds of the reduction.
//! - [`simplify`], [`fold`] and [`dce`] remove dead code; [`scope`] keeps the
//!   books of the bindings that a list of statements declares and reads.
//! - [`settled`] says which trees dead-code removal leaves as they are.
//!   [`tame`], [`quiet`], [`quieting`] and [`quieted`] show that it leaves
//!   such a tree of every tree that is tame, so that a second run changes
//!   nothing.
//! - [`usage`], [`occurs`], [`inline_vars`] and [`replace`] inline constants.
//! - [`probe`], with [`this_walk`] and [`rest_walk`], answers questions about
//!   a tree: whether it holds `this`, a rest pattern, a reference to a binding.

pub mod ast;
pub mod coerce;
pub mod copy;
pub mod dce;
pub mod effects;
pub mod expr_ext;
pub mod fold;
pub mod ident;
pub mod inline_vars;
pub mod laws;
pub mod literal;
pub mod model;
pub mod number;
pub mod occurs;
pub mod options;
pub mod probe;
pub mod props;
pub mod purity;
pub mod quiet;
pub mod quieted;
pub mod quieting;
pub mod replace;
pub mod rest_walk;
pub mod rounding;
pub mod same;
pub mod scope;
pub mod settled;
pub mod shape;
pub mod simplify;
pub mod steady;
pub mod stmt_like;
pub mod tame;
pub mod text;
pub mod this_walk;
pub mod types;
pub mod usage;
pub mod value;
pub mod view;
