//! A symbolic abstract-value engine for static analysis by abstract interpretation.
//!
//! Every value that an analyzer tracks is an [`abstract_value::AbstractValue`]: an
//! expression tree, a size metric that bounds the growth of the tree, and an
//! optional interval that summarizes the tree numerically. The operators of
//! [`abstract_value::AbstractValueTrait`] normalize as they build, so that queries
//! such as `as_bool_if_known`, `implies` and `subset` stay cheap.
//!
//! The modules, leaves first:
//!
//! - [`k_limits`], [`known_names`]: bounds and names.
//! - [`constant_domain`], [`interval_domain`]: constants and integer intervals.
//! - [`expression`], [`path`], [`abstract_value`]: the expression tree, the names
//!   of memory locations, and the values with the operators on them.
//! - [`shared`]: handles to shared nodes.
//! - [`equality`], [`digest`]: equality of values is an equivalence, and equal
//!   values have equal digests.
//! - [`rules`]: what each operator gives, rule by rule.
//! - [`semantics`]: the truth of conditions and the integers of expressions, with
//!   the soundness of intervals and of the implication tests.
//! - [`operators`], [`arithmetic`], [`negation`], [`conjunction`], [`disjunction`],
//!   [`equals`], [`conditional`], [`logic`]: the operators and their helpers.
//! - [`implication`], [`lattice`], [`queries`], [`heap_blocks`]: questions about
//!   values, and union, widening and inclusion.
//! - [`environment`], [`refine`], [`environment_refinement`],
//!   [`argument_refinement`], [`dereference`], [`rebuild`]: refinement of values with
//!   what is known elsewhere.

pub mod k_limits;
pub mod known_names;
pub mod constant_domain;
pub mod interval_domain;
pub mod expression;
pub mod path;
pub mod abstract_value;
pub mod shared;
pub mod equality;
pub mod rules;
pub mod semantics;
pub mod operators;
pub mod arithmetic;
pub mod logic;
pub mod negation;
pub mod conjunction;
pub mod disjunction;
pub mod equals;
pub mod conditional;
pub mod implication;
pub mod lattice;
pub mod queries;
pub mod heap_blocks;
pub mod environment;
pub mod refine;
pub mod rebuild;
pub mod environment_refinement;
pub mod argument_refinement;
pub mod dereference;
pub mod digest;
