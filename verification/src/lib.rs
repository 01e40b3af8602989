//! An embedding of linear classical System L: the λμμ̃-calculus as a
//! programming language. Terms and coterms are symmetric three-variant
//! enums, one `cut` dispatches over their 3×3 pairing, per-connective
//! reduction hands user continuations their arguments, and `run` drives a
//! command to normal form, Krivine-machine style.

pub mod binder;
pub mod formula;
pub mod machine;
pub mod reduce;
pub mod types;
pub mod var;

pub use binder::{inl, inr, mu, mu_atom, mu_bang, mu_case, mu_par, mu_tilde, mu_unit, tensor, unit};
pub use formula::Formula;
pub use machine::{run, Command, Redex};
pub use reduce::{cut, reduce, substitute};
pub use types::{
    derelict, promote, Arg, AtomElim, BangIntro, Body, BotElim, Coterm, Elim, Intro, ParElim,
    PlusIntro, Resource, Term, WhynotElim, WithElim,
};
pub use var::Var;
