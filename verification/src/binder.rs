use vstd::prelude::*;

use crate::machine::Command;
use crate::types::{
    AtomElim, BotElim, Coterm, Elim, Intro, ParElim, PlusIntro, Term, WhynotElim, WithElim,
};

verus! {

// =============================================================================
// μ and μ̃ binders (general continuations)
// =============================================================================

/// μ-binder `μα.c`: a term whose continuation receives the coterm it is cut
/// against (the μ-reduction rule).
pub fn mu<K>(body: K) -> (r: Term<K>)
    ensures
        r == Term::Mu(body),
{
    Term::Mu(body)
}

/// μ̃-binder `μ̃x.c`: a coterm whose continuation receives the term it is cut
/// against (the μ̃-reduction rule).
pub fn mu_tilde<K>(body: K) -> (r: Coterm<K>)
    ensures
        r == Coterm::MuTilde(body),
{
    Coterm::MuTilde(body)
}

// =============================================================================
// Positive structural constructors
// =============================================================================

/// Unit introduction `()` : `1`.
pub fn unit<K>() -> (r: Term<K>)
    ensures
        r == Term::<K>::Intro(Intro::Unit),
{
    Term::Intro(Intro::Unit)
}

/// Tensor introduction `(v, w)` : `A ⊗ B`.
pub fn tensor<K>(v: Term<K>, w: Term<K>) -> (r: Term<K>)
    ensures
        r == Term::Intro(Intro::Pair(Box::new(v), Box::new(w))),
{
    Term::Intro(Intro::Pair(Box::new(v), Box::new(w)))
}

/// Left injection `inl(v)` : `A ⊕ B`; the choice is made here.
pub fn inl<K>(v: Term<K>) -> (r: Term<K>)
    ensures
        r == Term::Intro(Intro::Plus(PlusIntro::Inl(Box::new(v)))),
{
    Term::Intro(Intro::Plus(PlusIntro::Inl(Box::new(v))))
}

/// Right injection `inr(w)` : `A ⊕ B`; the choice is made here.
pub fn inr<K>(w: Term<K>) -> (r: Term<K>)
    ensures
        r == Term::Intro(Intro::Plus(PlusIntro::Inr(Box::new(w)))),
{
    Term::Intro(Intro::Plus(PlusIntro::Inr(Box::new(w))))
}

// =============================================================================
// Negative elimination constructors (μ̃-forms with structural patterns)
// =============================================================================

/// Atom elimination `μ̃x.c` at a dual atom: the body receives the term of
/// the atom, a variable included.
pub fn mu_atom<K>(body: K) -> (r: Coterm<K>)
    ensures
        r == Coterm::Elim(Elim::Atom(AtomElim { body })),
{
    Coterm::Elim(Elim::Atom(AtomElim { body }))
}

/// Bottom elimination `μ̃().c`: `⟨() | μ̃().c⟩` reduces to `c`.
pub fn mu_unit<K>(body: K) -> (r: Coterm<K>)
    ensures
        r == Coterm::Elim(Elim::Bot(BotElim { body })),
{
    Coterm::Elim(Elim::Bot(BotElim { body }))
}

/// Par elimination `μ̃(x ⅋ y).c`: `⟨(v, w) | μ̃(x ⅋ y).c⟩` hands the body
/// both components.
pub fn mu_par<K>(body: K) -> (r: Coterm<K>)
    ensures
        r == Coterm::Elim(Elim::Par(ParElim { body })),
{
    Coterm::Elim(Elim::Par(ParElim { body }))
}

/// Case elimination `μ̃case(x ⇒ c₁, y ⇒ c₂)` : `A & B`: `inl(v)` takes the
/// left branch, `inr(w)` the right one.
pub fn mu_case<K>(body_left: K, body_right: K) -> (r: Coterm<K>)
    ensures
        r == Coterm::Elim(Elim::With(WithElim { left: body_left, right: body_right })),
{
    Coterm::Elim(Elim::With(WithElim { left: body_left, right: body_right }))
}

/// Exponential elimination `μ̃!x.c` : `?N`: the body receives the
/// `!`-introduction and may derelict it any number of times, or drop it.
pub fn mu_bang<K>(body: K) -> (r: Coterm<K>)
    ensures
        r == Coterm::Elim(Elim::Whynot(WhynotElim { body })),
{
    Coterm::Elim(Elim::Whynot(WhynotElim { body }))
}

} // verus!
