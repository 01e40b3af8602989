use vstd::prelude::*;

use crate::formula::{dual, lemma_dual_polarity, Formula};
use crate::machine::{Command, Redex};
use crate::types::{
    coterm_has_type, term_has_type, Arg, AtomElim, BangIntro, Body, BotElim, Coterm, Elim, Intro,
    ParElim, PlusIntro, Resource, Term, WhynotElim, WithElim,
};

verus! {

/// The canonical forms: a variable or an introduction against a covariable.
pub open spec fn is_canonical<K>(t: Term<K>, e: Coterm<K>) -> bool {
    (t is Axiom || t is Intro) && e is Axiom
}

/// The blocked cuts: a variable against the eliminator of a composite type
/// waits for an outer substitution.
pub open spec fn is_blocked<K>(t: Term<K>, e: Coterm<K>) -> bool {
    &&& t is Axiom
    &&& match e {
        Coterm::Elim(Elim::Atom(_)) => false,
        Coterm::Elim(_) => true,
        _ => false,
    }
}

/// An introduction meets the eliminator of its own connective:
/// `()` and `⊥`, a pair and `⅋`, an injection and `&`, `!` and `?`.
pub open spec fn intro_meets_elim<K>(i: Intro<K>, e: Elim<K>) -> bool {
    match (i, e) {
        (Intro::Unit, Elim::Bot(_)) => true,
        (Intro::Pair(_, _), Elim::Par(_)) => true,
        (Intro::Plus(_), Elim::With(_)) => true,
        (Intro::Bang(_), Elim::Whynot(_)) => true,
        _ => false,
    }
}

/// A term can be cut against a coterm unless an introduction would meet
/// the eliminator of another connective (which the dual types rule out).
pub open spec fn can_cut<K>(t: Term<K>, e: Coterm<K>) -> bool {
    match (t, e) {
        (Term::Intro(i), Coterm::Elim(el)) => intro_meets_elim(i, el),
        _ => true,
    }
}

/// The continuation that a reduction of an introduction against an
/// eliminator resumes, with its argument.
pub open spec fn reduction_call<K>(i: Intro<K>, e: Elim<K>) -> Option<(K, Arg<K>)> {
    match (i, e) {
        (Intro::Unit, Elim::Bot(b)) => Some((b.body, Arg::Unit)),
        (Intro::Pair(v, w), Elim::Par(p)) => Some((p.body, Arg::Pair(*v, *w))),
        (Intro::Plus(PlusIntro::Inl(v)), Elim::With(c)) => Some((c.left, Arg::Term(*v))),
        (Intro::Plus(PlusIntro::Inr(w)), Elim::With(c)) => Some((c.right, Arg::Term(*w))),
        (Intro::Bang(b), Elim::Whynot(k)) => Some((k.body, Arg::Bang(b))),
        _ => None,
    }
}

/// The continuation that a variable against an eliminator resumes: the
/// body of an atom eliminator receives the variable; the eliminators of
/// composite types are blocked.
pub open spec fn substitution_call<K>(e: Elim<K>, v: Resource) -> Option<(K, Arg<K>)> {
    match e {
        Elim::Atom(a) => Some((a.body, Arg::Term(Term::Axiom(v)))),
        _ => None,
    }
}

/// The continuation that one reduction of `⟨t | e⟩` resumes, with its
/// argument; `None` where the cut is canonical or blocked.
pub open spec fn next_call<K>(t: Term<K>, e: Coterm<K>) -> Option<(K, Arg<K>)> {
    match t {
        Term::Mu(f) => Some((f, Arg::Coterm(e))),
        Term::Axiom(v) => match e {
            Coterm::Axiom(_) => None,
            Coterm::Elim(el) => substitution_call(el, v),
            Coterm::MuTilde(f) => Some((f, Arg::Term(Term::Axiom(v)))),
        },
        Term::Intro(i) => match e {
            Coterm::Axiom(_) => None,
            Coterm::Elim(el) => reduction_call(i, el),
            Coterm::MuTilde(f) => Some((f, Arg::Term(Term::Intro(i)))),
        },
    }
}

/// `r` is what performing `call` gives: `Normal` where nothing is called,
/// else a command the continuation may return on its argument.
pub open spec fn outcome<K: Body>(call: Option<(K, Arg<K>)>, r: Command<K>) -> bool {
    match call {
        None => r is Normal,
        Some((k, arg)) => k.resumes_to(arg, r),
    }
}

/// The cut `⟨t | e⟩`: pair a term with a coterm of the dual type.
///
/// | Term \ Coterm | `Axiom`  | `Elim` | `MuTilde` |
/// |---------------|----------|--------|-----------|
/// | `Axiom`       | `Normal` | `Step` | `Step`    |
/// | `Intro`       | `Normal` | `Step` | `Step`    |
/// | `Mu`          | `Step`   | `Step` | `Step`    |
///
/// The two canonical cases give `Normal`; every other case gives one
/// `Step` holding the pair, and nothing runs until it is fired.
pub fn cut<K>(term: Term<K>, coterm: Coterm<K>) -> (r: Command<K>)
    requires
        can_cut(term, coterm),
    ensures
        is_canonical(term, coterm) ==> r is Normal,
        !is_canonical(term, coterm) ==> (r matches Command::Step(x) && x.term() == term
            && x.coterm() == coterm),
        (term is Mu || !(coterm is Axiom)) ==> (r matches Command::Step(x) && x.term() == term
            && x.coterm() == coterm),
        (!(term is Mu) && coterm is Axiom) ==> r is Normal,
{
    match (&term, &coterm) {
        (Term::Axiom(_), Coterm::Axiom(_)) => Command::Normal,
        (Term::Intro(_), Coterm::Axiom(_)) => Command::Normal,
        _ => Command::Step(Redex::new(term, coterm)),
    }
}

/// The reduction rule of a positive connective against its dual:
/// `()` against `μ̃().c` runs `c`; `(v, w)` against `μ̃(x ⅋ y).c` hands the
/// body both components; `inl(v)` / `inr(w)` against `μ̃case(..)` takes the
/// left / right branch; `!` against `μ̃!x.c` hands the body the
/// introduction.
pub fn reduce<K: Body>(intro: Intro<K>, elim: Elim<K>) -> (r: Command<K>)
    requires
        intro_meets_elim(intro, elim),
    ensures
        reduction_call(intro, elim) is Some,
        outcome(reduction_call(intro, elim), r),
        intro is Unit ==> (elim matches Elim::Bot(b) && b.body.resumes_to(Arg::Unit, r)),
        intro matches Intro::Pair(v, w) ==> (elim matches Elim::Par(p) && p.body.resumes_to(
            Arg::Pair(*v, *w),
            r,
        )),
        intro matches Intro::Plus(PlusIntro::Inl(v)) ==> (elim matches Elim::With(c)
            && c.left.resumes_to(Arg::Term(*v), r)),
        intro matches Intro::Plus(PlusIntro::Inr(w)) ==> (elim matches Elim::With(c)
            && c.right.resumes_to(Arg::Term(*w), r)),
        intro matches Intro::Bang(b) ==> (elim matches Elim::Whynot(k) && k.body.resumes_to(
            Arg::Bang(b),
            r,
        )),
{
    match (intro, elim) {
        (Intro::Unit, Elim::Bot(b)) => b.body.resume(Arg::Unit),
        (Intro::Pair(v, w), Elim::Par(p)) => p.body.resume(Arg::Pair(*v, *w)),
        (Intro::Plus(PlusIntro::Inl(v)), Elim::With(c)) => c.left.resume(Arg::Term(*v)),
        (Intro::Plus(PlusIntro::Inr(w)), Elim::With(c)) => c.right.resume(Arg::Term(*w)),
        (Intro::Bang(b), Elim::Whynot(k)) => k.body.resume(Arg::Bang(b)),
        _ => {
            assert(false);
            Command::Normal
        },
    }
}

/// A variable against an eliminator: the body of an atom eliminator
/// receives the variable as a term; against the eliminator of a composite
/// type the cut is blocked and gives `Normal`.
pub fn substitute<K: Body>(elim: Elim<K>, resource: Resource) -> (r: Command<K>)
    ensures
        outcome(substitution_call(elim, resource), r),
        elim is Atom <==> substitution_call(elim, resource) is Some,
        elim matches Elim::Atom(a) ==> a.body.resumes_to(Arg::Term(Term::Axiom(resource)), r),
        !(elim is Atom) ==> r is Normal,
{
    match elim {
        Elim::Atom(a) => a.body.resume(Arg::Term(Term::Axiom(resource))),
        _ => Command::Normal,
    }
}

// =============================================================================
// Laws of the cut
// =============================================================================

/// Dual types make every cut well defined: a term of `A` and a coterm of
/// `A⊥` can always be cut, since an introduction of `A` only ever meets an
/// eliminator of its own connective.
pub proof fn lemma_typed_cut_is_defined<K>(t: Term<K>, e: Coterm<K>, a: Formula)
    requires
        term_has_type(t, a),
        coterm_has_type(e, dual(a)),
    ensures
        can_cut(t, e),
{
}

/// A cut that is not canonical always reduces: one step resumes a
/// continuation, except a variable against the eliminator of a composite
/// type, which is blocked.
pub proof fn lemma_cut_progress<K>(t: Term<K>, e: Coterm<K>)
    requires
        can_cut(t, e),
        !is_canonical(t, e),
    ensures
        next_call(t, e) is Some || is_blocked(t, e),
{
}

/// Subject reduction: in a cut of a term of `A` against a coterm of `A⊥`,
/// the continuation that one step resumes receives a value of the type it
/// is bound at: a coterm of `A⊥` for a μ-binder, a term of `A` for a
/// μ̃-binder or an atom eliminator, the components of `B ⊗ C` for a par
/// eliminator, the injected term of `B` or `C` for a branch of a case on
/// `B ⊕ C`, nothing for `⊥`, the `!`-introduction for `?`.
pub proof fn lemma_subject_reduction<K>(t: Term<K>, e: Coterm<K>, a: Formula)
    requires
        term_has_type(t, a),
        coterm_has_type(e, dual(a)),
    ensures
        match next_call(t, e) {
            None => is_canonical(t, e) || is_blocked(t, e),
            Some((_, arg)) => match arg {
                Arg::Coterm(c) => t is Mu && c == e && coterm_has_type(c, dual(a)),
                Arg::Term(x) => match (t, e) {
                    (Term::Intro(Intro::Plus(PlusIntro::Inl(_))), Coterm::Elim(Elim::With(_))) => {
                        a matches Formula::Plus(b, _) && term_has_type(x, *b)
                    },
                    (Term::Intro(Intro::Plus(PlusIntro::Inr(_))), Coterm::Elim(Elim::With(_))) => {
                        a matches Formula::Plus(_, c) && term_has_type(x, *c)
                    },
                    _ => term_has_type(x, a),
                },
                Arg::Pair(x, y) => a matches Formula::Tensor(b, c) && term_has_type(x, *b)
                    && term_has_type(y, *c),
                Arg::Unit => a is One,
                Arg::Bang(_) => a is Bang,
            },
        },
{
    lemma_dual_polarity(a);
}

/// The canonical forms are exactly a variable or an introduction against a
/// covariable: every cut whose term is a μ-binder, or whose coterm is an
/// eliminator or a μ̃-binder, reduces.
pub proof fn lemma_canonical_forms<K>(t: Term<K>, e: Coterm<K>)
    ensures
        is_canonical(t, e) <==> (!(t is Mu) && e is Axiom),
        t is Mu ==> !is_canonical(t, e),
        e is Elim ==> !is_canonical(t, e),
        e is MuTilde ==> !is_canonical(t, e),
{
}

/// The μ-rule and the μ̃-rule: a μ-binder receives exactly the coterm it is
/// cut against, and a μ̃-binder exactly the term it is cut against (unless
/// that term is itself a μ-binder, which takes precedence).
pub proof fn lemma_binders_receive_the_other_side<K>(t: Term<K>, e: Coterm<K>, f: K)
    ensures
        next_call(Term::Mu(f), e) == Some((f, Arg::Coterm(e))),
        !(t is Mu) ==> next_call(t, Coterm::MuTilde(f)) == Some((f, Arg::Term(t))),
{
}

/// A variable against the eliminator of a dual atom is handed to its body
/// as a term; against the eliminator of any composite type nothing runs.
pub proof fn lemma_variable_against_eliminator<K>(v: Resource, body: K, e: Elim<K>)
    ensures
        next_call(Term::Axiom(v), Coterm::Elim(Elim::Atom(AtomElim { body }))) == Some(
            (body, Arg::Term(Term::<K>::Axiom(v))),
        ),
        !(e is Atom) ==> next_call(Term::Axiom(v), Coterm::Elim(e)) is None,
{
}

/// The case rule: `inl(v)` against `μ̃case(left, right)` resumes `left`
/// with `v`, and `inr(w)` resumes `right` with `w`, for every `v` and `w`.
pub proof fn lemma_case_takes_chosen_branch<K>(v: Term<K>, w: Term<K>, left: K, right: K)
    ensures
        next_call(
            Term::Intro(Intro::Plus(PlusIntro::Inl(Box::new(v)))),
            Coterm::Elim(Elim::With(WithElim { left, right })),
        ) == Some((left, Arg::Term(v))),
        next_call(
            Term::Intro(Intro::Plus(PlusIntro::Inr(Box::new(w)))),
            Coterm::Elim(Elim::With(WithElim { left, right })),
        ) == Some((right, Arg::Term(w))),
{
}

/// The multiplicative and exponential rules: `()` against `μ̃().c` resumes
/// the body with nothing, `(v, w)` against `μ̃(x ⅋ y).c` resumes it with `v`
/// and `w` in that order, and a `!`-introduction against `μ̃!x.c` resumes
/// it with that very introduction.
pub proof fn lemma_unit_pair_bang_rules<K>(v: Term<K>, w: Term<K>, b: BangIntro<K>, body: K)
    ensures
        next_call(Term::Intro(Intro::Unit), Coterm::Elim(Elim::Bot(BotElim { body }))) == Some(
            (body, Arg::<K>::Unit),
        ),
        next_call(
            Term::Intro(Intro::Pair(Box::new(v), Box::new(w))),
            Coterm::Elim(Elim::Par(ParElim { body })),
        ) == Some((body, Arg::Pair(v, w))),
        next_call(Term::Intro(Intro::Bang(b)), Coterm::Elim(Elim::Whynot(WhynotElim { body })))
            == Some((body, Arg::Bang(b))),
{
}

} // verus!
