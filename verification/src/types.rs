use vstd::prelude::*;
use std::rc::Rc;

use vstd::std_specs::convert::FromSpec;

use crate::formula::{is_negative, is_positive, well_formed, Formula};
use crate::machine::Command;

verus! {

// =============================================================================
// Linear resource token
// =============================================================================

/// A linear resource token: a free variable (or covariable) of a term or
/// coterm. It is neither `Copy` nor `Clone`, so each token is used at most
/// once.
pub struct Resource {}

impl Resource {
    /// Create a fresh resource token.
    pub fn new() -> (r: Resource)
        ensures
            r == (Resource {}),
    {
        Resource {}
    }
}

impl Default for Resource {
    /// A fresh resource token.
    fn default() -> (r: Resource)
        ensures
            r == (Resource {}),
    {
        Resource::new()
    }
}

// =============================================================================
// User continuations
// =============================================================================

/// The code that binders and eliminators hold: a continuation supplied by
/// the user of the library.
///
/// `resume` runs the continuation once on the value that a reduction hands
/// it and returns the next command; `produce` is the duplicable producer of
/// a `!`-introduction and may run any number of times. What the user's code
/// returns is named by `resumes_to` and `produces`: the library states which
/// continuation receives which argument, never what the user's code does
/// with it.
pub trait Body: Sized {
    /// `result` is a command that the continuation may return when resumed
    /// on `arg`. Code that states nothing of itself may return anything.
    closed spec fn resumes_to(self, arg: Arg<Self>, result: Command<Self>) -> bool {
        true
    }

    /// `result` is a term that the producer may return. Code that states
    /// nothing of itself may return anything.
    closed spec fn produces(&self, result: Term<Self>) -> bool {
        true
    }

    /// Run the continuation on the value that a reduction hands it.
    fn resume(self, arg: Arg<Self>) -> (result: Command<Self>)
        ensures
            self.resumes_to(arg, result),
    ;

    /// Run the producer of a `!`-introduction once more.
    fn produce(&self) -> (result: Term<Self>)
        ensures
            self.produces(result),
    ;
}

/// The value that a reduction hands a continuation.
pub enum Arg<K> {
    /// A term: for a μ̃-binder, an atom eliminator, or a branch of a case.
    Term(Term<K>),
    /// A coterm: for a μ-binder.
    Coterm(Coterm<K>),
    /// Nothing: for the eliminator of `⊥`.
    Unit,
    /// The two components of a tensor pair: for a par eliminator.
    Pair(Term<K>, Term<K>),
    /// A duplicable producer: for a why-not eliminator.
    Bang(BangIntro<K>),
}

// =============================================================================
// Terms
// =============================================================================

/// A positive term.
///
/// - `Axiom`: the axiom rule, a resource is a term.
/// - `Intro`: a structural introduction form of a positive connective.
/// - `Mu`: the μ-binder `μα.c`, a continuation that receives the coterm the
///   term is cut against.
pub enum Term<K> {
    Axiom(Resource),
    Intro(Intro<K>),
    Mu(K),
}

impl<K> From<Resource> for Term<K> {
    /// A resource is a term by the axiom rule.
    fn from(r: Resource) -> (t: Self)
        ensures
            t == Term::<K>::Axiom(r),
    {
        Term::Axiom(r)
    }
}

impl<K> vstd::std_specs::convert::FromSpecImpl<Resource> for Term<K> {
    open spec fn obeys_from_spec() -> bool {
        true
    }

    open spec fn from_spec(v: Resource) -> Self {
        Term::Axiom(v)
    }
}

/// The introduction forms of the positive connectives.
pub enum Intro<K> {
    /// `()` : `1`.
    Unit,
    /// `(v, w)` : `A ⊗ B`.
    Pair(Box<Term<K>>, Box<Term<K>>),
    /// `inl(v)` or `inr(w)` : `A ⊕ B`.
    Plus(PlusIntro<K>),
    /// A duplicable producer : `!A`.
    Bang(BangIntro<K>),
}

/// Introduction form of `A ⊕ B`: the choice is made at introduction time.
pub enum PlusIntro<K> {
    Inl(Box<Term<K>>),
    Inr(Box<Term<K>>),
}

/// Introduction form of `!A`: a producer that can be run any number of
/// times, each run giving a fresh term of type `A`. Cloning it shares the
/// producer.
pub struct BangIntro<K> {
    producer: Rc<K>,
}

impl<K> BangIntro<K> {
    /// The producer of this introduction.
    pub closed spec fn producer(self) -> K {
        *self.producer
    }
}

/// Promotion `!`: a producer of terms becomes a duplicable introduction.
pub fn promote<K: Body>(producer: K) -> (r: BangIntro<K>)
    ensures
        r.producer() == producer,
{
    BangIntro { producer: Rc::new(producer) }
}

/// Dereliction `?`: run the producer of a `!`-introduction once, giving a
/// fresh linear term. Clones of one introduction share its producer, so
/// each may be derelicted in turn.
pub fn derelict<K: Body>(bang: BangIntro<K>) -> (r: Term<K>)
    ensures
        bang.producer().produces(r),
{
    bang.producer.produce()
}

impl<K> Clone for BangIntro<K> {
    /// Another handle on the same producer.
    fn clone(&self) -> (r: Self)
        ensures
            r == *self,
    {
        BangIntro { producer: Rc::clone(&self.producer) }
    }
}

// =============================================================================
// Coterms
// =============================================================================

/// A negative coterm.
///
/// - `Axiom`: the axiom rule, a resource is a coterm.
/// - `Elim`: a structural elimination form of a negative connective.
/// - `MuTilde`: the μ̃-binder `μ̃x.c`, a continuation that receives the term
///   the coterm is cut against.
pub enum Coterm<K> {
    Axiom(Resource),
    Elim(Elim<K>),
    MuTilde(K),
}

impl<K> From<Resource> for Coterm<K> {
    /// A resource is a coterm by the axiom rule.
    fn from(r: Resource) -> (e: Self)
        ensures
            e == Coterm::<K>::Axiom(r),
    {
        Coterm::Axiom(r)
    }
}

impl<K> vstd::std_specs::convert::FromSpecImpl<Resource> for Coterm<K> {
    open spec fn obeys_from_spec() -> bool {
        true
    }

    open spec fn from_spec(v: Resource) -> Self {
        Coterm::Axiom(v)
    }
}

/// The elimination forms of the negative connectives.
pub enum Elim<K> {
    Atom(AtomElim<K>),
    Bot(BotElim<K>),
    Par(ParElim<K>),
    With(WithElim<K>),
    Whynot(WhynotElim<K>),
}

/// Elimination form of a dual atom `X⊥`: a body consuming a term of `X`.
pub struct AtomElim<K> {
    pub body: K,
}

/// Elimination form of `⊥`: a body consuming nothing.
pub struct BotElim<K> {
    pub body: K,
}

/// Elimination form of `A ⅋ B`: a body consuming the two components of a
/// tensor pair.
pub struct ParElim<K> {
    pub body: K,
}

/// Elimination form of `A & B`: one continuation per injection.
pub struct WithElim<K> {
    pub left: K,
    pub right: K,
}

/// Elimination form of `?N`: a body consuming a `!`-introduction.
pub struct WhynotElim<K> {
    pub body: K,
}

// =============================================================================
// Typing
// =============================================================================

/// `t` is a term of the positive formula `a`. Resources and μ-binders are
/// terms of every positive formula; an introduction form is a term of the
/// formula of its connective whose components it types.
pub open spec fn term_has_type<K>(t: Term<K>, a: Formula) -> bool
    decreases t,
{
    &&& is_positive(a)
    &&& well_formed(a)
    &&& match t {
        Term::Axiom(_) | Term::Mu(_) => true,
        Term::Intro(Intro::Unit) => a is One,
        Term::Intro(Intro::Pair(v, w)) => match a {
            Formula::Tensor(b, c) => term_has_type(*v, *b) && term_has_type(*w, *c),
            _ => false,
        },
        Term::Intro(Intro::Plus(PlusIntro::Inl(v))) => match a {
            Formula::Plus(b, _) => term_has_type(*v, *b),
            _ => false,
        },
        Term::Intro(Intro::Plus(PlusIntro::Inr(w))) => match a {
            Formula::Plus(_, c) => term_has_type(*w, *c),
            _ => false,
        },
        Term::Intro(Intro::Bang(_)) => a is Bang,
    }
}

/// `e` is a coterm of the negative formula `n`. Resources and μ̃-binders are
/// coterms of every negative formula; an elimination form is a coterm of
/// the formulas of its connective.
pub open spec fn coterm_has_type<K>(e: Coterm<K>, n: Formula) -> bool {
    &&& is_negative(n)
    &&& well_formed(n)
    &&& match e {
        Coterm::Axiom(_) | Coterm::MuTilde(_) => true,
        Coterm::Elim(Elim::Atom(_)) => n is AtomN,
        Coterm::Elim(Elim::Bot(_)) => n is Bot,
        Coterm::Elim(Elim::Par(_)) => n is Par,
        Coterm::Elim(Elim::With(_)) => n is With,
        Coterm::Elim(Elim::Whynot(_)) => n is Whynot,
    }
}

/// Turning a resource into a term or a coterm is the axiom rule: the result
/// is that resource as a variable or covariable, never an introduction or
/// eliminator.
pub proof fn lemma_resource_is_axiom<K>(r: Resource)
    ensures
        <Term<K> as FromSpec<Resource>>::obeys_from_spec(),
        <Term<K> as FromSpec<Resource>>::from_spec(r) == Term::<K>::Axiom(r),
        <Coterm<K> as FromSpec<Resource>>::obeys_from_spec(),
        <Coterm<K> as FromSpec<Resource>>::from_spec(r) == Coterm::<K>::Axiom(r),
{
}

} // verus!
