use vstd::prelude::*;

verus! {

/// A formula of multiplicative-additive linear classical logic with
/// exponentials: the type of a term (positive side) or of a coterm
/// (negative side).
///
/// Atoms are named by a number; `AtomP(x)` is the positive atom `X` and
/// `AtomN(x)` its negative dual `X⊥`.
#[derive(Debug)]
pub enum Formula {
    AtomP(u64),
    AtomN(u64),
    /// Multiplicative unit `1` (positive).
    One,
    /// Multiplicative unit `⊥` (negative).
    Bot,
    /// Tensor `A ⊗ B` of two positive formulas.
    Tensor(Box<Formula>, Box<Formula>),
    /// Par `A ⅋ B` of two negative formulas.
    Par(Box<Formula>, Box<Formula>),
    /// Sum `A ⊕ B` of two positive formulas.
    Plus(Box<Formula>, Box<Formula>),
    /// With `A & B` of two negative formulas.
    With(Box<Formula>, Box<Formula>),
    /// Bang `!A` of a positive formula.
    Bang(Box<Formula>),
    /// Why-not `?N` of a negative formula.
    Whynot(Box<Formula>),
}

/// Positive formulas: atoms `X`, `1`, `A ⊗ B`, `A ⊕ B`, `!A`.
pub open spec fn is_positive(f: Formula) -> bool {
    match f {
        Formula::AtomP(_) | Formula::One | Formula::Tensor(_, _) | Formula::Plus(_, _)
        | Formula::Bang(_) => true,
        _ => false,
    }
}

/// Negative formulas: dual atoms `X⊥`, `⊥`, `A ⅋ B`, `A & B`, `?N`.
pub open spec fn is_negative(f: Formula) -> bool {
    match f {
        Formula::AtomN(_) | Formula::Bot | Formula::Par(_, _) | Formula::With(_, _)
        | Formula::Whynot(_) => true,
        _ => false,
    }
}

/// A formula whose connectives are applied to formulas of the polarity
/// they expect: the components of `⊗`, `⊕`, `!` are positive, those of
/// `⅋`, `&`, `?` negative.
pub open spec fn well_formed(f: Formula) -> bool
    decreases f,
{
    match f {
        Formula::Tensor(a, b) | Formula::Plus(a, b) => is_positive(*a) && is_positive(*b)
            && well_formed(*a) && well_formed(*b),
        Formula::Par(a, b) | Formula::With(a, b) => is_negative(*a) && is_negative(*b)
            && well_formed(*a) && well_formed(*b),
        Formula::Bang(a) => is_positive(*a) && well_formed(*a),
        Formula::Whynot(a) => is_negative(*a) && well_formed(*a),
        _ => true,
    }
}

/// The De Morgan dual of a formula.
pub open spec fn dual(f: Formula) -> Formula
    decreases f,
{
    match f {
        Formula::AtomP(x) => Formula::AtomN(x),
        Formula::AtomN(x) => Formula::AtomP(x),
        Formula::One => Formula::Bot,
        Formula::Bot => Formula::One,
        Formula::Tensor(a, b) => Formula::Par(Box::new(dual(*a)), Box::new(dual(*b))),
        Formula::Par(a, b) => Formula::Tensor(Box::new(dual(*a)), Box::new(dual(*b))),
        Formula::Plus(a, b) => Formula::With(Box::new(dual(*a)), Box::new(dual(*b))),
        Formula::With(a, b) => Formula::Plus(Box::new(dual(*a)), Box::new(dual(*b))),
        Formula::Bang(a) => Formula::Whynot(Box::new(dual(*a))),
        Formula::Whynot(a) => Formula::Bang(Box::new(dual(*a))),
    }
}

impl Formula {
    /// The De Morgan dual of this formula.
    pub fn dual(&self) -> (r: Formula)
        ensures
            r == dual(*self),
            *self matches Formula::AtomP(x) ==> r == Formula::AtomN(x),
            *self matches Formula::AtomN(x) ==> r == Formula::AtomP(x),
        decreases self,
    {
        match self {
            Formula::AtomP(x) => Formula::AtomN(*x),
            Formula::AtomN(x) => Formula::AtomP(*x),
            Formula::One => Formula::Bot,
            Formula::Bot => Formula::One,
            Formula::Tensor(a, b) => Formula::Par(Box::new(a.dual()), Box::new(b.dual())),
            Formula::Par(a, b) => Formula::Tensor(Box::new(a.dual()), Box::new(b.dual())),
            Formula::Plus(a, b) => Formula::With(Box::new(a.dual()), Box::new(b.dual())),
            Formula::With(a, b) => Formula::Plus(Box::new(a.dual()), Box::new(b.dual())),
            Formula::Bang(a) => Formula::Whynot(Box::new(a.dual())),
            Formula::Whynot(a) => Formula::Bang(Box::new(a.dual())),
        }
    }
}

/// Duality is an involution: the dual of the dual of `A` is `A`.
pub proof fn lemma_dual_involutive(f: Formula)
    ensures
        dual(dual(f)) == f,
    decreases f,
{
    match f {
        Formula::Tensor(a, b) | Formula::Par(a, b) | Formula::Plus(a, b) | Formula::With(a, b) => {
            lemma_dual_involutive(*a);
            lemma_dual_involutive(*b);
        },
        Formula::Bang(a) | Formula::Whynot(a) => {
            lemma_dual_involutive(*a);
        },
        _ => {},
    }
}

/// Duality exchanges the two polarities and keeps formulas well formed:
/// the dual of every positive type is negative and the dual of every
/// negative type is positive.
pub proof fn lemma_dual_polarity(f: Formula)
    ensures
        is_positive(f) <==> is_negative(dual(f)),
        is_negative(f) <==> is_positive(dual(f)),
        is_positive(f) != is_negative(f),
        well_formed(f) ==> well_formed(dual(f)),
    decreases f,
{
    match f {
        Formula::Tensor(a, b) | Formula::Par(a, b) | Formula::Plus(a, b) | Formula::With(a, b) => {
            lemma_dual_polarity(*a);
            lemma_dual_polarity(*b);
        },
        Formula::Bang(a) | Formula::Whynot(a) => {
            lemma_dual_polarity(*a);
        },
        _ => {},
    }
}

/// The dual of the positive atom `X` is the negative atom `X⊥` of the same
/// name, and the dual of `X⊥` is `X`.
pub proof fn lemma_dual_atoms(x: u64)
    ensures
        dual(Formula::AtomP(x)) == Formula::AtomN(x),
        dual(Formula::AtomN(x)) == Formula::AtomP(x),
{
}

/// De Morgan's laws: `1⊥ = ⊥`, `(A ⊗ B)⊥ = A⊥ ⅋ B⊥`, `(A ⊕ B)⊥ = A⊥ & B⊥`,
/// `(!A)⊥ = ?A⊥`, and the same read from right to left.
pub proof fn lemma_de_morgan(a: Formula, b: Formula)
    ensures
        dual(Formula::One) == Formula::Bot,
        dual(Formula::Bot) == Formula::One,
        dual(Formula::Tensor(Box::new(a), Box::new(b))) == Formula::Par(
            Box::new(dual(a)),
            Box::new(dual(b)),
        ),
        dual(Formula::Par(Box::new(a), Box::new(b))) == Formula::Tensor(
            Box::new(dual(a)),
            Box::new(dual(b)),
        ),
        dual(Formula::Plus(Box::new(a), Box::new(b))) == Formula::With(
            Box::new(dual(a)),
            Box::new(dual(b)),
        ),
        dual(Formula::With(Box::new(a), Box::new(b))) == Formula::Plus(
            Box::new(dual(a)),
            Box::new(dual(b)),
        ),
        dual(Formula::Bang(Box::new(a))) == Formula::Whynot(Box::new(dual(a))),
        dual(Formula::Whynot(Box::new(a))) == Formula::Bang(Box::new(dual(a))),
{
}

} // verus!
