use vstd::prelude::*;

use crate::reduce::{can_cut, is_blocked, is_canonical, next_call, outcome, reduce, substitute};
use crate::types::{Arg, Body, Coterm, Elim, Term};

verus! {

/// A command: the result of cutting a term against a coterm.
///
/// * `Normal`: a canonical form. Either an axiom cut (variable against
///   covariable) or a blocked form (introduction against covariable, or
///   variable against the eliminator of a composite type). Nothing reduces
///   without an outer substitution.
/// * `Step`: one reduction remains; firing the redex performs it and gives
///   the next command. Every non-terminal reduction is exactly one `Step`.
pub enum Command<K> {
    Normal,
    Step(Redex<K>),
}

impl<K> Command<K> {
    /// How the command prints: `"Normal"` for a canonical form, `"Step(..)"`
    /// for a pending reduction.
    pub fn describe(&self) -> (r: String)
        ensures
            r@ == (if self is Normal { "Normal"@ } else { "Step(..)"@ }),
    {
        match self {
            Command::Normal => "Normal".to_owned(),
            Command::Step(_) => "Step(..)".to_owned(),
        }
    }
}

/// A cut that still reduces: the pair `⟨t | e⟩` held by a `Step`.
///
/// Only `cut` makes one, so it is never canonical and an introduction in it
/// always meets the eliminator of its own connective.
pub struct Redex<K> {
    term: Term<K>,
    coterm: Coterm<K>,
}

impl<K> Redex<K> {
    #[verifier::type_invariant]
    spec fn reducible(self) -> bool {
        can_cut(self.term, self.coterm) && !is_canonical(self.term, self.coterm)
    }

    /// The term of the cut.
    pub closed spec fn term(self) -> Term<K> {
        self.term
    }

    /// The coterm of the cut.
    pub closed spec fn coterm(self) -> Coterm<K> {
        self.coterm
    }

    /// Pair a term with a coterm that reduces against it.
    pub(crate) fn new(term: Term<K>, coterm: Coterm<K>) -> (r: Redex<K>)
        requires
            can_cut(term, coterm),
            !is_canonical(term, coterm),
        ensures
            r.term() == term,
            r.coterm() == coterm,
    {
        Redex { term, coterm }
    }
}

impl<K: Body> Redex<K> {
    /// Perform the reduction step:
    ///
    /// | Term \ Coterm | `Elim`                | `MuTilde`          |
    /// |---------------|-----------------------|--------------------|
    /// | `Axiom(v)`    | `substitute(e, v)`    | `f(Axiom(v))`      |
    /// | `Intro(i)`    | `reduce(i, e)`        | `f(Intro(i))`      |
    /// | `Mu(f)`       | `f(c)` against any coterm `c`              |
    ///
    /// The result is what the continuation named by `next_call` returns on
    /// its argument, or `Normal` where none is named (a variable against
    /// the eliminator of a composite type).
    pub fn fire(self) -> (r: Command<K>)
        ensures
            outcome(next_call(self.term(), self.coterm()), r),
            self.term() matches Term::Mu(f) ==> f.resumes_to(Arg::Coterm(self.coterm()), r),
            !(self.term() is Mu) ==> (self.coterm() matches Coterm::MuTilde(f) ==> f.resumes_to(
                Arg::Term(self.term()),
                r,
            )),
            self.term() is Axiom ==> (self.coterm() matches Coterm::Elim(Elim::Atom(a))
                ==> a.body.resumes_to(Arg::Term(self.term()), r)),
            is_blocked(self.term(), self.coterm()) ==> r is Normal,
    {
        proof {
            use_type_invariant(&self);
        }
        let Redex { term, coterm } = self;
        match term {
            Term::Mu(f) => f.resume(Arg::Coterm(coterm)),
            Term::Axiom(v) => match coterm {
                Coterm::Elim(e) => substitute(e, v),
                Coterm::MuTilde(f) => f.resume(Arg::Term(Term::Axiom(v))),
                Coterm::Axiom(_) => {
                    assert(false);
                    Command::Normal
                },
            },
            Term::Intro(i) => match coterm {
                Coterm::Elim(e) => reduce(i, e),
                Coterm::MuTilde(f) => f.resume(Arg::Term(Term::Intro(i))),
                Coterm::Axiom(_) => {
                    assert(false);
                    Command::Normal
                },
            },
        }
    }
}

/// The most reduction steps that `run` performs: the machine's step counter
/// is a `u64`.
pub const MAX_STEPS: u64 = u64::MAX;

/// One reduction: `c` is a `Step` and firing it may give `next`.
pub open spec fn steps_to<K: Body>(c: Command<K>, next: Command<K>) -> bool {
    match c {
        Command::Normal => false,
        Command::Step(x) => outcome(next_call(x.term(), x.coterm()), next),
    }
}

/// `trace` is a reduction sequence: each command steps to the next.
pub open spec fn is_reduction<K: Body>(trace: Seq<Command<K>>) -> bool {
    &&& trace.len() >= 1
    &&& forall|i: int| 0 <= i < trace.len() - 1 ==> #[trigger] steps_to(trace[i], trace[i + 1])
}

/// Running a `Step` is firing it once and then running what firing gives:
/// a reduction sequence of more than one command starts with one step from
/// its first command to its second, and the rest of it is a reduction
/// sequence from that second command.
pub proof fn lemma_reduction_unfolds<K: Body>(trace: Seq<Command<K>>)
    requires
        is_reduction(trace),
        trace.len() > 1,
    ensures
        steps_to(trace[0], trace[1]),
        is_reduction(trace.drop_first()),
        trace.drop_first()[0] == trace[1],
        trace.drop_first().last() == trace.last(),
{
    let first: int = 0;
    assert(steps_to(trace[first], trace[first + 1]));
    let rest = trace.drop_first();
    assert forall|i: int| 0 <= i < rest.len() - 1 implies #[trigger] steps_to(rest[i], rest[i + 1]) by {
        let j = i + 1;
        assert(rest[i] == trace[j] && rest[i + 1] == trace[j + 1]);
        assert(steps_to(trace[j], trace[j + 1]));
    }
}

/// Conversely, one step from `c` to the first command of a reduction
/// sequence extends it to a reduction sequence from `c`.
pub proof fn lemma_reduction_extends<K: Body>(c: Command<K>, rest: Seq<Command<K>>)
    requires
        is_reduction(rest),
        steps_to(c, rest[0]),
    ensures
        is_reduction(seq![c] + rest),
        (seq![c] + rest)[0] == c,
        (seq![c] + rest).drop_first() == rest,
        (seq![c] + rest).last() == rest.last(),
{
    let trace = seq![c] + rest;
    assert(trace.drop_first() =~= rest);
    assert forall|i: int| 0 <= i < trace.len() - 1 implies #[trigger] steps_to(trace[i], trace[i + 1]) by {
        if i == 0 {
            assert(trace[0] == c && trace[1] == rest[0]);
        } else {
            assert(trace[i] == rest[i - 1] && trace[i + 1] == rest[i]);
            assert(steps_to(rest[i - 1], rest[(i - 1) + 1]));
        }
    }
}

/// Drive a command to its normal form: fire `Step`s until `Normal` comes.
///
/// The result is reached from `cmd` by a reduction sequence, and it is
/// `Normal` unless `MAX_STEPS` steps were fired without reaching it. A
/// command whose reduction does not end runs that long.
pub fn run<K: Body>(cmd: Command<K>) -> (r: Command<K>)
    ensures
        exists|trace: Seq<Command<K>>|
            {
                &&& is_reduction(trace)
                &&& trace[0] == cmd
                &&& trace.last() == r
                &&& (r is Normal || trace.len() == MAX_STEPS + 1)
            },
{
    let ghost mut trace: Seq<Command<K>> = seq![cmd];
    let mut cur = cmd;
    let mut budget: u64 = MAX_STEPS;
    loop
        invariant
            is_reduction(trace),
            trace[0] == cmd,
            trace.last() == cur,
            trace.len() == MAX_STEPS - budget + 1,
        decreases budget,
    {
        match cur {
            Command::Normal => {
                assert(is_reduction(trace) && trace[0] == cmd && trace.last() == Command::<K>::Normal);
                return Command::Normal;
            },
            Command::Step(x) => {
                if budget == 0 {
                    assert(is_reduction(trace) && trace[0] == cmd && trace.last() == Command::Step(x));
                    return Command::Step(x);
                }
                let next = x.fire();
                proof {
                    let old_trace = trace;
                    trace = trace.push(next);
                    assert forall|i: int| 0 <= i < trace.len() - 1 implies #[trigger] steps_to(
                        trace[i],
                        trace[i + 1],
                    ) by {
                        if i < old_trace.len() - 1 {
                            assert(trace[i] == old_trace[i] && trace[i + 1] == old_trace[i + 1]);
                        }
                    }
                }
                cur = next;
                budget = budget - 1;
            },
        }
    }
}

} // verus!
