//! The store's write operations, each as an exchange with the store: the
//! engine hands out one statement at a time, the caller runs it and hands
//! back what the store answered, until the engine hands back the result.
//!
//! Each operation's state has a plain-value view, and a transition function
//! says, for each view and answer, the next view and the next step.

use vstd::prelude::*;

use crate::storage::{OutcomeView, StepView};

pub mod clone;
pub mod entry;
pub mod snapshot;
pub mod volume;

pub use clone::{clone_volume, CloneVolume};
pub use entry::{add_entry, AddEntry};
pub use snapshot::{snapshot, TakeSnapshot};
pub use volume::{create_volume, CreateVolume};

verus! {

// ---------------------------------------------------------------- runs

/// The state an operation with transition function `step` reaches, and the
/// steps it takes, answered `answers` in turn from state `s`.
pub open spec fn run<S, V>(
    step: spec_fn(S, OutcomeView) -> (S, StepView<V>),
    s: S,
    answers: Seq<OutcomeView>,
) -> (S, Seq<StepView<V>>)
    decreases answers.len(),
{
    if answers.len() == 0 {
        (s, Seq::empty())
    } else {
        let (t, first) = step(s, answers[0]);
        let (u, rest) = run(step, t, answers.drop_first());
        (u, seq![first] + rest)
    }
}

/// Answering an operation with `a` and then `b` is answering it with `a + b`.
pub proof fn lemma_run_append<S, V>(
    step: spec_fn(S, OutcomeView) -> (S, StepView<V>),
    s: S,
    a: Seq<OutcomeView>,
    b: Seq<OutcomeView>,
)
    ensures
        run(step, s, a + b) == ({
            let (t, x) = run(step, s, a);
            let (u, y) = run(step, t, b);
            (u, x + y)
        }),
    decreases a.len(),
{
    if a.len() == 0 {
        assert(a + b =~= b);
        let (u, y) = run(step, s, b);
        assert(Seq::<StepView<V>>::empty() + y =~= y);
    } else {
        assert((a + b)[0] == a[0]);
        assert((a + b).drop_first() =~= a.drop_first() + b);
        let (t, first) = step(s, a[0]);
        lemma_run_append(step, t, a.drop_first(), b);
        let (t1, x1) = run(step, t, a.drop_first());
        let (u, y) = run(step, t1, b);
        assert(seq![first] + (x1 + y) =~= (seq![first] + x1) + y);
    }
}

/// Three answers in turn.
pub proof fn lemma_run_three<S, V>(
    step: spec_fn(S, OutcomeView) -> (S, StepView<V>),
    s: S,
    a: OutcomeView,
    b: OutcomeView,
    c: OutcomeView,
)
    ensures
        ({
            let (s1, x1) = step(s, a);
            let (s2, x2) = step(s1, b);
            let (s3, x3) = step(s2, c);
            run(step, s, seq![a, b, c]) == (s3, seq![x1, x2, x3])
        }),
{
    let (s1, x1) = step(s, a);
    let (s2, x2) = step(s1, b);
    let (s3, x3) = step(s2, c);
    let empty = Seq::<OutcomeView>::empty();
    assert(run(step, s3, empty) == (s3, Seq::<StepView<V>>::empty()));
    assert(seq![c].drop_first() =~= empty);
    assert(run(step, s2, seq![c]).0 == s3);
    assert(run(step, s2, seq![c]).1 =~= seq![x3]);
    assert(seq![b, c].drop_first() =~= seq![c]);
    assert(run(step, s1, seq![b, c]).0 == s3);
    assert(run(step, s1, seq![b, c]).1 =~= seq![x2, x3]);
    assert(seq![a, b, c].drop_first() =~= seq![b, c]);
    assert(run(step, s, seq![a, b, c]).0 == s3);
    assert(run(step, s, seq![a, b, c]).1 =~= seq![x1, x2, x3]);
}

} // verus!
