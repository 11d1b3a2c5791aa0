//! What the engine adds to an exact kernel: nothing.
//!
//! A kernel in floating point undoes a step only up to rounding. The laws
//! here are about the engine alone. They take a kernel that is exact: it
//! computes a function in which the inverse of every step leads back. With
//! such a kernel a colour converted there and back is the same colour, and a
//! direct conversion gives what the long way through the interchange space
//! gives.

use crate::color::Color;
use crate::color::Components;
use crate::convert::assembled;
use crate::convert::computed;
use crate::convert::converts;
use crate::convert::lemma_direct_and_pivot_marks;
use crate::convert::lemma_marks_along;
use crate::convert::marks_along;
use crate::convert::step_computed;
use crate::convert::walks;
use crate::route::direct;
use crate::route::forward_chain;
use crate::route::lemma_route_back;
use crate::route::lemma_route_connects;
use crate::route::pivot_route;
use crate::route::reversed;
use crate::route::route;
use crate::route::toward_interchange;
use crate::space::ColorSpace;
use crate::step::Step;
use vstd::prelude::*;

verus! {

/// Whether the kernel computes the function `f`: its result for a step on
/// given values is the value of `f` for them.
pub open spec fn computes<K: Fn(Step, Components) -> Components>(
    kernel: K,
    f: spec_fn(Step, Components) -> Components,
) -> bool {
    forall|step: Step, from: Components, to: Components| #[trigger]
        call_ensures(kernel, (step, from), to) ==> to == f(step, from)
}

/// Whether the inverse of the step leads back from what `f` makes of the
/// values.
pub open spec fn undone(
    f: spec_fn(Step, Components) -> Components,
    step: Step,
    values: Components,
) -> bool {
    f(step.inverse(), f(step, values)) == values
}

/// Whether the kernel is exact: it computes `f`, and in `f` the inverse of
/// every step leads back.
pub open spec fn exact<K: Fn(Step, Components) -> Components>(
    kernel: K,
    f: spec_fn(Step, Components) -> Components,
) -> bool {
    &&& computes(kernel, f)
    &&& forall|step: Step, values: Components| #[trigger] undone(f, step, values)
}

/// With an exact kernel, the values along a chain walked backwards are the
/// values along the chain, last first.
pub proof fn lemma_walk_back<K: Fn(Step, Components) -> Components>(
    kernel: K,
    f: spec_fn(Step, Components) -> Components,
    steps: Seq<Step>,
    there: Seq<Components>,
    back: Seq<Components>,
    i: int,
)
    requires
        exact(kernel, f),
        computed(kernel, steps, there),
        computed(kernel, reversed(steps), back),
        back[0] == there[steps.len() as int],
        0 <= i <= steps.len(),
    ensures
        back[i] == there[steps.len() - i],
    decreases i,
{
    if i > 0 {
        lemma_walk_back(kernel, f, steps, there, back, i - 1);
        let n = steps.len() as int;
        let j = n - i;
        assert(step_computed(kernel, steps, there, j));
        assert(step_computed(kernel, reversed(steps), back, i - 1));
        assert(reversed(steps)[i - 1] == steps[j].inverse());
        assert(undone(f, steps[j], there[j]));
    }
}

/// With an exact kernel, a colour that keeps the convention of the record
/// and whose three components are all specified or all unspecified,
/// converted to another space and back, is the same colour.
pub proof fn lemma_round_trip<K: Fn(Step, Components) -> Components>(
    kernel: K,
    f: spec_fn(Step, Components) -> Components,
    from: Color,
    target: ColorSpace,
    there: Color,
    back: Color,
)
    requires
        exact(kernel, f),
        from.wf(),
        back.flags.wf(),
        from.flags@.all_components() || (!from.flags@.c0 && !from.flags@.c1 && !from.flags@.c2),
        converts(kernel, from, target, there),
        converts(kernel, there, from.color_space, back),
    ensures
        back == from,
{
    let source = from.color_space;
    lemma_route_connects(source, target);
    if source != target {
        let steps = route(source, target)->0;
        lemma_route_back(source, target);
        lemma_route_connects(target, source);
        let home = route(target, source)->0;
        assert(home == reversed(steps));
        lemma_marks_along(steps, from.flags@);
        lemma_marks_along(home, there.flags@);
        let t = choose|t: Seq<Components>| #[trigger]
            computed(kernel, steps, t) && t[0] == from.components && assembled(
                from,
                steps,
                target,
                t.last(),
                there,
            );
        let u = choose|u: Seq<Components>| #[trigger]
            computed(kernel, home, u) && u[0] == there.components && assembled(
                there,
                home,
                source,
                u.last(),
                back,
            );
        if !from.flags@.all_components() {
            assert(there.components =~= t.last());
            lemma_walk_back(kernel, f, steps, t, u, steps.len() as int);
        }
        assert(back.components =~= from.components);
        back.flags.lemma_marks_decide(from.flags);
    }
}


/// The values along two chains, one after the other, are the values along
/// the first, and from its last values on those along the second.
pub proof fn lemma_split_trace<K: Fn(Step, Components) -> Components>(
    kernel: K,
    first: Seq<Step>,
    second: Seq<Step>,
    trace: Seq<Components>,
)
    requires
        computed(kernel, first + second, trace),
    ensures
        computed(kernel, first, trace.take(first.len() as int + 1)),
        computed(kernel, second, trace.skip(first.len() as int)),
{
    let all = first + second;
    let n = first.len() as int;
    let head = trace.take(n + 1);
    let tail = trace.skip(n);
    assert forall|i: int| 0 <= i < first.len() implies #[trigger] step_computed(
        kernel,
        first,
        head,
        i,
    ) by {
        assert(step_computed(kernel, all, trace, i));
        assert(all[i] == first[i]);
    }
    assert forall|i: int| 0 <= i < second.len() implies #[trigger] step_computed(
        kernel,
        second,
        tail,
        i,
    ) by {
        assert(step_computed(kernel, all, trace, n + i));
        assert(all[n + i] == second[i]);
    }
}

/// With an exact kernel, a chain and then the same chain backwards lead
/// back to the values they began with.
pub proof fn lemma_there_and_back<K: Fn(Step, Components) -> Components>(
    kernel: K,
    f: spec_fn(Step, Components) -> Components,
    chain: Seq<Step>,
    trace: Seq<Components>,
)
    requires
        exact(kernel, f),
        computed(kernel, chain + reversed(chain), trace),
    ensures
        trace.last() == trace[0],
{
    let n = chain.len() as int;
    lemma_split_trace(kernel, chain, reversed(chain), trace);
    let there = trace.take(n + 1);
    let back = trace.skip(n);
    lemma_walk_back(kernel, f, chain, there, back, n);
    assert(back[n] == trace[2 * n]);
    assert(there[0] == trace[0]);
}

/// The long way between the two spaces of a direct pair: the direct step and
/// then to the interchange space and back, or to the interchange space and
/// back and then the direct step.
pub proof fn lemma_pivot_of_direct(source: ColorSpace, target: ColorSpace)
    requires
        direct(source, target) is Some,
        pivot_route(source, target) is Some,
    ensures
        toward_interchange(source) == direct(source, target) ==> pivot_route(source, target)->0
            == seq![direct(source, target)->0] + (forward_chain(target) + reversed(
            forward_chain(target),
        )),
        toward_interchange(source) != direct(source, target) ==> pivot_route(source, target)->0
            == (forward_chain(source) + reversed(forward_chain(source))) + seq![
            direct(source, target)->0,
        ],
{
    let step = direct(source, target)->0;
    if toward_interchange(source) == Some(step) {
        assert(forward_chain(source) == seq![step] + forward_chain(target));
        assert(pivot_route(source, target)->0 =~= seq![step] + (forward_chain(target) + reversed(
            forward_chain(target),
        )));
    } else {
        assert(toward_interchange(target) == Some(step.inverse()));
        let hub = forward_chain(source);
        let chain = seq![step.inverse()] + hub;
        assert(forward_chain(target) == chain);
        assert(reversed(chain) =~= reversed(hub) + seq![step]);
        assert(pivot_route(source, target)->0 =~= (hub + reversed(hub)) + seq![step]);
    }
}

/// With an exact kernel, the two spaces of a direct pair are converted alike
/// in one step and the long way through the interchange space.
pub proof fn lemma_direct_and_pivot_agree<K: Fn(Step, Components) -> Components>(
    kernel: K,
    f: spec_fn(Step, Components) -> Components,
    from: Color,
    target: ColorSpace,
    by_direct: Color,
    by_pivot: Color,
)
    requires
        exact(kernel, f),
        direct(from.color_space, target) is Some,
        pivot_route(from.color_space, target) is Some,
        by_direct.flags.wf(),
        by_pivot.flags.wf(),
        converts(kernel, from, target, by_direct),
        walks(kernel, from, pivot_route(from.color_space, target)->0, target, by_pivot),
    ensures
        by_pivot == by_direct,
{
    let source = from.color_space;
    let step = direct(source, target)->0;
    let short = seq![step];
    let long = pivot_route(source, target)->0;
    lemma_direct_and_pivot_marks(source, target, from.flags@);
    lemma_pivot_of_direct(source, target);
    let t = choose|t: Seq<Components>| #[trigger]
        computed(kernel, short, t) && t[0] == from.components && assembled(
            from,
            short,
            target,
            t.last(),
            by_direct,
        );
    assert(step_computed(kernel, short, t, 0));
    assert(t.last() == f(step, from.components));
    let p = choose|p: Seq<Components>| #[trigger]
        computed(kernel, long, p) && p[0] == from.components && assembled(
            from,
            long,
            target,
            p.last(),
            by_pivot,
        );
    if toward_interchange(source) == Some(step) {
        let hub = forward_chain(target);
        lemma_split_trace(kernel, short, hub + reversed(hub), p);
        assert(step_computed(kernel, short, p.take(2), 0));
        lemma_there_and_back(kernel, f, hub, p.skip(1));
        assert(p.skip(1).last() == p.last());
        assert(p.last() == f(step, from.components));
    } else {
        let hub = forward_chain(source);
        let round = hub + reversed(hub);
        lemma_split_trace(kernel, round, short, p);
        lemma_there_and_back(kernel, f, hub, p.take(round.len() as int + 1));
        let tail = p.skip(round.len() as int);
        assert(step_computed(kernel, short, tail, 0));
        assert(tail[0] == p[round.len() as int]);
        assert(p.take(round.len() as int + 1).last() == p[round.len() as int]);
        assert(tail[1] == p.last());
        assert(p.last() == f(step, from.components));
    }
    assert(by_pivot.components =~= by_direct.components);
    by_pivot.flags.lemma_marks_decide(by_direct.flags);
}

} // verus!
