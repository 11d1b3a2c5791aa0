//! The conversion engine.
//!
//! A conversion walks the route from the colour's space to the target space.
//! For each step it asks a kernel for the three new component values and
//! carries the marks of the unspecified channels itself. The kernel is the
//! arithmetic of the primitive transforms; it is a parameter, and the
//! contracts here hold for every kernel.

use crate::color::Color;
use crate::color::Components;
use crate::flags::ChannelMarks;
use crate::flags::ColorFlags;
use crate::route::backward_chain;
use crate::route::connects;
use crate::route::direct;
use crate::route::distance;
use crate::route::find_route;
use crate::route::forward_chain;
use crate::route::lemma_route_connects;
use crate::route::pivot_route;
use crate::route::pivots;
use crate::route::reversed;
use crate::route::route;
use crate::route::toward_interchange;
use crate::space::ColorSpace;
use crate::step::Lineage;
use crate::step::Step;
use vstd::prelude::*;

verus! {

/// The marks at the end of a chain of steps, from the marks at its start.
pub open spec fn marks_along(steps: Seq<Step>, marks: ChannelMarks) -> ChannelMarks
    decreases steps.len(),
{
    if steps.len() == 0 {
        marks
    } else {
        steps.last().carry(marks_along(steps.drop_last(), marks))
    }
}

/// Whether the kernel may have turned the values in place `i` of the trace
/// into those in place `i + 1`, as the step in place `i`.
pub open spec fn step_computed<K: Fn(Step, Components) -> Components>(
    kernel: K,
    steps: Seq<Step>,
    trace: Seq<Components>,
    i: int,
) -> bool {
    call_ensures(kernel, (steps[i], trace[i]), trace[i + 1])
}

/// Whether the trace records the component values before the first step and
/// after each step, each computed by the kernel from the ones before.
pub open spec fn computed<K: Fn(Step, Components) -> Components>(
    kernel: K,
    steps: Seq<Step>,
    trace: Seq<Components>,
) -> bool {
    &&& trace.len() == steps.len() + 1
    &&& forall|i: int| 0 <= i < steps.len() ==> #[trigger] step_computed(kernel, steps, trace, i)
}

/// The value that a component stores at the end of a conversion: zero where
/// it is marked as unspecified, else the computed value.
pub open spec fn settled(value: u32, marked: bool) -> u32 {
    if marked {
        0
    } else {
        value
    }
}

/// Whether `to` is what the steps make of `from` into the space `target`,
/// with a kernel that computed `values` as the last component values: the
/// marks are carried along the steps, the components are settled by those
/// marks, and alpha is untouched.
pub open spec fn assembled(
    from: Color,
    steps: Seq<Step>,
    target: ColorSpace,
    values: Components,
    to: Color,
) -> bool {
    let marks = marks_along(steps, from.flags@);
    &&& to.color_space == target
    &&& to.alpha == from.alpha
    &&& to.flags@ == marks
    &&& to.components[0] == settled(values[0], marks.c0)
    &&& to.components[1] == settled(values[1], marks.c1)
    &&& to.components[2] == settled(values[2], marks.c2)
}

/// Whether `to` is a result of walking `from` along the steps into the space
/// `target` with the kernel. No step gives the same colour. Else the colour
/// is assembled from the values that the kernel computed, step after step,
/// from the components of `from`.
pub open spec fn walks<K: Fn(Step, Components) -> Components>(
    kernel: K,
    from: Color,
    steps: Seq<Step>,
    target: ColorSpace,
    to: Color,
) -> bool {
    if steps.len() == 0 {
        to == from
    } else {
        exists|trace: Seq<Components>|
            {
                &&& #[trigger] computed(kernel, steps, trace)
                &&& trace[0] == from.components
                &&& assembled(from, steps, target, trace.last(), to)
            }
    }
}

/// Whether `to` is a result of converting `from` to the space `target` with
/// the kernel: the conversion is supported, and `to` is a result of walking
/// `from` along the route.
pub open spec fn converts<K: Fn(Step, Components) -> Components>(
    kernel: K,
    from: Color,
    target: ColorSpace,
    to: Color,
) -> bool {
    &&& route(from.color_space, target) matches Some(steps)
    &&& walks(kernel, from, steps, target, to)
}

/// Along any chain of steps the alpha mark is untouched, three unspecified
/// components stay unspecified, and no component becomes unspecified where
/// none was.
pub proof fn lemma_marks_along(steps: Seq<Step>, marks: ChannelMarks)
    ensures
        marks_along(steps, marks).alpha == marks.alpha,
        marks.all_components() ==> marks_along(steps, marks).all_components(),
        !marks.c0 && !marks.c1 && !marks.c2 ==> !marks_along(steps, marks).c0 && !marks_along(
            steps,
            marks,
        ).c1 && !marks_along(steps, marks).c2,
    decreases steps.len(),
{
    if steps.len() > 0 {
        lemma_marks_along(steps.drop_last(), marks);
        steps.last().lemma_carry(marks_along(steps.drop_last(), marks));
    }
}

/// The marks along two chains, one after the other, are the marks along the
/// second from the marks along the first.
pub proof fn lemma_marks_joined(first: Seq<Step>, second: Seq<Step>, marks: ChannelMarks)
    ensures
        marks_along(first + second, marks) == marks_along(second, marks_along(first, marks)),
    decreases second.len(),
{
    if second.len() == 0 {
        assert(first + second =~= first);
    } else {
        assert((first + second).drop_last() =~= first + second.drop_last());
        assert((first + second).last() == second.last());
        lemma_marks_joined(first, second.drop_last(), marks);
    }
}

/// The marks along one step are the marks carried over it.
pub proof fn lemma_marks_one(step: Step, marks: ChannelMarks)
    ensures
        marks_along(seq![step], marks) == step.carry(marks),
{
    let steps = seq![step];
    assert(steps.last() == step);
    assert(steps.drop_last() =~= Seq::<Step>::empty());
    assert(marks_along(steps.drop_last(), marks) == marks);
}

/// How the chain between a space and the interchange space hands the marks
/// on, as a whole: it holds at most one step that is not channelwise.
pub open spec fn chain_lineage(space: ColorSpace) -> Lineage {
    match space {
        ColorSpace::Hsl | ColorSpace::Hwb => Lineage::Mixed,
        ColorSpace::Lch => Lineage::Planar,
        _ => Lineage::Channelwise,
    }
}

/// The marks along the chain of a space, in either direction, are the marks
/// carried by the lineage of the chain.
pub proof fn lemma_chain_marks(space: ColorSpace, marks: ChannelMarks)
    requires
        pivots(space),
    ensures
        marks_along(forward_chain(space), marks) == chain_lineage(space).carry(marks),
        marks_along(backward_chain(space), marks) == chain_lineage(space).carry(marks),
    decreases distance(space),
{
    match toward_interchange(space) {
        Some(step) => {
            let next = step.target();
            let rest = forward_chain(next);
            let chain = seq![step] + rest;
            assert(chain == forward_chain(space));
            lemma_marks_joined(seq![step], rest, marks);
            lemma_marks_one(step, marks);
            lemma_chain_marks(next, step.carry(marks));
            let back = reversed(chain);
            let back_rest = reversed(rest);
            assert(back =~= back_rest + seq![step.inverse()]);
            lemma_marks_joined(back_rest, seq![step.inverse()], marks);
            lemma_marks_one(step.inverse(), marks_along(back_rest, marks));
            lemma_chain_marks(next, marks);
            step.lemma_inverse();
        },
        None => {
            assert(reversed(Seq::<Step>::empty()) =~= Seq::<Step>::empty());
        },
    }
}

/// The marks after a conversion through the interchange space: those of the
/// source, carried by the lineage of the source's chain and then by that of
/// the target's.
pub proof fn lemma_pivot_marks(source: ColorSpace, target: ColorSpace, marks: ChannelMarks)
    requires
        pivot_route(source, target) is Some,
    ensures
        marks_along(pivot_route(source, target)->0, marks) == chain_lineage(target).carry(
            chain_lineage(source).carry(marks),
        ),
{
    lemma_marks_joined(forward_chain(source), backward_chain(target), marks);
    lemma_chain_marks(source, marks);
    lemma_chain_marks(target, chain_lineage(source).carry(marks));
}

/// Where the two spaces of a direct pair both have a chain to the
/// interchange space, the conversion through it carries the marks as the
/// direct conversion does.
pub proof fn lemma_direct_and_pivot_marks(
    source: ColorSpace,
    target: ColorSpace,
    marks: ChannelMarks,
)
    requires
        direct(source, target) is Some,
        pivot_route(source, target) is Some,
    ensures
        marks_along(pivot_route(source, target)->0, marks) == marks_along(
            route(source, target)->0,
            marks,
        ),
{
    lemma_pivot_marks(source, target, marks);
    lemma_marks_one(direct(source, target)->0, marks);
}

/// There and back, the marks of a colour return where its three components
/// are all unspecified or all specified.
pub proof fn lemma_round_trip_marks(source: ColorSpace, target: ColorSpace, marks: ChannelMarks)
    requires
        route(source, target) is Some,
        marks.all_components() || (!marks.c0 && !marks.c1 && !marks.c2),
    ensures
        route(target, source) is Some,
        marks_along(route(target, source)->0, marks_along(route(source, target)->0, marks))
            == marks,
{
    let there = marks_along(route(source, target)->0, marks);
    lemma_marks_along(route(source, target)->0, marks);
    lemma_marks_along(route(target, source)->0, there);
}

/// The marks after a direct conversion are those carried over its one step.
/// Where every output component is derived from all three inputs, as hue,
/// saturation and lightness are from red, green and blue, each is unspecified
/// exactly where all three inputs are. Between the polar and the orthogonal
/// form the lightness mark passes through, and each of the other two outputs
/// is unspecified exactly where both of the other two inputs are.
pub proof fn lemma_direct_marks(source: ColorSpace, target: ColorSpace, marks: ChannelMarks)
    requires
        direct(source, target) is Some,
    ensures
        route(source, target) == Some(seq![direct(source, target)->0]),
        marks_along(route(source, target)->0, marks) == direct(source, target)->0.carry(marks),
        direct(source, target)->0.lineage() is Mixed || direct(source, target)->0.lineage() is Planar,
        direct(source, target)->0.lineage() is Mixed ==> marks_along(
            route(source, target)->0,
            marks,
        ) == Lineage::Mixed.carry(marks),
        direct(source, target)->0.lineage() is Planar ==> marks_along(
            route(source, target)->0,
            marks,
        ) == Lineage::Planar.carry(marks),
        Lineage::Mixed.carry(marks).c0 == marks.all_components(),
        Lineage::Mixed.carry(marks).c1 == marks.all_components(),
        Lineage::Mixed.carry(marks).c2 == marks.all_components(),
        Lineage::Planar.carry(marks).c0 == marks.c0,
        Lineage::Planar.carry(marks).c1 == (marks.c1 && marks.c2),
        Lineage::Planar.carry(marks).c2 == (marks.c1 && marks.c2),
{
    lemma_marks_one(direct(source, target)->0, marks);
}

/// What every conversion keeps, whatever the kernel computes: the result is
/// in the target space, alpha and its mark are untouched, and a colour whose
/// three components are all unspecified stays one, with zero stored in each.
pub proof fn lemma_conversion_keeps<K: Fn(Step, Components) -> Components>(
    kernel: K,
    from: Color,
    target: ColorSpace,
    to: Color,
)
    requires
        converts(kernel, from, target, to),
    ensures
        to.color_space == target,
        to.alpha == from.alpha,
        to.flags@.alpha == from.flags@.alpha,
        from.flags@.all_components() ==> to.flags@.all_components(),
        from.flags@.all_components() && from.wf() ==> to.components[0] == 0 && to.components[1] == 0
            && to.components[2] == 0,
        !from.flags@.c0 && !from.flags@.c1 && !from.flags@.c2 ==> !to.flags@.c0 && !to.flags@.c1
            && !to.flags@.c2,
{
    lemma_route_connects(from.color_space, target);
    lemma_marks_along(route(from.color_space, target)->0, from.flags@);
}

/// The flags at the end of a chain of steps, from the flags at its start.
pub fn propagate_along(steps: &Vec<Step>, flags: ColorFlags) -> (r: ColorFlags)
    ensures
        r@ == marks_along(steps@, flags@),
{
    let mut flags = flags;
    let ghost start = flags@;
    let mut i: usize = 0;
    while i < steps.len()
        invariant
            i <= steps.len(),
            flags@ == marks_along(steps@.take(i as int), start),
        decreases steps.len() - i,
    {
        proof {
            assert(steps@.take(i + 1).drop_last() =~= steps@.take(i as int));
        }
        flags = steps[i].propagate(flags);
        i = i + 1;
    }
    proof {
        assert(steps@.take(i as int) =~= steps@);
    }
    flags
}

impl Color {
    /// The colour walked along a chain of steps that leads from its space to
    /// the space `target`.
    ///
    /// The kernel is asked once for each step, in order, with the step and
    /// the component values at hand, and answers with the component values
    /// after the step.
    pub fn convert_along<K>(&self, steps: &Vec<Step>, target: ColorSpace, kernel: K) -> (r: Color) where
        K: Fn(Step, Components) -> Components,

        requires
            connects(steps@, self.color_space, target),
            forall|step: Step, values: Components| call_requires(kernel, (step, values)),
        ensures
            walks(kernel, *self, steps@, target, r),
            r.color_space == target,
            self.wf() ==> r.wf(),
    {
        if steps.len() == 0 {
            return *self;
        }
        let mut values = self.components;
        let mut flags = self.flags;
        let ghost mut trace: Seq<Components> = seq![self.components];
        let mut i: usize = 0;
        while i < steps.len()
            invariant
                i <= steps.len(),
                trace.len() == i + 1,
                trace[0] == self.components,
                trace[i as int] == values,
                forall|j: int| 0 <= j < i ==> #[trigger] step_computed(kernel, steps@, trace, j),
                flags@ == marks_along(steps@.take(i as int), self.flags@),
                forall|step: Step, values: Components| call_requires(kernel, (step, values)),
            decreases steps.len() - i,
        {
            let step = steps[i];
            let next = kernel(step, values);
            proof {
                let before = trace;
                trace = trace.push(next);
                assert forall|j: int| 0 <= j < i + 1 implies #[trigger] step_computed(
                    kernel,
                    steps@,
                    trace,
                    j,
                ) by {
                    if j < i {
                        assert(step_computed(kernel, steps@, before, j));
                    }
                }
                assert(steps@.take(i + 1).drop_last() =~= steps@.take(i as int));
            }
            flags = step.propagate(flags);
            values = next;
            i = i + 1;
        }
        proof {
            assert(steps@.take(i as int) =~= steps@);
        }
        let r = Color {
            components: [
                if flags.has_c0() { 0 } else { values[0] },
                if flags.has_c1() { 0 } else { values[1] },
                if flags.has_c2() { 0 } else { values[2] },
            ],
            flags,
            color_space: target,
            alpha: self.alpha,
        };
        proof {
            assert(computed(kernel, steps@, trace));
            assert(assembled(*self, steps@, target, trace.last(), r));
            use_type_invariant(flags);
            lemma_marks_along(steps@, self.flags@);
        }
        r
    }

    /// The colour in another space.
    ///
    /// There is a result exactly where the conversion is supported. It is
    /// the colour itself where it is in that space already, and else the
    /// colour walked along the route to that space.
    pub fn to_color_space<K>(&self, color_space: ColorSpace, kernel: K) -> (r: Option<Color>) where
        K: Fn(Step, Components) -> Components,

        requires
            forall|step: Step, values: Components| call_requires(kernel, (step, values)),
        ensures
            r is Some <==> route(self.color_space, color_space) is Some,
            r is Some ==> converts(kernel, *self, color_space, r->0),
            color_space == self.color_space ==> r == Some(*self),
            r is Some && self.wf() ==> r->0.wf(),
    {
        match find_route(self.color_space, color_space) {
            Some(steps) => {
                proof {
                    lemma_route_connects(self.color_space, color_space);
                }
                Some(self.convert_along(&steps, color_space, kernel))
            },
            None => None,
        }
    }
}

} // verus!
