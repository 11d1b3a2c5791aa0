//! The route between two spaces: which primitive transforms to apply, and in
//! which order.
//!
//! A few pairs of spaces are converted in one step. Every other conversion
//! goes through the interchange space, CIE XYZ with the D50 white point: from
//! the source space along its chain to the interchange space, and from there
//! along the target's chain, walked backwards, to the target.

use crate::space::ColorSpace;
use crate::step::Step;
use vstd::prelude::*;

verus! {

/// The step that converts `source` to `target` at once, for the pairs that
/// have one.
pub open spec fn direct(source: ColorSpace, target: ColorSpace) -> Option<Step> {
    match (source, target) {
        (ColorSpace::Srgb, ColorSpace::Hsl) => Some(Step::SrgbToHsl),
        (ColorSpace::Hsl, ColorSpace::Srgb) => Some(Step::HslToSrgb),
        (ColorSpace::Srgb, ColorSpace::Hwb) => Some(Step::SrgbToHwb),
        (ColorSpace::Hwb, ColorSpace::Srgb) => Some(Step::HwbToSrgb),
        (ColorSpace::Lch, ColorSpace::Lab) => Some(Step::LchToLab),
        (ColorSpace::Lab, ColorSpace::Lch) => Some(Step::LabToLch),
        (ColorSpace::Oklch, ColorSpace::Oklab) => Some(Step::OklchToOklab),
        (ColorSpace::Oklab, ColorSpace::Oklch) => Some(Step::OklabToOklch),
        _ => None,
    }
}

/// The first step of the chain that leads from `space` to the interchange
/// space. There is none for the interchange space itself, nor for a space
/// that has no chain.
pub open spec fn toward_interchange(space: ColorSpace) -> Option<Step> {
    match space {
        ColorSpace::Srgb => Some(Step::SrgbToSrgbLinear),
        ColorSpace::Hsl => Some(Step::HslToSrgb),
        ColorSpace::Hwb => Some(Step::HwbToSrgb),
        ColorSpace::Lab => Some(Step::LabToXyzD50),
        ColorSpace::Lch => Some(Step::LchToLab),
        ColorSpace::SrgbLinear => Some(Step::SrgbLinearToXyzD65),
        ColorSpace::XyzD65 => Some(Step::XyzD65ToXyzD50),
        _ => None,
    }
}

/// Whether `space` has a chain to the interchange space.
pub open spec fn pivots(space: ColorSpace) -> bool {
    space == ColorSpace::XyzD50 || toward_interchange(space) is Some
}

/// The number of steps between `space` and the interchange space.
pub open spec fn distance(space: ColorSpace) -> nat {
    match space {
        ColorSpace::Hsl | ColorSpace::Hwb => 4,
        ColorSpace::Srgb => 3,
        ColorSpace::SrgbLinear | ColorSpace::Lch => 2,
        ColorSpace::XyzD65 | ColorSpace::Lab => 1,
        _ => 0,
    }
}

/// The chain of steps that leads from `space` to the interchange space.
pub open spec fn forward_chain(space: ColorSpace) -> Seq<Step>
    decreases distance(space),
{
    match toward_interchange(space) {
        Some(step) => seq![step] + forward_chain(step.target()),
        None => Seq::empty(),
    }
}

/// A chain walked backwards: the inverse steps, last first.
pub open spec fn reversed(steps: Seq<Step>) -> Seq<Step> {
    Seq::new(steps.len(), |i: int| steps[steps.len() - 1 - i].inverse())
}

/// The chain of steps that leads from the interchange space to `space`.
pub open spec fn backward_chain(space: ColorSpace) -> Seq<Step> {
    reversed(forward_chain(space))
}

/// The steps that convert `source` to `target` through the interchange
/// space; `None` where one of the two has no chain to it.
pub open spec fn pivot_route(source: ColorSpace, target: ColorSpace) -> Option<Seq<Step>> {
    if pivots(source) && pivots(target) {
        Some(forward_chain(source) + backward_chain(target))
    } else {
        None
    }
}

/// The steps that convert `source` to `target`, in order; `None` where the
/// conversion is not supported. A space is converted to itself in no step, a
/// direct pair in one, and every other pair through the interchange space.
pub open spec fn route(source: ColorSpace, target: ColorSpace) -> Option<Seq<Step>> {
    if source == target {
        Some(Seq::empty())
    } else if let Some(step) = direct(source, target) {
        Some(seq![step])
    } else {
        pivot_route(source, target)
    }
}

/// Whether the step in place `i + 1` reads what the step in place `i` wrote.
pub open spec fn linked(steps: Seq<Step>, i: int) -> bool {
    steps[i].target() == steps[i + 1].source()
}

/// Whether the steps lead from `from` to `to`: the first reads `from`, each
/// next one reads what the one before wrote, and the last writes `to`.
pub open spec fn connects(steps: Seq<Step>, from: ColorSpace, to: ColorSpace) -> bool {
    if steps.len() == 0 {
        from == to
    } else {
        &&& steps[0].source() == from
        &&& steps[steps.len() - 1].target() == to
        &&& forall|i: int| 0 <= i < steps.len() - 1 ==> #[trigger] linked(steps, i)
    }
}

/// The step that converts `source` to `target` at once, for the pairs that
/// have one.
pub fn direct_step(source: ColorSpace, target: ColorSpace) -> (r: Option<Step>)
    ensures
        r == direct(source, target),
{
    match (source, target) {
        (ColorSpace::Srgb, ColorSpace::Hsl) => Some(Step::SrgbToHsl),
        (ColorSpace::Hsl, ColorSpace::Srgb) => Some(Step::HslToSrgb),
        (ColorSpace::Srgb, ColorSpace::Hwb) => Some(Step::SrgbToHwb),
        (ColorSpace::Hwb, ColorSpace::Srgb) => Some(Step::HwbToSrgb),
        (ColorSpace::Lch, ColorSpace::Lab) => Some(Step::LchToLab),
        (ColorSpace::Lab, ColorSpace::Lch) => Some(Step::LabToLch),
        (ColorSpace::Oklch, ColorSpace::Oklab) => Some(Step::OklchToOklab),
        (ColorSpace::Oklab, ColorSpace::Oklch) => Some(Step::OklabToOklch),
        _ => None,
    }
}

/// The first step of the chain that leads from `space` to the interchange
/// space.
pub fn step_toward_interchange(space: ColorSpace) -> (r: Option<Step>)
    ensures
        r == toward_interchange(space),
{
    match space {
        ColorSpace::Srgb => Some(Step::SrgbToSrgbLinear),
        ColorSpace::Hsl => Some(Step::HslToSrgb),
        ColorSpace::Hwb => Some(Step::HwbToSrgb),
        ColorSpace::Lab => Some(Step::LabToXyzD50),
        ColorSpace::Lch => Some(Step::LchToLab),
        ColorSpace::SrgbLinear => Some(Step::SrgbLinearToXyzD65),
        ColorSpace::XyzD65 => Some(Step::XyzD65ToXyzD50),
        _ => None,
    }
}

/// The direct table holds exactly the steps that do not hand the marks on
/// channel by channel, each under the space it reads and the space it
/// writes.
pub proof fn lemma_direct(source: ColorSpace, target: ColorSpace, step: Step)
    ensures
        direct(source, target) == Some(step) <==> step.source() == source && step.target() == target
            && !(step.lineage() is Channelwise),
{
}

/// The first step of a chain reads the space that the chain begins in and
/// writes a space that is one step nearer to the interchange space.
pub proof fn lemma_toward_interchange(space: ColorSpace)
    requires
        toward_interchange(space) is Some,
    ensures
        toward_interchange(space)->0.source() == space,
        pivots(toward_interchange(space)->0.target()),
        distance(toward_interchange(space)->0.target()) + 1 == distance(space),
{
}

/// The chain of a space that has one leads from that space to the
/// interchange space, in as many steps as the space is distant from it.
pub proof fn lemma_forward_chain(space: ColorSpace)
    requires
        pivots(space),
    ensures
        forward_chain(space).len() == distance(space),
        connects(forward_chain(space), space, ColorSpace::XyzD50),
    decreases distance(space),
{
    match toward_interchange(space) {
        Some(step) => {
            let rest = forward_chain(step.target());
            let chain = seq![step] + rest;
            lemma_forward_chain(step.target());
            assert(chain == forward_chain(space));
            assert(chain[0] == step);
            assert forall|i: int| 0 <= i < chain.len() - 1 implies #[trigger] linked(chain, i) by {
                if i > 0 {
                    assert(chain[i] == rest[i - 1]);
                    assert(chain[i + 1] == rest[i - 1 + 1]);
                    assert(linked(rest, i - 1));
                } else {
                    assert(chain[1] == rest[0]);
                }
            }
            if rest.len() > 0 {
                assert(chain[chain.len() - 1] == rest[rest.len() - 1]);
            }
        },
        None => {},
    }
}

/// Where one step reads what another wrote, the inverse of the first
/// reads what the inverse of the second writes.
proof fn lemma_link_reversed(first: Step, second: Step)
    requires
        first.target() == second.source(),
    ensures
        second.inverse().target() == first.inverse().source(),
{
    first.lemma_inverse();
    second.lemma_inverse();
}

/// A chain walked backwards leads back: from where the chain ended to where
/// it began.
pub proof fn lemma_reversed_connects(steps: Seq<Step>, from: ColorSpace, to: ColorSpace)
    requires
        connects(steps, from, to),
    ensures
        reversed(steps).len() == steps.len(),
        connects(reversed(steps), to, from),
{
    let back = reversed(steps);
    let n = steps.len() as int;
    if n > 0 {
        assert(back[0] == steps[n - 1].inverse());
        assert(back[n - 1] == steps[0].inverse());
        steps[0].lemma_inverse();
        steps[n - 1].lemma_inverse();
        assert forall|i: int| 0 <= i < n - 1 implies #[trigger] linked(back, i) by {
            let j = n - 2 - i;
            assert(back[i] == steps[j + 1].inverse());
            assert(back[i + 1] == steps[j].inverse());
            assert(linked(steps, j));
            lemma_link_reversed(steps[j], steps[j + 1]);
        }
    }
}

/// Two chains, of which the second begins where the first ends, make one
/// chain.
pub proof fn lemma_joined_connects(
    first: Seq<Step>,
    second: Seq<Step>,
    from: ColorSpace,
    via: ColorSpace,
    to: ColorSpace,
)
    requires
        connects(first, from, via),
        connects(second, via, to),
    ensures
        connects(first + second, from, to),
{
    let all = first + second;
    let n = first.len() as int;
    if n == 0 {
        assert(all =~= second);
    } else if second.len() == 0 {
        assert(all =~= first);
    } else {
        assert(all[0] == first[0]);
        assert(all[all.len() - 1] == second[second.len() - 1]);
        assert forall|i: int| 0 <= i < all.len() - 1 implies #[trigger] linked(all, i) by {
            if i < n - 1 {
                assert(all[i] == first[i]);
                assert(all[i + 1] == first[i + 1]);
                assert(linked(first, i));
            } else if i == n - 1 {
                assert(all[i] == first[n - 1]);
                assert(all[i + 1] == second[0]);
            } else {
                assert(all[i] == second[i - n]);
                assert(all[i + 1] == second[i - n + 1]);
                assert(linked(second, i - n));
            }
        }
    }
}

/// A route through the interchange space leads from its source to its
/// target, in as many steps as the two are distant from the interchange
/// space together.
pub proof fn lemma_pivot_route_connects(source: ColorSpace, target: ColorSpace)
    requires
        pivot_route(source, target) is Some,
    ensures
        connects(pivot_route(source, target)->0, source, target),
        pivot_route(source, target)->0.len() == distance(source) + distance(target),
{
    lemma_forward_chain(source);
    lemma_forward_chain(target);
    lemma_reversed_connects(forward_chain(target), target, ColorSpace::XyzD50);
    lemma_joined_connects(
        forward_chain(source),
        backward_chain(target),
        source,
        ColorSpace::XyzD50,
        target,
    );
}

/// A route leads from its source to its target, in eight steps at most, and
/// in none only from a space to itself.
pub proof fn lemma_route_connects(source: ColorSpace, target: ColorSpace)
    requires
        route(source, target) is Some,
    ensures
        connects(route(source, target)->0, source, target),
        route(source, target)->0.len() <= 8,
        route(source, target)->0.len() == 0 <==> source == target,
{
    if source == target {
    } else if let Some(step) = direct(source, target) {
        assert(seq![step][0] == step);
    } else {
        lemma_pivot_route_connects(source, target);
    }
}

/// A conversion is supported exactly between a space and itself, between the
/// two spaces of a direct pair, and between two spaces that both have a
/// chain to the interchange space.
pub proof fn lemma_route_exists(source: ColorSpace, target: ColorSpace)
    ensures
        route(source, target) is Some <==> source == target || direct(source, target) is Some || (
        pivots(source) && pivots(target)),
        route(source, target) is Some <==> route(target, source) is Some,
{
}

/// The route back is the route walked backwards.
pub proof fn lemma_route_back(source: ColorSpace, target: ColorSpace)
    requires
        route(source, target) is Some,
    ensures
        route(target, source) == Some(reversed(route(source, target)->0)),
{
    if source == target {
        assert(reversed(Seq::<Step>::empty()) =~= Seq::<Step>::empty());
    } else if let Some(step) = direct(source, target) {
        assert(direct(target, source) == Some(step.inverse()));
        assert(reversed(seq![step]) =~= seq![step.inverse()]);
    } else {
        assert(direct(target, source) is None);
        let a = forward_chain(source);
        let b = forward_chain(target);
        lemma_forward_chain(source);
        lemma_forward_chain(target);
        lemma_reversed_connects(b, target, ColorSpace::XyzD50);
        let there = a + reversed(b);
        let back = b + reversed(a);
        assert forall|i: int| 0 <= i < there.len() implies #[trigger] reversed(there)[i]
            == back[i] by {
            let j = there.len() - 1 - i;
            if i < b.len() {
                assert(there[j] == reversed(b)[j - a.len()]);
                b[i].lemma_inverse();
            } else {
                assert(there[j] == a[j]);
            }
        }
        assert(reversed(there) =~= back);
    }
}

/// Whether the steps lead from `from` to `to`.
pub fn is_chain(steps: &Vec<Step>, from: ColorSpace, to: ColorSpace) -> (r: bool)
    ensures
        r == connects(steps@, from, to),
{
    let n = steps.len();
    if n == 0 {
        return from == to;
    }
    if steps[0].source() != from || steps[n - 1].target() != to {
        return false;
    }
    let mut i: usize = 0;
    while i + 1 < n
        invariant
            n == steps.len(),
            0 < n,
            i < n,
            forall|j: int| 0 <= j < i ==> #[trigger] linked(steps@, j),
        decreases n - i,
    {
        if steps[i].target() != steps[i + 1].source() {
            assert(!linked(steps@, i as int));
            return false;
        }
        i = i + 1;
    }
    true
}

/// The chain from a space to the interchange space.
pub fn chain_to_interchange(space: ColorSpace) -> (r: Vec<Step>)
    ensures
        r@ == forward_chain(space),
{
    let mut chain: Vec<Step> = Vec::new();
    let mut at = space;
    loop
        invariant
            chain@ + forward_chain(at) == forward_chain(space),
        decreases distance(at),
    {
        match step_toward_interchange(at) {
            Some(step) => {
                proof {
                    assert(chain@.push(step) + forward_chain(step.target()) =~= chain@ + (seq![
                        step,
                    ] + forward_chain(step.target())));
                }
                chain.push(step);
                at = step.target();
            },
            None => {
                proof {
                    assert(chain@ + forward_chain(at) =~= chain@);
                }
                return chain;
            },
        }
    }
}

/// Whether a space has a chain to the interchange space.
pub fn has_chain(space: ColorSpace) -> (r: bool)
    ensures
        r == pivots(space),
{
    match space {
        ColorSpace::XyzD50 => true,
        _ => step_toward_interchange(space).is_some(),
    }
}

/// The steps that convert `source` to `target`, in order; `None` where the
/// conversion is not supported.
pub fn find_route(source: ColorSpace, target: ColorSpace) -> (r: Option<Vec<Step>>)
    ensures
        r is Some <==> route(source, target) is Some,
        r is Some ==> r->0@ == route(source, target)->0,
{
    if source == target {
        return Some(Vec::new());
    }
    if let Some(step) = direct_step(source, target) {
        let mut steps: Vec<Step> = Vec::new();
        steps.push(step);
        proof {
            assert(steps@ =~= seq![step]);
        }
        return Some(steps);
    }
    find_pivot_route(source, target)
}

/// The steps that convert `source` to `target` through the interchange
/// space; `None` where one of the two has no chain to it.
pub fn find_pivot_route(source: ColorSpace, target: ColorSpace) -> (r: Option<Vec<Step>>)
    ensures
        r is Some <==> pivot_route(source, target) is Some,
        r is Some ==> r->0@ == pivot_route(source, target)->0,
{
    if !(has_chain(source) && has_chain(target)) {
        return None;
    }
    let mut steps = chain_to_interchange(source);
    let back = chain_to_interchange(target);
    let mut left: usize = back.len();
    while left > 0
        invariant
            left <= back.len(),
            back@ == forward_chain(target),
            steps@ == forward_chain(source) + backward_chain(target).subrange(
                0,
                back.len() - left,
            ),
        decreases left,
    {
        left = left - 1;
        let step = back[left].inverse();
        proof {
            let done = back.len() - left - 1;
            assert(backward_chain(target)[done] == step);
            assert(backward_chain(target).subrange(0, done + 1) =~= backward_chain(
                target,
            ).subrange(0, done).push(step));
            assert(steps@.push(step) =~= forward_chain(source) + backward_chain(target).subrange(
                0,
                done + 1,
            ));
        }
        steps.push(step);
    }
    proof {
        assert(backward_chain(target).subrange(0, back.len() as int) =~= backward_chain(target));
    }
    Some(steps)
}

} // verus!
