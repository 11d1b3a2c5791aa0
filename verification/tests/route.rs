use colorspace::route::chain_to_interchange;
use colorspace::route::direct_step;
use colorspace::route::find_pivot_route;
use colorspace::route::find_route;
use colorspace::route::has_chain;
use colorspace::route::is_chain;
use colorspace::route::step_toward_interchange;
use colorspace::ColorSpace;
use colorspace::Lineage;
use colorspace::Step;

const ALL: [ColorSpace; 14] = [
    ColorSpace::Srgb,
    ColorSpace::Hsl,
    ColorSpace::Hwb,
    ColorSpace::Lab,
    ColorSpace::Lch,
    ColorSpace::Oklab,
    ColorSpace::Oklch,
    ColorSpace::SrgbLinear,
    ColorSpace::DisplayP3,
    ColorSpace::A98Rgb,
    ColorSpace::ProphotoRgb,
    ColorSpace::Rec2020,
    ColorSpace::XyzD50,
    ColorSpace::XyzD65,
];

const STEPS: [Step; 16] = [
    Step::SrgbToHsl,
    Step::HslToSrgb,
    Step::SrgbToHwb,
    Step::HwbToSrgb,
    Step::LchToLab,
    Step::LabToLch,
    Step::OklchToOklab,
    Step::OklabToOklch,
    Step::SrgbToSrgbLinear,
    Step::SrgbLinearToSrgb,
    Step::SrgbLinearToXyzD65,
    Step::XyzD65ToSrgbLinear,
    Step::XyzD65ToXyzD50,
    Step::XyzD50ToXyzD65,
    Step::LabToXyzD50,
    Step::XyzD50ToLab,
];

const CHAINED: [ColorSpace; 8] = [
    ColorSpace::Srgb,
    ColorSpace::Hsl,
    ColorSpace::Hwb,
    ColorSpace::Lab,
    ColorSpace::Lch,
    ColorSpace::SrgbLinear,
    ColorSpace::XyzD50,
    ColorSpace::XyzD65,
];

#[test]
fn each_step_reads_and_writes_the_spaces_it_is_named_by() {
    assert_eq!(Step::SrgbToHsl.source(), ColorSpace::Srgb);
    assert_eq!(Step::SrgbToHsl.target(), ColorSpace::Hsl);
    assert_eq!(Step::HwbToSrgb.source(), ColorSpace::Hwb);
    assert_eq!(Step::HwbToSrgb.target(), ColorSpace::Srgb);
    assert_eq!(Step::OklchToOklab.source(), ColorSpace::Oklch);
    assert_eq!(Step::OklchToOklab.target(), ColorSpace::Oklab);
    assert_eq!(Step::SrgbToSrgbLinear.source(), ColorSpace::Srgb);
    assert_eq!(Step::SrgbToSrgbLinear.target(), ColorSpace::SrgbLinear);
    assert_eq!(Step::SrgbLinearToXyzD65.target(), ColorSpace::XyzD65);
    assert_eq!(Step::XyzD65ToXyzD50.target(), ColorSpace::XyzD50);
    assert_eq!(Step::XyzD50ToLab.source(), ColorSpace::XyzD50);
    assert_eq!(Step::XyzD50ToLab.target(), ColorSpace::Lab);
}

#[test]
fn a_step_and_its_inverse_swap_source_and_target() {
    for step in STEPS {
        let back = step.inverse();
        assert_ne!(back, step);
        assert_eq!(back.inverse(), step);
        assert_eq!(back.source(), step.target());
        assert_eq!(back.target(), step.source());
        assert_eq!(back.lineage(), step.lineage());
        assert_ne!(step.source(), step.target());
    }
}

#[test]
fn lineage_of_each_step() {
    for step in [Step::SrgbToHsl, Step::HslToSrgb, Step::SrgbToHwb, Step::HwbToSrgb] {
        assert_eq!(step.lineage(), Lineage::Mixed);
    }
    for step in [Step::LchToLab, Step::LabToLch, Step::OklchToOklab, Step::OklabToOklch] {
        assert_eq!(step.lineage(), Lineage::Planar);
    }
    for step in [
        Step::SrgbToSrgbLinear,
        Step::SrgbLinearToSrgb,
        Step::SrgbLinearToXyzD65,
        Step::XyzD65ToSrgbLinear,
        Step::XyzD65ToXyzD50,
        Step::XyzD50ToXyzD65,
        Step::LabToXyzD50,
        Step::XyzD50ToLab,
    ] {
        assert_eq!(step.lineage(), Lineage::Channelwise);
    }
}

#[test]
fn the_direct_table_holds_eight_pairs() {
    let expected = [
        (ColorSpace::Srgb, ColorSpace::Hsl, Step::SrgbToHsl),
        (ColorSpace::Hsl, ColorSpace::Srgb, Step::HslToSrgb),
        (ColorSpace::Srgb, ColorSpace::Hwb, Step::SrgbToHwb),
        (ColorSpace::Hwb, ColorSpace::Srgb, Step::HwbToSrgb),
        (ColorSpace::Lch, ColorSpace::Lab, Step::LchToLab),
        (ColorSpace::Lab, ColorSpace::Lch, Step::LabToLch),
        (ColorSpace::Oklch, ColorSpace::Oklab, Step::OklchToOklab),
        (ColorSpace::Oklab, ColorSpace::Oklch, Step::OklabToOklch),
    ];
    let mut found = 0;
    for source in ALL {
        for target in ALL {
            let step = direct_step(source, target);
            let wanted = expected
                .iter()
                .find(|(s, t, _)| *s == source && *t == target)
                .map(|(_, _, step)| *step);
            assert_eq!(step, wanted, "{:?} -> {:?}", source, target);
            if step.is_some() {
                found += 1;
            }
        }
    }
    assert_eq!(found, 8);
}

#[test]
fn chains_to_the_interchange_space() {
    assert_eq!(chain_to_interchange(ColorSpace::XyzD50), vec![]);
    assert_eq!(chain_to_interchange(ColorSpace::XyzD65), vec![Step::XyzD65ToXyzD50]);
    assert_eq!(chain_to_interchange(ColorSpace::Lab), vec![Step::LabToXyzD50]);
    assert_eq!(
        chain_to_interchange(ColorSpace::Lch),
        vec![Step::LchToLab, Step::LabToXyzD50]
    );
    assert_eq!(
        chain_to_interchange(ColorSpace::SrgbLinear),
        vec![Step::SrgbLinearToXyzD65, Step::XyzD65ToXyzD50]
    );
    assert_eq!(
        chain_to_interchange(ColorSpace::Srgb),
        vec![Step::SrgbToSrgbLinear, Step::SrgbLinearToXyzD65, Step::XyzD65ToXyzD50]
    );
    assert_eq!(
        chain_to_interchange(ColorSpace::Hsl),
        vec![
            Step::HslToSrgb,
            Step::SrgbToSrgbLinear,
            Step::SrgbLinearToXyzD65,
            Step::XyzD65ToXyzD50
        ]
    );
    assert_eq!(
        chain_to_interchange(ColorSpace::Hwb),
        vec![
            Step::HwbToSrgb,
            Step::SrgbToSrgbLinear,
            Step::SrgbLinearToXyzD65,
            Step::XyzD65ToXyzD50
        ]
    );
}

#[test]
fn spaces_without_a_chain() {
    for space in ALL {
        assert_eq!(has_chain(space), CHAINED.contains(&space), "{:?}", space);
        if !has_chain(space) {
            assert_eq!(step_toward_interchange(space), None);
            assert_eq!(chain_to_interchange(space), vec![]);
        }
    }
    assert_eq!(step_toward_interchange(ColorSpace::XyzD50), None);
    assert_eq!(step_toward_interchange(ColorSpace::Hsl), Some(Step::HslToSrgb));
}

#[test]
fn route_to_the_same_space_is_empty() {
    for space in ALL {
        assert_eq!(find_route(space, space), Some(vec![]));
    }
}

#[test]
fn route_of_a_direct_pair_is_its_one_step() {
    assert_eq!(find_route(ColorSpace::Srgb, ColorSpace::Hsl), Some(vec![Step::SrgbToHsl]));
    assert_eq!(find_route(ColorSpace::Hsl, ColorSpace::Srgb), Some(vec![Step::HslToSrgb]));
    assert_eq!(find_route(ColorSpace::Srgb, ColorSpace::Hwb), Some(vec![Step::SrgbToHwb]));
    assert_eq!(find_route(ColorSpace::Hwb, ColorSpace::Srgb), Some(vec![Step::HwbToSrgb]));
    assert_eq!(find_route(ColorSpace::Lch, ColorSpace::Lab), Some(vec![Step::LchToLab]));
    assert_eq!(find_route(ColorSpace::Lab, ColorSpace::Lch), Some(vec![Step::LabToLch]));
    assert_eq!(find_route(ColorSpace::Oklch, ColorSpace::Oklab), Some(vec![Step::OklchToOklab]));
    assert_eq!(find_route(ColorSpace::Oklab, ColorSpace::Oklch), Some(vec![Step::OklabToOklch]));
}

#[test]
fn route_through_the_interchange_space() {
    assert_eq!(
        find_route(ColorSpace::Srgb, ColorSpace::XyzD50),
        Some(vec![Step::SrgbToSrgbLinear, Step::SrgbLinearToXyzD65, Step::XyzD65ToXyzD50])
    );
    assert_eq!(
        find_route(ColorSpace::XyzD50, ColorSpace::Srgb),
        Some(vec![Step::XyzD50ToXyzD65, Step::XyzD65ToSrgbLinear, Step::SrgbLinearToSrgb])
    );
    assert_eq!(
        find_route(ColorSpace::Srgb, ColorSpace::Lab),
        Some(vec![
            Step::SrgbToSrgbLinear,
            Step::SrgbLinearToXyzD65,
            Step::XyzD65ToXyzD50,
            Step::XyzD50ToLab
        ])
    );
    assert_eq!(
        find_route(ColorSpace::Lch, ColorSpace::Hwb),
        Some(vec![
            Step::LchToLab,
            Step::LabToXyzD50,
            Step::XyzD50ToXyzD65,
            Step::XyzD65ToSrgbLinear,
            Step::SrgbLinearToSrgb,
            Step::SrgbToHwb
        ])
    );
    assert_eq!(
        find_route(ColorSpace::Hsl, ColorSpace::Hwb),
        Some(vec![
            Step::HslToSrgb,
            Step::SrgbToSrgbLinear,
            Step::SrgbLinearToXyzD65,
            Step::XyzD65ToXyzD50,
            Step::XyzD50ToXyzD65,
            Step::XyzD65ToSrgbLinear,
            Step::SrgbLinearToSrgb,
            Step::SrgbToHwb
        ])
    );
    // Linear-light sRGB is no direct neighbour of sRGB: the route pivots.
    assert_eq!(
        find_route(ColorSpace::Srgb, ColorSpace::SrgbLinear),
        Some(vec![
            Step::SrgbToSrgbLinear,
            Step::SrgbLinearToXyzD65,
            Step::XyzD65ToXyzD50,
            Step::XyzD50ToXyzD65,
            Step::XyzD65ToSrgbLinear
        ])
    );
    assert_eq!(
        find_route(ColorSpace::XyzD65, ColorSpace::XyzD50),
        Some(vec![Step::XyzD65ToXyzD50])
    );
}

#[test]
fn pivot_route_of_a_direct_pair_goes_the_long_way() {
    assert_eq!(
        find_pivot_route(ColorSpace::Srgb, ColorSpace::Hsl),
        Some(vec![
            Step::SrgbToSrgbLinear,
            Step::SrgbLinearToXyzD65,
            Step::XyzD65ToXyzD50,
            Step::XyzD50ToXyzD65,
            Step::XyzD65ToSrgbLinear,
            Step::SrgbLinearToSrgb,
            Step::SrgbToHsl
        ])
    );
    assert_eq!(
        find_pivot_route(ColorSpace::Lab, ColorSpace::Lch),
        Some(vec![Step::LabToXyzD50, Step::XyzD50ToLab, Step::LabToLch])
    );
    assert_eq!(find_pivot_route(ColorSpace::XyzD50, ColorSpace::XyzD50), Some(vec![]));
    assert_eq!(find_pivot_route(ColorSpace::Oklab, ColorSpace::Oklch), None);
}

#[test]
fn routes_exist_exactly_between_supported_pairs() {
    for source in ALL {
        for target in ALL {
            let supported = source == target
                || direct_step(source, target).is_some()
                || (CHAINED.contains(&source) && CHAINED.contains(&target));
            assert_eq!(
                find_route(source, target).is_some(),
                supported,
                "{:?} -> {:?}",
                source,
                target
            );
        }
    }
    assert_eq!(find_route(ColorSpace::Oklab, ColorSpace::Srgb), None);
    assert_eq!(find_route(ColorSpace::Srgb, ColorSpace::DisplayP3), None);
    assert_eq!(find_route(ColorSpace::Rec2020, ColorSpace::A98Rgb), None);
    assert_eq!(find_route(ColorSpace::Oklch, ColorSpace::Lch), None);
}

#[test]
fn every_route_leads_from_source_to_target() {
    for source in ALL {
        for target in ALL {
            if let Some(steps) = find_route(source, target) {
                assert!(steps.len() <= 8);
                assert_eq!(steps.is_empty(), source == target);
                let mut at = source;
                for step in steps {
                    assert_eq!(step.source(), at, "{:?} -> {:?}", source, target);
                    at = step.target();
                }
                assert_eq!(at, target, "{:?} -> {:?}", source, target);
            }
        }
    }
}

#[test]
fn the_route_back_is_the_route_walked_backwards() {
    for source in ALL {
        for target in ALL {
            let there = find_route(source, target);
            let back = find_route(target, source);
            assert_eq!(there.is_some(), back.is_some());
            if let (Some(there), Some(back)) = (there, back) {
                let reversed: Vec<Step> = there.iter().rev().map(|s| s.inverse()).collect();
                assert_eq!(back, reversed, "{:?} -> {:?}", source, target);
            }
        }
    }
}

#[test]
fn is_chain_accepts_every_route_and_refuses_broken_chains() {
    for source in ALL {
        for target in ALL {
            if let Some(steps) = find_route(source, target) {
                assert!(is_chain(&steps, source, target));
                if source != target {
                    assert!(!is_chain(&steps, target, source));
                    assert!(!is_chain(&steps, source, source));
                }
            }
        }
    }
    assert!(is_chain(&vec![], ColorSpace::Oklab, ColorSpace::Oklab));
    assert!(!is_chain(&vec![], ColorSpace::Oklab, ColorSpace::Oklch));
    // A gap in the middle: linear-light sRGB is skipped.
    let broken = vec![Step::HslToSrgb, Step::SrgbToSrgbLinear, Step::XyzD65ToXyzD50];
    assert!(!is_chain(&broken, ColorSpace::Hsl, ColorSpace::XyzD50));
    let mended = vec![
        Step::HslToSrgb,
        Step::SrgbToSrgbLinear,
        Step::SrgbLinearToXyzD65,
        Step::XyzD65ToXyzD50,
    ];
    assert!(is_chain(&mended, ColorSpace::Hsl, ColorSpace::XyzD50));
    // A chain may pass a space twice.
    let twice = vec![Step::SrgbToHsl, Step::HslToSrgb, Step::SrgbToHwb];
    assert!(is_chain(&twice, ColorSpace::Srgb, ColorSpace::Hwb));
}
