//! The engine with a kernel in which every step is undone exactly by its
//! inverse.

use colorspace::route::direct_step;
use colorspace::route::find_pivot_route;
use colorspace::route::find_route;
use colorspace::Color;
use colorspace::ColorFlags;
use colorspace::ColorSpace;
use colorspace::Step;

const ALL: [ColorSpace; 14] = [
    ColorSpace::Srgb,
    ColorSpace::Hsl,
    ColorSpace::Hwb,
    ColorSpace::Lab,
    ColorSpace::Lch,
    ColorSpace::Oklab,
    ColorSpace::Oklch,
    ColorSpace::SrgbLinear,
    ColorSpace::DisplayP3,
    ColorSpace::A98Rgb,
    ColorSpace::ProphotoRgb,
    ColorSpace::Rec2020,
    ColorSpace::XyzD50,
    ColorSpace::XyzD65,
];

/// Each step rotates the three values and adds a number of its own to each;
/// its inverse subtracts that number and rotates back.
fn exact_kernel(step: Step, v: [u32; 3]) -> [u32; 3] {
    let there = |n: u32| [v[1].wrapping_add(n), v[2].wrapping_add(n), v[0].wrapping_add(n)];
    let back = |n: u32| [v[2].wrapping_sub(n), v[0].wrapping_sub(n), v[1].wrapping_sub(n)];
    match step {
        Step::SrgbToHsl => there(1),
        Step::HslToSrgb => back(1),
        Step::SrgbToHwb => there(2),
        Step::HwbToSrgb => back(2),
        Step::LchToLab => there(3),
        Step::LabToLch => back(3),
        Step::OklchToOklab => there(4),
        Step::OklabToOklch => back(4),
        Step::SrgbToSrgbLinear => there(5),
        Step::SrgbLinearToSrgb => back(5),
        Step::SrgbLinearToXyzD65 => there(6),
        Step::XyzD65ToSrgbLinear => back(6),
        Step::XyzD65ToXyzD50 => there(7),
        Step::XyzD50ToXyzD65 => back(7),
        Step::LabToXyzD50 => there(8),
        Step::XyzD50ToLab => back(8),
    }
}

#[test]
fn the_kernel_of_these_tests_is_exact() {
    let steps = find_route(ColorSpace::Hsl, ColorSpace::Lch).expect("supported");
    let v = [100, 200, 300];
    for step in steps {
        assert_ne!(exact_kernel(step, v), v);
        assert_eq!(exact_kernel(step.inverse(), exact_kernel(step, v)), v);
        assert_eq!(exact_kernel(step, exact_kernel(step.inverse(), v)), v);
    }
}

#[test]
fn there_and_back_is_the_same_color_with_an_exact_kernel() {
    for source in ALL {
        for target in ALL {
            for alpha_is_none in [false, true] {
                let flags = ColorFlags::from_marks(false, false, false, alpha_is_none);
                let from =
                    Color { components: [100, 200, 300], flags, color_space: source, alpha: 7 };
                let Some(there) = from.to_color_space(target, exact_kernel) else {
                    assert_eq!(find_route(target, source), None);
                    continue;
                };
                let back = there.to_color_space(source, exact_kernel).expect("supported");
                assert_eq!(back, from, "{:?} -> {:?}", source, target);
            }
        }
    }
}

#[test]
fn there_and_back_is_the_same_color_with_no_component_specified() {
    for source in ALL {
        for target in ALL {
            for from in [
                Color::new(source, None, None, None, 7u32),
                Color::new(source, None, None, None, None),
            ] {
                if let Some(there) = from.to_color_space(target, exact_kernel) {
                    let back = there.to_color_space(source, exact_kernel).expect("supported");
                    assert_eq!(back, from, "{:?} -> {:?}", source, target);
                }
            }
        }
    }
}

#[test]
fn there_and_back_may_lose_the_mark_of_a_single_component() {
    // Red alone is unspecified: hue, saturation and lightness are all
    // specified, and so are red, green and blue on the way back.
    let from = Color::new(ColorSpace::Srgb, None, 200u32, 300u32, 7u32);
    let there = from.to_color_space(ColorSpace::Hsl, exact_kernel).expect("supported");
    assert!(there.flags.is_empty());
    let back = there.to_color_space(ColorSpace::Srgb, exact_kernel).expect("supported");
    assert!(back.flags.is_empty());
    assert_eq!(back.components, from.components);
    assert_ne!(back, from);
}

#[test]
fn there_is_somewhere_else_with_an_exact_kernel() {
    let from = Color::new(ColorSpace::Srgb, 100u32, 200u32, 300u32, 7u32);
    let there = from.to_color_space(ColorSpace::Lab, exact_kernel).expect("supported");
    // Four steps there: +5, +6, +7 and -8, each behind a rotation.
    assert_eq!(there.components, [310, 110, 210]);
    let there = from.to_color_space(ColorSpace::Hsl, exact_kernel).expect("supported");
    assert_eq!(there.components, [201, 301, 101]);
}

#[test]
fn direct_and_pivoted_conversions_are_equal_with_an_exact_kernel() {
    let mut pairs = 0;
    for source in ALL {
        for target in ALL {
            if direct_step(source, target).is_none() {
                continue;
            }
            let Some(long) = find_pivot_route(source, target) else {
                continue;
            };
            pairs += 1;
            for byte in 0..=15u8 {
                let flags = ColorFlags::from_bits(byte).expect("four low bits");
                let from =
                    Color { components: [100, 200, 300], flags, color_space: source, alpha: 7 };
                let by_direct = from.to_color_space(target, exact_kernel).expect("supported");
                let by_pivot = from.convert_along(&long, target, exact_kernel);
                assert_eq!(by_pivot, by_direct, "{:?} -> {:?}", source, target);
            }
        }
    }
    assert_eq!(pairs, 6);
}
