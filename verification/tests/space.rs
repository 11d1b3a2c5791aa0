use colorspace::ColorSpace;

const ALL: [ColorSpace; 14] = [
    ColorSpace::Srgb,
    ColorSpace::Hsl,
    ColorSpace::Hwb,
    ColorSpace::Lab,
    ColorSpace::Lch,
    ColorSpace::Oklab,
    ColorSpace::Oklch,
    ColorSpace::SrgbLinear,
    ColorSpace::DisplayP3,
    ColorSpace::A98Rgb,
    ColorSpace::ProphotoRgb,
    ColorSpace::Rec2020,
    ColorSpace::XyzD50,
    ColorSpace::XyzD65,
];

#[test]
fn rgb_like_spaces_are_the_five_gamma_encoded_rgb_spaces() {
    let expected = [
        ColorSpace::Srgb,
        ColorSpace::DisplayP3,
        ColorSpace::A98Rgb,
        ColorSpace::ProphotoRgb,
        ColorSpace::Rec2020,
    ];
    for space in ALL {
        assert_eq!(space.is_rgb_like(), expected.contains(&space), "{:?}", space);
    }
    assert!(!ColorSpace::SrgbLinear.is_rgb_like());
}

#[test]
fn rectangular_orthogonal_spaces_are_lab_and_oklab() {
    for space in ALL {
        assert_eq!(
            space.is_rectangular_orthogonal(),
            space == ColorSpace::Lab || space == ColorSpace::Oklab,
            "{:?}",
            space
        );
    }
}

#[test]
fn cylindrical_polar_spaces_are_lch_and_oklch() {
    for space in ALL {
        assert_eq!(
            space.is_cylindrical_polar(),
            space == ColorSpace::Lch || space == ColorSpace::Oklch,
            "{:?}",
            space
        );
    }
}

#[test]
fn exactly_two_spaces_are_xyz_like() {
    let mut count = 0;
    for space in ALL {
        if space.is_xyz_like() {
            count += 1;
        }
    }
    assert_eq!(count, 2);
    assert!(ColorSpace::XyzD50.is_xyz_like());
    assert!(ColorSpace::XyzD65.is_xyz_like());
}

#[test]
fn a_space_belongs_to_at_most_one_family() {
    for space in ALL {
        let families = [
            space.is_rgb_like(),
            space.is_rectangular_orthogonal(),
            space.is_cylindrical_polar(),
            space.is_xyz_like(),
        ];
        let count = families.iter().filter(|f| **f).count();
        assert!(count <= 1, "{:?}", space);
    }
    // Hue-based sRGB notations and linear-light sRGB belong to none.
    for space in [ColorSpace::Hsl, ColorSpace::Hwb, ColorSpace::SrgbLinear] {
        assert!(!space.is_rgb_like());
        assert!(!space.is_rectangular_orthogonal());
        assert!(!space.is_cylindrical_polar());
        assert!(!space.is_xyz_like());
    }
}
