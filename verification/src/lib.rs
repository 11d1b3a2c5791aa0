//! Conversion of colour values between the colour spaces of web styling.
//!
//! The crate holds everything about a conversion that is not arithmetic on
//! real numbers: the space tags and their families, the set of channels that
//! are marked as unspecified, the typed models, the route between two spaces
//! and the way the unspecified marks travel along it. Channel values are
//! carried as IEEE-754 binary32 bit patterns and are never interpreted here;
//! the arithmetic of each primitive transform is a kernel that the caller
//! hands to the engine.

pub mod color;
pub mod convert;
pub mod exact;
pub mod flags;
pub mod model;
pub mod route;
pub mod space;
pub mod step;

pub use color::Color;
pub use color::ComponentDetails;
pub use color::Components;
pub use flags::ColorFlags;
pub use model::ColorSpaceModel;
pub use model::Hsl;
pub use model::Hwb;
pub use model::Lab;
pub use model::Lch;
pub use model::Srgb;
pub use model::SrgbLinear;
pub use model::WhitePoint;
pub use model::XyzD50;
pub use model::XyzD65;
pub use model::D50;
pub use model::D65;
pub use space::ColorSpace;
pub use step::Lineage;
pub use step::Step;
