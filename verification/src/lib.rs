//! Color manipulation: parsing hex strings and CSS color names, formatting as
//! hex, `rgb(..)`, `hsl(..)` and ANSI truecolor escapes, and exact integer color
//! operations (inversion, grayscale, complementary and triadic harmonies).
//!
//! Every operation states its result in its contract, over the mathematical
//! value of a color (`Color`'s view, an [`Rgb`] triple) and the specification
//! functions of the modules below; [`laws`] proves the properties that hold
//! across operations.

pub mod binary64;
pub mod color;
pub mod css;
pub mod css_order;
pub mod error;
pub mod hex;
pub mod hsl;
pub mod hsl_accuracy;
pub mod hsl_binary64;
pub mod laws;
pub mod text;

pub use color::{Color, Rgb};
pub use css::CSS_COLOR_COUNT;
pub use error::ColorError;
