//! Target dimensions for an image resize: an overflow-safe `floor(a * b / c)`
//! on `u32`, and the resolver that fills in a missing dimension from the
//! input's aspect ratio.
pub mod overflow_ops;
pub mod resizer;

pub use overflow_ops::add_div;
pub use overflow_ops::mul_div;
pub use overflow_ops::mul_div3;
pub use overflow_ops::mul_div_small;
pub use resizer::ImageOutDim;
pub use resizer::ImageResizeParams;
pub use resizer::ImageUnit;
pub use resizer::ParamsError;
pub use resizer::ResizeError;
pub use resizer::UnitError;
