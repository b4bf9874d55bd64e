/// The `graphicx` package and image elements.
pub mod graphicx;
/// Mathematical symbols and equation environments.
pub mod math;
/// Tables built on the `tabular` environments.
pub mod tables;
