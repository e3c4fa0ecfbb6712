//! Two small building blocks: a rectangle with integer sides, and the leading
//! word of a text.

pub mod rectangle;
pub mod text;

pub use rectangle::Rectangle;
pub use text::first_word;
