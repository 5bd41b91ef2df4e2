//! Windowing engine for virtual scrolling over a list with a uniform row
//! height.
//!
//! Only the rows that intersect the visible viewport are rendered; the
//! engine computes, from the scroll position, the viewport height, the row
//! height and the item count, which contiguous range of indices to render
//! and at which vertical offset to place it so that the scrollbar behaves
//! as if the whole list were present.
//!
//! All pixel quantities are whole numbers of pixels.

pub mod scroller;
pub mod window;
