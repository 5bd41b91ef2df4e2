//! The scroll container's state machine: the decision the container
//! makes on each scroll, resize or property-change event, and the state
//! it keeps between events.
//!
//! The host (the rendering framework glue) owns the item list and the
//! scrollable element; it reads measurements from the element and hands
//! them to [`VirtualScroller::step`] as plain values, then renders the
//! slice that [`VirtualScroller::visible_range`] describes whenever
//! `step` asks for a re-render.

use crate::window::{compute, spec_window, ContentWindow};
use vstd::prelude::*;

verus! {

/// An event delivered to the container by its host.
pub enum Event {
    /// The container was scrolled; the payload is the new scroll offset
    /// in pixels from the top.
    Scroll {
        /// The element's current scroll distance from the top, in pixels.
        scroll_offset: u64,
    },
    /// The size observer reported the container's rendered height.
    Resize {
        /// The measured viewport height in pixels.
        viewport_height: u64,
    },
    /// The caller replaced the container's properties.
    PropsChanged {
        /// Length of the (possibly new) item list.
        item_count: usize,
        /// Height of one row in pixels; must be positive.
        row_height: u64,
        /// Whether the item list itself differs from the previous one,
        /// by reference or by equality.
        items_changed: bool,
        /// Whether cosmetic attributes (styling and the like) differ.
        /// Cosmetics never affect the windowing.
        cosmetic_changed: bool,
    },
}

/// The container's state: its current inputs and the window computed
/// from them.
///
/// The state is *Unmeasured* while `viewport_height` is `None`: no
/// window has been computed, and only the spacer (see
/// [`Self::total_height`]) is rendered.  The first `Resize` event moves
/// it to *Windowed*, where `content_window` always holds the window of
/// the current inputs.
pub struct VirtualScroller {
    /// Height of one row in pixels; positive.
    pub row_height: u64,
    /// Number of items in the caller's list.  The list itself stays with
    /// the caller; the engine only needs its length.
    pub item_count: usize,
    /// Extra rows rendered above and below the strictly visible range.
    pub padding: usize,
    /// The last measured viewport height; `None` while unmeasured.
    pub viewport_height: Option<u64>,
    /// The current scroll offset in pixels from the top.
    pub scroll_offset: u64,
    /// The window computed from the current inputs; `None` while
    /// unmeasured.
    pub content_window: Option<ContentWindow>,
}

impl VirtualScroller {
    /// Well-formedness: the row height is positive, the total content
    /// height fits the pixel type, and the stored window is exactly the
    /// one the current inputs give — present if and only if the viewport
    /// has been measured, and always within the bounds of the list.
    pub open spec fn wf(self) -> bool {
        &&& self.row_height > 0
        &&& self.item_count * self.row_height <= u64::MAX
        &&& match self.viewport_height {
            Some(vh) => self.content_window == Some(
                spec_window(
                    self.scroll_offset as int,
                    vh as int,
                    self.row_height as int,
                    self.item_count as int,
                    self.padding as int,
                ),
            ),
            None => self.content_window is None,
        }
        &&& match self.content_window {
            Some(w) => w.start_index <= w.end_index <= self.item_count,
            None => true,
        }
    }

    /// What an event must satisfy to be delivered: new properties must
    /// keep the row height positive and the content height within the
    /// pixel type, and an unchanged list keeps its length.
    pub open spec fn event_valid(self, e: Event) -> bool {
        match e {
            Event::Scroll { .. } => true,
            Event::Resize { .. } => true,
            Event::PropsChanged { item_count, row_height, items_changed, .. } => {
                &&& row_height > 0
                &&& item_count * row_height <= u64::MAX
                &&& !items_changed ==> item_count == self.item_count
            },
        }
    }

    /// A fresh, unmeasured container for a list of `item_count` rows of
    /// `row_height` pixels each, with `padding` extra rows rendered on
    /// each side of the visible range.
    pub fn new(item_count: usize, row_height: u64, padding: usize) -> (s: Self)
        requires
            row_height > 0,
            item_count * row_height <= u64::MAX,
        ensures
            s.wf(),
            s.item_count == item_count,
            s.row_height == row_height,
            s.padding == padding,
            s.scroll_offset == 0,
            s.viewport_height is None,
            s.content_window is None,
    {
        VirtualScroller {
            row_height,
            item_count,
            padding,
            viewport_height: None,
            scroll_offset: 0,
            content_window: None,
        }
    }

    /// Recomputes the stored window from the current inputs; clears it
    /// while the viewport is unmeasured.
    fn recompute(&mut self)
        requires
            old(self).row_height > 0,
            old(self).item_count * old(self).row_height <= u64::MAX,
        ensures
            final(self).row_height == old(self).row_height,
            final(self).item_count == old(self).item_count,
            final(self).padding == old(self).padding,
            final(self).viewport_height == old(self).viewport_height,
            final(self).scroll_offset == old(self).scroll_offset,
            final(self).wf(),
    {
        match self.viewport_height {
            Some(vh) => {
                let w = compute(
                    self.scroll_offset,
                    vh,
                    self.row_height,
                    self.item_count,
                    self.padding,
                );
                self.content_window = Some(w);
            },
            None => {
                self.content_window = None;
            },
        }
    }

    /// Processes one event and says whether the host must re-render.
    ///
    /// - A scroll stores the new offset and recomputes the window; the
    ///   host re-renders only if the window actually changed.
    /// - A resize stores the measurement (the first one moves the
    ///   container from *Unmeasured* to *Windowed*), recomputes, and
    ///   always re-renders.
    /// - A property change recomputes only when the item list or the row
    ///   height differs from the previous value; when only cosmetics
    ///   differ the window is kept and the host re-renders with the new
    ///   cosmetics; when nothing differs, nothing happens.
    pub fn step(&mut self, e: Event) -> (rerender: bool)
        requires
            old(self).wf(),
            old(self).event_valid(e),
        ensures
            final(self).wf(),
            final(self).padding == old(self).padding,
            match e {
                Event::Scroll { scroll_offset } => {
                    &&& final(self).scroll_offset == scroll_offset
                    &&& final(self).row_height == old(self).row_height
                    &&& final(self).item_count == old(self).item_count
                    &&& final(self).viewport_height == old(self).viewport_height
                    &&& rerender == (final(self).content_window != old(self).content_window)
                },
                Event::Resize { viewport_height } => {
                    &&& final(self).viewport_height == Some(viewport_height)
                    &&& final(self).scroll_offset == old(self).scroll_offset
                    &&& final(self).row_height == old(self).row_height
                    &&& final(self).item_count == old(self).item_count
                    &&& rerender == true
                },
                Event::PropsChanged { item_count, row_height, items_changed, cosmetic_changed } => {
                    if items_changed || row_height != old(self).row_height {
                        &&& final(self).item_count == item_count
                        &&& final(self).row_height == row_height
                        &&& final(self).scroll_offset == old(self).scroll_offset
                        &&& final(self).viewport_height == old(self).viewport_height
                        &&& rerender == true
                    } else {
                        &&& *final(self) == *old(self)
                        &&& rerender == cosmetic_changed
                    }
                },
            },
    {
        match e {
            Event::Scroll { scroll_offset } => {
                let prev = self.content_window;
                self.scroll_offset = scroll_offset;
                self.recompute();
                match (prev, self.content_window) {
                    (Some(a), Some(b)) => a != b,
                    (None, None) => false,
                    _ => true,
                }
            },
            Event::Resize { viewport_height } => {
                self.viewport_height = Some(viewport_height);
                self.recompute();
                true
            },
            Event::PropsChanged { item_count, row_height, items_changed, cosmetic_changed } => {
                if items_changed || row_height != self.row_height {
                    self.item_count = item_count;
                    self.row_height = row_height;
                    self.recompute();
                    true
                } else {
                    cosmetic_changed
                }
            },
        }
    }

    /// Height in pixels of the spacer that stands for the whole list, so
    /// the native scrollbar keeps its true proportions.  Meaningful in
    /// every state, measured or not.
    pub fn total_height(&self) -> (h: u64)
        requires
            self.wf(),
        ensures
            h == self.item_count * self.row_height,
    {
        (self.item_count as u64) * self.row_height
    }

    /// The bounds of the slice to render: `start..end` over the caller's
    /// list, always within the list, and empty while the viewport is
    /// unmeasured.
    pub fn visible_range(&self) -> (r: (usize, usize))
        requires
            self.wf(),
        ensures
            match self.content_window {
                Some(w) => r.0 == w.start_index && r.1 == w.end_index,
                None => r.0 == 0 && r.1 == 0,
            },
            r.0 <= r.1 <= self.item_count,
    {
        match self.content_window {
            Some(w) => (w.start_index, w.end_index),
            None => (0, 0),
        }
    }
}

} // verus!
