//! The window calculator: a pure function from the four scroll inputs to
//! the content window that must be rendered.

use vstd::arithmetic::div_mod::{
    lemma_div_basics_1, lemma_div_by_multiple, lemma_div_is_ordered, lemma_div_pos_is_pos,
    lemma_fundamental_div_mod, lemma_fundamental_div_mod_converse, lemma_mod_bound,
};
use vstd::arithmetic::mul::{
    lemma_mul_inequality, lemma_mul_is_commutative, lemma_mul_is_distributive_add_other_way,
    lemma_mul_is_distributive_sub_other_way,
};
use vstd::prelude::*;

verus! {

/// The slice of the list to render and where to place it.
///
/// `start_index..end_index` is the contiguous range of item indices that
/// intersect the viewport, `start_y` is the vertical offset in pixels at
/// which the rendered block is placed inside the spacer, and
/// `total_height` is the height in pixels of the spacer itself, i.e. of
/// the whole list as if it were fully rendered.
#[derive(Clone, Copy, Debug, PartialEq, Eq, Structural)]
pub struct ContentWindow {
    /// First item index of the rendered range.
    pub start_index: usize,
    /// One past the last item index of the rendered range.
    pub end_index: usize,
    /// Vertical offset of the rendered block, in pixels.
    pub start_y: u64,
    /// Height of the full-list spacer, in pixels.
    pub total_height: u64,
}

/// Ceiling of `a / b`: the number of rows needed to cover `a` pixels when
/// each row is `b` pixels tall.
pub open spec fn spec_ceil_div(a: int, b: int) -> int {
    if a % b == 0 {
        a / b
    } else {
        a / b + 1
    }
}

/// First index of the window: the row under the top edge of the viewport,
/// moved up by `padding` extra rows, clamped into `0..=item_count`.
pub open spec fn spec_start_index(
    scroll_offset: int,
    row_height: int,
    padding: int,
    item_count: int,
) -> int {
    let raw = scroll_offset / row_height - padding;
    if raw < 0 {
        0
    } else if raw > item_count {
        item_count
    } else {
        raw
    }
}

/// Number of rendered rows: enough rows to cover the viewport plus
/// `padding` extra rows on each side, but never past the end of the list.
pub open spec fn spec_visible_count(
    scroll_offset: int,
    viewport_height: int,
    row_height: int,
    item_count: int,
    padding: int,
) -> int {
    let start = spec_start_index(scroll_offset, row_height, padding, item_count);
    let want = spec_ceil_div(viewport_height, row_height) + 2 * padding;
    let remaining = item_count - start;
    if want < remaining {
        want
    } else {
        remaining
    }
}

/// One past the last index of the window.
pub open spec fn spec_end_index(
    scroll_offset: int,
    viewport_height: int,
    row_height: int,
    item_count: int,
    padding: int,
) -> int {
    spec_start_index(scroll_offset, row_height, padding, item_count) + spec_visible_count(
        scroll_offset,
        viewport_height,
        row_height,
        item_count,
        padding,
    )
}

/// The whole window as one value: each field is given by its defining
/// spec function.  For inputs a [`compute`] caller can supply, every
/// field is within the range of its type, so the casts lose nothing.
pub open spec fn spec_window(
    scroll_offset: int,
    viewport_height: int,
    row_height: int,
    item_count: int,
    padding: int,
) -> ContentWindow {
    ContentWindow {
        start_index: spec_start_index(scroll_offset, row_height, padding, item_count) as usize,
        end_index: spec_end_index(
            scroll_offset,
            viewport_height,
            row_height,
            item_count,
            padding,
        ) as usize,
        start_y: (spec_start_index(scroll_offset, row_height, padding, item_count) * row_height)
            as u64,
        total_height: (item_count * row_height) as u64,
    }
}

/// Computes the content window for the given scroll position, viewport
/// height, row height and item count, with `padding` extra rows rendered
/// on each side of the strictly visible range.
///
/// The function is pure: the result is a function of the four inputs and
/// nothing else, as the exact postconditions state.
pub fn compute(
    scroll_offset: u64,
    viewport_height: u64,
    row_height: u64,
    item_count: usize,
    padding: usize,
) -> (w: ContentWindow)
    requires
        row_height > 0,
        item_count * row_height <= u64::MAX,
    ensures
        w.start_index == spec_start_index(
            scroll_offset as int,
            row_height as int,
            padding as int,
            item_count as int,
        ),
        w.end_index == spec_end_index(
            scroll_offset as int,
            viewport_height as int,
            row_height as int,
            item_count as int,
            padding as int,
        ),
        w.start_y == w.start_index * row_height,
        w.total_height == item_count * row_height,
        0 <= w.start_index <= w.end_index <= item_count,
        w == spec_window(
            scroll_offset as int,
            viewport_height as int,
            row_height as int,
            item_count as int,
            padding as int,
        ),
{
    let raw_rows: u64 = scroll_offset / row_height;
    let padded: u64 = if raw_rows >= padding as u64 {
        raw_rows - padding as u64
    } else {
        0
    };
    let start_index: usize = if padded >= item_count as u64 {
        item_count
    } else {
        padded as usize
    };
    let remaining: usize = item_count - start_index;

    let full_rows: u64 = viewport_height / row_height;
    let visible: usize = if full_rows >= remaining as u64 {
        remaining
    } else {
        // Here ceil(viewport_height / row_height) <= remaining <= usize::MAX.
        let ceil_rows: usize = if viewport_height % row_height == 0 {
            full_rows as usize
        } else {
            (full_rows as usize) + 1
        };
        if ceil_rows >= remaining {
            remaining
        } else {
            let slack: usize = remaining - ceil_rows;
            if padding >= slack / 2 + slack % 2 {
                remaining
            } else {
                ceil_rows + 2 * padding
            }
        }
    };
    let end_index: usize = start_index + visible;

    proof {
        lemma_mul_inequality(start_index as int, item_count as int, row_height as int);
    }
    let start_y: u64 = (start_index as u64) * row_height;
    let total_height: u64 = (item_count as u64) * row_height;

    ContentWindow { start_index, end_index, start_y, total_height }
}

/// The computation is a pure function of its inputs: two windows whose
/// fields satisfy the postconditions of [`compute`] for the same inputs
/// are identical.
pub proof fn lemma_window_deterministic(
    a: ContentWindow,
    b: ContentWindow,
    scroll_offset: int,
    viewport_height: int,
    row_height: int,
    item_count: int,
    padding: int,
)
    requires
        a.start_index == spec_start_index(scroll_offset, row_height, padding, item_count),
        a.end_index == spec_end_index(
            scroll_offset,
            viewport_height,
            row_height,
            item_count,
            padding,
        ),
        a.start_y == a.start_index * row_height,
        a.total_height == item_count * row_height,
        b.start_index == spec_start_index(scroll_offset, row_height, padding, item_count),
        b.end_index == spec_end_index(
            scroll_offset,
            viewport_height,
            row_height,
            item_count,
            padding,
        ),
        b.start_y == b.start_index * row_height,
        b.total_height == item_count * row_height,
    ensures
        a == b,
{
}

/// Increasing the scroll offset while holding the other inputs fixed
/// never decreases the start of the window.
pub proof fn lemma_start_index_monotonic(
    scroll_a: int,
    scroll_b: int,
    row_height: int,
    padding: int,
    item_count: int,
)
    requires
        row_height > 0,
        item_count >= 0,
        0 <= scroll_a <= scroll_b,
    ensures
        spec_start_index(scroll_a, row_height, padding, item_count) <= spec_start_index(
            scroll_b,
            row_height,
            padding,
            item_count,
        ),
{
    lemma_div_is_ordered(scroll_a, scroll_b, row_height);
}

/// At scroll offset zero the window starts at the very first item.
pub proof fn lemma_zero_scroll_starts_at_zero(row_height: int, padding: int, item_count: int)
    requires
        row_height > 0,
        padding >= 0,
        item_count >= 0,
    ensures
        spec_start_index(0, row_height, padding, item_count) == 0,
{
    lemma_div_basics_1(row_height);
}

/// At maximal scroll (the full content height minus the viewport height,
/// or zero when the list is shorter than the viewport) the window reaches
/// the very end of the list.
pub proof fn lemma_max_scroll_reaches_end(
    viewport_height: int,
    row_height: int,
    item_count: int,
    padding: int,
)
    requires
        row_height > 0,
        viewport_height >= 0,
        item_count >= 0,
        padding >= 0,
    ensures
        ({
            let total = item_count * row_height;
            let max_scroll = if total > viewport_height {
                total - viewport_height
            } else {
                0
            };
            spec_end_index(max_scroll, viewport_height, row_height, item_count, padding)
                == item_count
        }),
{
    let n = item_count;
    let rh = row_height;
    let vh = viewport_height;
    let total = n * rh;
    let c = spec_ceil_div(vh, rh);
    lemma_div_pos_is_pos(vh, rh);
    lemma_fundamental_div_mod(vh, rh);
    lemma_mod_bound(vh, rh);
    assert((vh / rh + 1) * rh == (vh / rh) * rh + rh) by {
        lemma_mul_is_distributive_add_other_way(rh, vh / rh, 1);
    }
    assert((vh / rh) * rh == rh * (vh / rh)) by {
        lemma_mul_is_commutative(vh / rh, rh);
    }
    assert(vh <= c * rh < vh + rh);
    if total > vh {
        let s = total - vh;
        assert((n - c) * rh == n * rh - c * rh) by {
            lemma_mul_is_distributive_sub_other_way(rh, n, c);
        }
        lemma_fundamental_div_mod_converse(s, rh, n - c, c * rh - vh);
        assert(s / rh == n - c);
    } else {
        lemma_div_basics_1(rh);
        lemma_div_is_ordered(total, vh, rh);
        lemma_div_by_multiple(n, rh);
        assert(n <= vh / rh);
    }
}

/// While the viewport is unmeasured (height zero) and no padding rows are
/// requested, nothing is rendered, whatever the scroll offset and the
/// item count.
pub proof fn lemma_zero_viewport_renders_nothing(
    scroll_offset: int,
    row_height: int,
    item_count: int,
)
    requires
        row_height > 0,
        item_count >= 0,
    ensures
        spec_visible_count(scroll_offset, 0, row_height, item_count, 0) == 0,
{
    lemma_div_basics_1(row_height);
    lemma_fundamental_div_mod(0, row_height);
}

/// An empty list yields the empty window at the top of the container,
/// whatever the other inputs.
pub proof fn lemma_empty_list_empty_window(
    scroll_offset: int,
    viewport_height: int,
    row_height: int,
    padding: int,
)
    requires
        row_height > 0,
        viewport_height >= 0,
        padding >= 0,
    ensures
        spec_start_index(scroll_offset, row_height, padding, 0) == 0,
        spec_end_index(scroll_offset, viewport_height, row_height, 0, padding) == 0,
{
    lemma_div_pos_is_pos(viewport_height, row_height);
}

} // verus!
