//! Which conversation blocks are visible in the message area, and where.
use vstd::prelude::*;

use crate::app::App;
use crate::geometry::Rect;
use crate::messages::{
    lemma_output_rows_monotone, message_texts_fit, output_rows, spec_message_height, trunc_u16,
    utf8_len, wrapped_line_count, MessageBlock, TOOL_MAX_OUTPUT_LINES,
};

verus! {

/// Where a block is drawn: the screen rectangle it shows in, how many of its
/// rows are scrolled off above, and its full height.
#[derive(Clone, Copy, Debug, PartialEq, Eq, Structural)]
pub struct Placement {
    pub index: usize,
    pub dest: Rect,
    pub clip_top: u16,
    pub height: u16,
}

/// The total height of the first `n` blocks.
pub open spec fn sum_heights(h: Seq<u16>, n: int) -> int
    decreases n,
{
    if n <= 0 {
        0
    } else {
        sum_heights(h, n - 1) + h[n - 1]
    }
}

/// The total height of all blocks.
pub open spec fn total_height(h: Seq<u16>) -> int {
    sum_heights(h, h.len() as int)
}

/// The scroll position clamped so that the view does not scroll past the last
/// block: at most the total height minus the view height.
pub open spec fn clamp_scroll(h: Seq<u16>, scroll: u16, view_height: u16) -> int {
    let max_scroll = if total_height(h) >= view_height {
        total_height(h) - view_height
    } else {
        0
    };
    if scroll <= max_scroll {
        scroll as int
    } else {
        max_scroll
    }
}

/// Where block `i` is drawn when the view is scrolled by `scroll` rows, if it is
/// visible at all: its top is `scroll` rows above its position in the
/// conversation, and the part inside the view is shown.
pub open spec fn placement_of(h: Seq<u16>, scroll: int, view: Rect, width: u16, i: int) -> Option<
    Placement,
> {
    let top = sum_heights(h, i) - scroll;
    let bottom = top + h[i];
    if bottom <= 0 || top >= view.height {
        None
    } else {
        let clip = if top < 0 {
            -top
        } else {
            0
        };
        let vis_top = if top < 0 {
            0
        } else {
            top
        };
        let vis = if h[i] - clip <= view.height - vis_top {
            h[i] - clip
        } else {
            view.height - vis_top
        };
        if vis == 0 {
            None
        } else {
            Some(
                Placement {
                    index: i as usize,
                    dest: Rect::spec_new(view.x, (view.y + vis_top) as u16, width, vis as u16),
                    clip_top: clip as u16,
                    height: h[i],
                },
            )
        }
    }
}

/// The placements of the visible blocks among the first `n`, in order.
pub open spec fn placements(h: Seq<u16>, scroll: int, view: Rect, width: u16, n: int) -> Seq<
    Placement,
>
    decreases n,
{
    if n <= 0 {
        Seq::empty()
    } else {
        let rest = placements(h, scroll, view, width, n - 1);
        match placement_of(h, scroll, view, width, n - 1) {
            Some(p) => rest.push(p),
            None => rest,
        }
    }
}

/// Heights add up monotonically.
pub proof fn lemma_sum_heights_monotone(h: Seq<u16>, i: int, j: int)
    requires
        0 <= i <= j <= h.len(),
    ensures
        0 <= sum_heights(h, i) <= sum_heights(h, j),
    decreases j,
{
    if j > 0 {
        if i < j {
            lemma_sum_heights_monotone(h, i, j - 1);
        } else {
            lemma_sum_heights_monotone(h, j - 1, j - 1);
        }
    }
}

/// Once a block starts below the view, so do all later blocks.
proof fn lemma_below_view_stays(h: Seq<u16>, scroll: int, view: Rect, width: u16, i: int, n: int)
    requires
        0 <= i <= n <= h.len(),
        i < h.len(),
        sum_heights(h, i) - scroll >= view.height,
    ensures
        placements(h, scroll, view, width, n) == placements(h, scroll, view, width, i),
    decreases n,
{
    if n > i {
        lemma_below_view_stays(h, scroll, view, width, i, n - 1);
        lemma_sum_heights_monotone(h, i, n - 1);
    }
}

/// The clamped scroll position and the placements of the visible blocks, for
/// blocks of heights `heights` shown in `view` at `width` columns.
pub fn place_blocks(heights: &Vec<u16>, scroll_offset: u16, view: Rect, width: u16) -> (r: (
    u16,
    Vec<Placement>,
))
    requires
        total_height(heights@) <= u16::MAX,
    ensures
        r.0 == clamp_scroll(heights@, scroll_offset, view.height),
        r.1@ == placements(heights@, r.0 as int, view, width, heights@.len() as int),
{
    let n = heights.len();
    let mut total: u16 = 0;
    let mut i: usize = 0;
    while i < n
        invariant
            i <= n == heights@.len(),
            total_height(heights@) <= u16::MAX,
            total == sum_heights(heights@, i as int),
        decreases n - i,
    {
        proof {
            lemma_sum_heights_monotone(heights@, i + 1, n as int);
        }
        total = total + heights[i];
        i = i + 1;
    }
    let max_scroll = total.saturating_sub(view.height);
    let scroll = if scroll_offset < max_scroll {
        scroll_offset
    } else {
        max_scroll
    };
    let mut out: Vec<Placement> = Vec::new();
    let mut y_cursor: i32 = -(scroll as i32);
    let mut i: usize = 0;
    while i < n
        invariant_except_break
            i <= n == heights@.len(),
            total_height(heights@) <= u16::MAX,
            scroll <= total,
            total == total_height(heights@),
            y_cursor == sum_heights(heights@, i as int) - scroll,
            out@ == placements(heights@, scroll as int, view, width, i as int),
        ensures
            out@ == placements(heights@, scroll as int, view, width, n as int),
        decreases n - i,
    {
        proof {
            lemma_sum_heights_monotone(heights@, i + 1, n as int);
        }
        let h = heights[i];
        let block_top = y_cursor;
        let block_bottom = y_cursor + h as i32;
        if block_bottom <= 0 {
            y_cursor = y_cursor + h as i32;
            i = i + 1;
            continue;
        }
        if block_top >= view.height as i32 {
            proof {
                lemma_below_view_stays(heights@, scroll as int, view, width, i as int, n as int);
            }
            break;
        }
        let clip_top: u16 = if block_top < 0 {
            (-block_top) as u16
        } else {
            0
        };
        let vis_top: i32 = if block_top < 0 {
            0
        } else {
            block_top
        };
        let viewport_y = view.y as i32 + vis_top;
        let below = (view.height as i32 - vis_top) as u16;
        let visible_h = if h - clip_top <= below {
            h - clip_top
        } else {
            below
        };
        if visible_h == 0 {
            y_cursor = y_cursor + h as i32;
            i = i + 1;
            continue;
        }
        let dest = Rect::new(view.x, viewport_y as u16, width, visible_h);
        out.push(Placement { index: i, dest, clip_top, height: h });
        y_cursor = y_cursor + h as i32;
        i = i + 1;
    }
    (scroll, out)
}

/// The heights of the blocks at `width`, or `None` when a block or their total
/// does not fit in `u16`.
pub fn block_heights(messages: &Vec<MessageBlock>, width: u16) -> (r: Option<Vec<u16>>)
    requires
        forall|i: int| 0 <= i < messages@.len() ==> message_texts_fit(#[trigger] messages@[i]),
    ensures
        match r {
            Some(h) => {
                &&& h@.len() == messages@.len()
                &&& forall|i: int|
                    0 <= i < messages@.len() ==> h@[i] == spec_message_height(
                        #[trigger] messages@[i],
                        width,
                    )
                &&& total_height(h@) <= u16::MAX
            },
            None => !(forall|i: int|
                0 <= i < messages@.len() ==> spec_message_height(#[trigger] messages@[i], width)
                    <= u16::MAX) || total_height(
                Seq::new(messages@.len(), |i: int| spec_message_height(messages@[i], width) as u16),
            ) > u16::MAX,
        },
{
    let ghost all = Seq::new(messages@.len(), |i: int| spec_message_height(messages@[i], width) as u16);
    let mut out: Vec<u16> = Vec::new();
    let mut total: u16 = 0;
    let mut i: usize = 0;
    while i < messages.len()
        invariant
            i <= messages@.len(),
            forall|j: int| 0 <= j < messages@.len() ==> message_texts_fit(#[trigger] messages@[j]),
            all == Seq::new(messages@.len(), |i: int| spec_message_height(messages@[i], width) as u16),
            out@.len() == i,
            forall|j: int| 0 <= j < i ==> out@[j] == spec_message_height(#[trigger] messages@[j], width),
            forall|j: int| 0 <= j < i ==> spec_message_height(#[trigger] messages@[j], width) <= u16::MAX,
            out@ == all.take(i as int),
            total == sum_heights(out@, i as int),
        decreases messages@.len() - i,
    {
        let h = match checked_message_height(&messages[i], width) {
            Some(h) => h,
            None => {
                return None;
            },
        };
        let ghost prev = out@;
        match total.checked_add(h) {
            Some(t) => {
                total = t;
            },
            None => {
                proof {
                    lemma_sum_prefix(all, i + 1);
                    lemma_sum_heights_take(all, i as int);
                    assert(all[i as int] == h);
                    assert(sum_heights(all, i + 1) == sum_heights(all, i as int) + h);
                }
                return None;
            },
        }
        out.push(h);
        proof {
            assert(out@ =~= all.take(i + 1));
            assert(out@.take(i as int) =~= prev);
            lemma_sum_heights_take(out@, i as int);
        }
        i = i + 1;
    }
    proof {
        assert(all.take(i as int) =~= all);
    }
    Some(out)
}

/// The total of a prefix bounds the total of the whole.
proof fn lemma_sum_prefix(h: Seq<u16>, n: int)
    requires
        0 <= n <= h.len(),
    ensures
        sum_heights(h.take(n), n) == sum_heights(h, n),
        sum_heights(h, n) <= total_height(h),
    decreases n,
{
    lemma_sum_heights_monotone(h, n, h.len() as int);
    if n > 0 {
        lemma_sum_prefix(h, n - 1);
        lemma_sum_heights_take(h.take(n), n - 1);
        assert(h.take(n).take(n - 1) =~= h.take(n - 1));
    }
}

/// The total of the first `n` entries depends only on those entries.
proof fn lemma_sum_heights_take(h: Seq<u16>, n: int)
    requires
        0 <= n <= h.len(),
    ensures
        sum_heights(h.take(n), n) == sum_heights(h, n),
    decreases n,
{
    if n > 0 {
        lemma_sum_heights_take(h, n - 1);
        lemma_sum_heights_take(h.take(n), n - 1);
        assert(h.take(n).take(n - 1) =~= h.take(n - 1));
    }
}

/// `start` plus the rows of the first `n` lines of `output`, or `None` when that
/// leaves `u16`.
fn checked_output_rows(start: u16, output: &Vec<String>, n: usize, width: u16) -> (r: Option<u16>)
    requires
        n <= output@.len(),
        forall|i: int| 0 <= i < output@.len() ==> utf8_len(#[trigger] output@[i]@) < usize::MAX,
    ensures
        match r {
            Some(h) => h == start + output_rows(output@, n as int, width),
            None => start + output_rows(output@, n as int, width) > u16::MAX,
        },
{
    let mut h = start;
    let mut i: usize = 0;
    while i < n
        invariant
            i <= n <= output@.len(),
            forall|j: int| 0 <= j < output@.len() ==> utf8_len(#[trigger] output@[j]@) < usize::MAX,
            h == start + output_rows(output@, i as int, width),
        decreases n - i,
    {
        let rows = wrapped_line_count(output[i].as_str(), width) as u16;
        match h.checked_add(rows) {
            Some(next) => {
                h = next;
            },
            None => {
                proof {
                    lemma_output_rows_monotone(output@, i + 1, n as int, width);
                }
                return None;
            },
        }
        i = i + 1;
    }
    Some(h)
}

/// `base + rows + tail` for a wrapped row count cut to 16 bits, or `None` when
/// that leaves `u16`.
fn checked_text_height(base: u16, rows: usize, tail: u16) -> (r: Option<u16>)
    ensures
        match r {
            Some(h) => h == base + trunc_u16(rows as int) + tail,
            None => base + trunc_u16(rows as int) + tail > u16::MAX,
        },
{
    let t = rows as u16;
    match base.checked_add(t) {
        Some(x) => x.checked_add(tail),
        None => None,
    }
}

/// The height of a block, or `None` when it does not fit in `u16`.
pub fn checked_message_height(msg: &MessageBlock, width: u16) -> (r: Option<u16>)
    requires
        message_texts_fit(*msg),
    ensures
        match r {
            Some(h) => h == spec_message_height(*msg, width),
            None => spec_message_height(*msg, width) > u16::MAX,
        },
{
    match msg {
        MessageBlock::AssistantText(text) => {
            checked_text_height(1, wrapped_line_count(text.as_str(), width.saturating_sub(3)), 1)
        },
        MessageBlock::Thinking { body, .. } => {
            checked_text_height(3, wrapped_line_count(body.as_str(), width.saturating_sub(3)), 1)
        },
        MessageBlock::ToolOutput { command, output, collapsed, .. } => {
            let inner_w = width.saturating_sub(5);
            let head: u16 = if !command.as_str().is_empty() {
                5
            } else {
                3
            };
            if *collapsed && output.len() > TOOL_MAX_OUTPUT_LINES {
                match checked_output_rows(head, output, TOOL_MAX_OUTPUT_LINES, inner_w) {
                    Some(h) => h.checked_add(4),
                    None => None,
                }
            } else {
                match checked_output_rows(head, output, output.len(), inner_w) {
                    Some(h) => h.checked_add(2),
                    None => None,
                }
            }
        },
        MessageBlock::UserMessage(text) => {
            checked_text_height(2, wrapped_line_count(text.as_str(), width.saturating_sub(4)), 1)
        },
        MessageBlock::InlineResult { .. } => Some(2),
        MessageBlock::Error(_) => Some(3),
    }
}

/// The tool-output blocks among `ps`, with the rectangles they are drawn in:
/// the targets of clicks that expand or collapse them.
pub open spec fn tool_rects(ps: Seq<Placement>, msgs: Seq<MessageBlock>) -> Seq<(usize, Rect)>
    decreases ps.len(),
{
    if ps.len() == 0 {
        Seq::empty()
    } else {
        let rest = tool_rects(ps.drop_last(), msgs);
        if msgs[ps.last().index as int] is ToolOutput {
            rest.push((ps.last().index, ps.last().dest))
        } else {
            rest
        }
    }
}

/// Whether the pointer rests on placed block `p`, which only matters for tool
/// output.
pub open spec fn hovered(p: Placement, msgs: Seq<MessageBlock>, mouse: (u16, u16)) -> bool {
    msgs[p.index as int] is ToolOutput && p.dest.spec_contains(mouse.0, mouse.1)
}

/// The blocks' heights at `width`.
pub open spec fn heights_of(msgs: Seq<MessageBlock>, width: u16) -> Seq<u16> {
    Seq::new(msgs.len(), |i: int| spec_message_height(msgs[i], width) as u16)
}

/// Whether every block's height, and their total, fit in `u16` at `width`.
pub open spec fn heights_fit(msgs: Seq<MessageBlock>, width: u16) -> bool {
    &&& forall|i: int| 0 <= i < msgs.len() ==> spec_message_height(#[trigger] msgs[i], width) <= u16::MAX
    &&& total_height(heights_of(msgs, width)) <= u16::MAX
}

/// Every placement refers to one of the first `n` blocks, in increasing order.
proof fn lemma_placements_index(h: Seq<u16>, scroll: int, view: Rect, width: u16, n: int)
    requires
        0 <= n <= h.len(),
        n <= usize::MAX,
    ensures
        forall|k: int|
            0 <= k < placements(h, scroll, view, width, n).len() ==> #[trigger] placements(
                h,
                scroll,
                view,
                width,
                n,
            )[k].index < n,
    decreases n,
{
    if n > 0 {
        lemma_placements_index(h, scroll, view, width, n - 1);
        let rest = placements(h, scroll, view, width, n - 1);
        match placement_of(h, scroll, view, width, n - 1) {
            Some(p) => {
                assert(p.index == n - 1);
                assert(placements(h, scroll, view, width, n) == rest.push(p));
            },
            None => {},
        }
    }
}

impl App {
    /// Lays out the conversation in `view` at `width` columns for drawing: clamps
    /// the scroll position, records where tool-output blocks are for clicks, and
    /// gives each visible block's placement and whether the pointer is on it.
    /// Gives `None`, changing nothing, when the blocks' heights leave `u16`.
    pub fn layout_messages(&mut self, view: Rect, width: u16) -> (r: Option<Vec<(Placement, bool)>>)
        requires
            forall|i: int|
                0 <= i < old(self).messages@.len() ==> message_texts_fit(#[trigger] old(self).messages@[i]),
        ensures
            match r {
                None => {
                    &&& final(self)@ == old(self)@
                    &&& !heights_fit(old(self).messages@, width)
                },
                Some(out) => {
                    let h = heights_of(old(self).messages@, width);
                    let scroll = clamp_scroll(h, old(self).scroll_offset, view.height);
                    let ps = placements(h, scroll, view, width, h.len() as int);
                    &&& heights_fit(old(self).messages@, width)
                    &&& final(self)@ == crate::app::AppModel {
                        scroll_offset: scroll as u16,
                        tool_block_rects: tool_rects(ps, old(self).messages@),
                        ..old(self)@
                    }
                    &&& out@.len() == ps.len()
                    &&& forall|k: int|
                        0 <= k < ps.len() ==> (#[trigger] out@[k]).0 == ps[k] && out@[k].1 == hovered(
                            ps[k],
                            old(self).messages@,
                            old(self).mouse_pos,
                        )
                },
            },
    {
        let heights = match block_heights(&self.messages, width) {
            Some(h) => h,
            None => {
                return None;
            },
        };
        proof {
            assert(heights@ =~= heights_of(self.messages@, width));
        }
        let (scroll, ps) = place_blocks(&heights, self.scroll_offset, view, width);
        self.scroll_offset = scroll;
        let ghost msgs = self.messages@;
        let hn = heights.len();
        proof {
            lemma_placements_index(heights@, scroll as int, view, width, hn as int);
        }
        let mut rects: Vec<(usize, Rect)> = Vec::new();
        let mut out: Vec<(Placement, bool)> = Vec::new();
        let mut k: usize = 0;
        while k < ps.len()
            invariant
                k <= ps@.len(),
                msgs == self.messages@,
                forall|j: int| 0 <= j < ps@.len() ==> (#[trigger] ps@[j]).index < msgs.len(),
                rects@ == tool_rects(ps@.take(k as int), msgs),
                out@.len() == k,
                forall|j: int|
                    0 <= j < k ==> (#[trigger] out@[j]).0 == ps@[j] && out@[j].1 == hovered(
                        ps@[j],
                        msgs,
                        self.mouse_pos,
                    ),
            decreases ps@.len() - k,
        {
            let p = ps[k];
            let is_tool = match &self.messages[p.index] {
                MessageBlock::ToolOutput { .. } => true,
                _ => false,
            };
            proof {
                assert(ps@.take(k + 1).drop_last() =~= ps@.take(k as int));
            }
            if is_tool {
                rects.push((p.index, p.dest));
            }
            let on_it = is_tool && p.dest.contains(self.mouse_pos.0, self.mouse_pos.1);
            out.push((p, on_it));
            k = k + 1;
        }
        proof {
            assert(ps@.take(ps@.len() as int) =~= ps@);
        }
        self.tool_block_rects = rects;
        Some(out)
    }
}

/// The click targets recorded from placements of existing blocks name existing
/// tool-output blocks.
proof fn lemma_tool_rects_valid(ps: Seq<Placement>, msgs: Seq<MessageBlock>)
    requires
        forall|j: int| 0 <= j < ps.len() ==> (#[trigger] ps[j]).index < msgs.len(),
    ensures
        forall|k: int|
            0 <= k < tool_rects(ps, msgs).len() ==> {
                let t = #[trigger] tool_rects(ps, msgs)[k];
                &&& t.0 < msgs.len()
                &&& msgs[t.0 as int] is ToolOutput
            },
    decreases ps.len(),
{
    if ps.len() > 0 {
        let front = ps.drop_last();
        assert forall|j: int| 0 <= j < front.len() implies (#[trigger] front[j]).index < msgs.len() by {
            assert(front[j] == ps[j]);
        }
        lemma_tool_rects_valid(front, msgs);
        assert(ps.last() == ps[ps.len() - 1]);
    }
}

/// A layout keeps every event safe to handle: the state it leaves, with the
/// scroll position clamped and the click targets of the tool-output blocks on
/// screen recorded, is well formed whenever the state before was, and each click
/// target is a tool-output block of the conversation.
pub proof fn law_layout_keeps_wf(m: crate::app::AppModel, msgs: Seq<MessageBlock>, view: Rect, width: u16)
    requires
        crate::app::app_wf(m),
        m.messages == msgs.map_values(|b: MessageBlock| b@),
        msgs.len() <= usize::MAX,
    ensures
        ({
            let h = heights_of(msgs, width);
            let scroll = clamp_scroll(h, m.scroll_offset, view.height);
            let rects = tool_rects(placements(h, scroll, view, width, h.len() as int), msgs);
            &&& crate::app::app_wf(
                crate::app::AppModel { scroll_offset: scroll as u16, tool_block_rects: rects, ..m },
            )
            &&& forall|k: int|
                0 <= k < rects.len() ==> msgs[(#[trigger] rects[k]).0 as int] is ToolOutput
        }),
{
    let h = heights_of(msgs, width);
    let scroll = clamp_scroll(h, m.scroll_offset, view.height);
    let ps = placements(h, scroll, view, width, h.len() as int);
    lemma_placements_index(h, scroll, view, width, h.len() as int);
    lemma_tool_rects_valid(ps, msgs);
}

/// Every visible block is drawn inside the view, at least one row tall, and with
/// no more rows than it has.
pub proof fn law_placements_inside_view(h: Seq<u16>, scroll: int, view: Rect, width: u16, n: int)
    requires
        0 <= n <= h.len(),
        0 <= scroll,
        view.y + view.height <= u16::MAX,
    ensures
        forall|k: int|
            0 <= k < placements(h, scroll, view, width, n).len() ==> {
                let p = #[trigger] placements(h, scroll, view, width, n)[k];
                &&& view.y <= p.dest.y
                &&& p.dest.y + p.dest.height <= view.y + view.height
                &&& 1 <= p.dest.height <= p.height
                &&& p.clip_top + p.dest.height <= p.height
            },
    decreases n,
{
    if n > 0 {
        law_placements_inside_view(h, scroll, view, width, n - 1);
        lemma_placement_of_inside(h, scroll, view, width, n - 1);
        let rest = placements(h, scroll, view, width, n - 1);
        match placement_of(h, scroll, view, width, n - 1) {
            Some(p) => {
                assert(placements(h, scroll, view, width, n) == rest.push(p));
            },
            None => {
                assert(placements(h, scroll, view, width, n) == rest);
            },
        }
    }
}

/// The placement of one block lies inside the view.
proof fn lemma_placement_of_inside(h: Seq<u16>, scroll: int, view: Rect, width: u16, i: int)
    requires
        0 <= i < h.len(),
        view.y + view.height <= u16::MAX,
    ensures
        placement_of(h, scroll, view, width, i) matches Some(p) ==> {
            &&& view.y <= p.dest.y
            &&& p.dest.y + p.dest.height <= view.y + view.height
            &&& 1 <= p.dest.height <= p.height
            &&& p.clip_top + p.dest.height <= p.height
        },
{
    let top = sum_heights(h, i) - scroll;
    let bottom = top + h[i];
    if !(bottom <= 0 || top >= view.height) {
        let clip = if top < 0 {
            -top
        } else {
            0
        };
        let vis_top = if top < 0 {
            0
        } else {
            top
        };
        let vis = if h[i] - clip <= view.height - vis_top {
            h[i] - clip
        } else {
            view.height - vis_top
        };
        let y = (view.y + vis_top) as u16;
        assert(y == view.y + vis_top);
        assert(y + vis <= u16::MAX);
        assert(Rect::spec_new(view.x, y, width, vis as u16).height == vis);
    }
}

/// Scrolled to the end, as after sending a message, the view shows the newest
/// block with its last row on the view's last row, whenever the conversation
/// fills the view.
pub proof fn law_newest_block_at_bottom(h: Seq<u16>, view: Rect, width: u16)
    requires
        0 < h.len() <= usize::MAX,
        h.last() > 0,
        0 < view.height <= total_height(h) <= u16::MAX,
        view.y + view.height <= u16::MAX,
    ensures
        ({
            let ps = placements(h, clamp_scroll(h, u16::MAX, view.height), view, width, h.len() as int);
            &&& ps.len() > 0
            &&& ps.last().index == h.len() - 1
            &&& ps.last().dest.y + ps.last().dest.height == view.y + view.height
        }),
{
    let n = h.len() as int;
    lemma_sum_heights_monotone(h, n - 1, n);
    assert(sum_heights(h, n) == sum_heights(h, n - 1) + h[n - 1]);
    assert(h.last() == h[n - 1]);
    let scroll = clamp_scroll(h, u16::MAX, view.height);
    assert(scroll == total_height(h) - view.height);
    lemma_placement_of_inside(h, scroll, view, width, n - 1);
    let p = placement_of(h, scroll, view, width, n - 1);
    assert(p is Some);
    assert(placements(h, scroll, view, width, n) == placements(h, scroll, view, width, n - 1).push(
        p->0,
    ));
}

/// When the conversation is shorter than the view it is shown from its first
/// block, whatever the scroll position.
pub proof fn law_short_conversation_not_scrolled(h: Seq<u16>, scroll: u16, view: Rect)
    requires
        total_height(h) <= view.height,
    ensures
        clamp_scroll(h, scroll, view.height) == 0,
{
}

} // verus!
