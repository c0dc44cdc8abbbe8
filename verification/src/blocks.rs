//! What each conversation block shows, line by line, and where inside its area.
use vstd::prelude::*;
use vstd::std_specs::iter::IteratorSpec;

use crate::geometry::Rect;
use crate::messages::{
    is_truncated, lines_view, output_rows, spec_message_height, spec_wrapped_line_count, split_lines,
    width_minus, MessageBlock, TOOL_MAX_OUTPUT_LINES,
};

verus! {

/// A line of a tool-output block.
#[derive(Clone, Debug)]
pub enum ToolLine {
    /// `# title`
    Title(String),
    Blank,
    /// `$ command`
    Command(String),
    Output(String),
    /// The mark that output was cut.
    Ellipsis,
    /// "Click to expand".
    ExpandHint,
}

/// A tool-output line as plain text.
pub enum ToolLineView {
    Title(Seq<char>),
    Blank,
    Command(Seq<char>),
    Output(Seq<char>),
    Ellipsis,
    ExpandHint,
}

impl View for ToolLine {
    type V = ToolLineView;

    open spec fn view(&self) -> ToolLineView {
        match self {
            ToolLine::Title(s) => ToolLineView::Title(s@),
            ToolLine::Blank => ToolLineView::Blank,
            ToolLine::Command(s) => ToolLineView::Command(s@),
            ToolLine::Output(s) => ToolLineView::Output(s@),
            ToolLine::Ellipsis => ToolLineView::Ellipsis,
            ToolLine::ExpandHint => ToolLineView::ExpandHint,
        }
    }
}

/// The output lines of a tool block as plain text.
pub open spec fn output_views(lines: Seq<Seq<char>>) -> Seq<ToolLineView> {
    lines.map_values(|l: Seq<char>| ToolLineView::Output(l))
}

/// The lines a tool-output block shows: its title; a blank and the command when
/// there is one; a blank; then the output, cut to the first ten lines followed
/// by an ellipsis, a blank and "Click to expand" when it is collapsed and longer.
pub open spec fn spec_tool_lines(title: Seq<char>, command: Seq<char>, output: Seq<Seq<char>>, collapsed: bool) -> Seq<
    ToolLineView,
> {
    let head = seq![ToolLineView::Title(title)] + if command.len() != 0 {
        seq![ToolLineView::Blank, ToolLineView::Command(command)]
    } else {
        Seq::empty()
    } + seq![ToolLineView::Blank];
    if collapsed && output.len() > TOOL_MAX_OUTPUT_LINES {
        head + output_views(output.take(TOOL_MAX_OUTPUT_LINES as int)) + seq![
            ToolLineView::Ellipsis,
            ToolLineView::Blank,
            ToolLineView::ExpandHint,
        ]
    } else {
        head + output_views(output)
    }
}

/// Whether a tool block is drawn highlighted: the pointer is on it and clicking
/// would expand it.
pub open spec fn tool_highlighted(output_len: int, collapsed: bool, hovered: bool) -> bool {
    hovered && collapsed && output_len > TOOL_MAX_OUTPUT_LINES
}

/// The lines a tool-output block shows, and whether it is drawn highlighted.
pub fn tool_output_lines(
    title: &String,
    command: &String,
    output: &Vec<String>,
    collapsed: bool,
    hovered: bool,
) -> (r: (Vec<ToolLine>, bool))
    ensures
        r.0@.map_values(|l: ToolLine| l@) == spec_tool_lines(title@, command@, lines_view(output@), collapsed),
        r.1 == tool_highlighted(output@.len() as int, collapsed, hovered),
{
    let expandable = collapsed && output.len() > TOOL_MAX_OUTPUT_LINES;
    let mut lines: Vec<ToolLine> = Vec::new();
    lines.push(ToolLine::Title(title.clone()));
    if !command.as_str().is_empty() {
        lines.push(ToolLine::Blank);
        lines.push(ToolLine::Command(command.clone()));
    }
    lines.push(ToolLine::Blank);
    let ghost head = lines@.map_values(|l: ToolLine| l@);
    proof {
        let spec_head = seq![ToolLineView::Title(title@)] + if command@.len() != 0 {
            seq![ToolLineView::Blank, ToolLineView::Command(command@)]
        } else {
            Seq::empty()
        } + seq![ToolLineView::Blank];
        assert(head =~= spec_head);
    }
    let n = if expandable {
        TOOL_MAX_OUTPUT_LINES
    } else {
        output.len()
    };
    let ghost shown = lines_view(output@).take(n as int);
    let mut i: usize = 0;
    while i < n
        invariant
            i <= n <= output@.len(),
            shown == lines_view(output@).take(n as int),
            lines@.map_values(|l: ToolLine| l@) == head + output_views(shown.take(i as int)),
        decreases n - i,
    {
        let ghost before = lines@;
        lines.push(ToolLine::Output(output[i].clone()));
        proof {
            assert(shown.take(i + 1) =~= shown.take(i as int).push(output@[i as int]@));
            assert(lines@.map_values(|l: ToolLine| l@) =~= before.map_values(|l: ToolLine| l@).push(
                ToolLineView::Output(output@[i as int]@),
            ));
            assert(output_views(shown.take(i + 1)) =~= output_views(shown.take(i as int)).push(
                ToolLineView::Output(output@[i as int]@),
            ));
        }
        i = i + 1;
    }
    proof {
        assert(shown.take(n as int) =~= shown);
    }
    let ghost body = lines@.map_values(|l: ToolLine| l@);
    if expandable {
        lines.push(ToolLine::Ellipsis);
        lines.push(ToolLine::Blank);
        lines.push(ToolLine::ExpandHint);
        proof {
            assert(lines@.map_values(|l: ToolLine| l@) =~= body + seq![
                ToolLineView::Ellipsis,
                ToolLineView::Blank,
                ToolLineView::ExpandHint,
            ]);
        }
    }
    proof {
        assert(lines_view(output@).take(output@.len() as int) =~= lines_view(output@));
        assert(lines@.map_values(|l: ToolLine| l@) =~= spec_tool_lines(
            title@,
            command@,
            lines_view(output@),
            collapsed,
        ));
    }
    (lines, hovered && expandable)
}

/// The pieces of `s` between `'\n'` characters, as `str::split('\n')` gives them.
pub fn split_on_newlines(s: &str) -> (r: Vec<String>)
    ensures
        lines_view(r@) == split_lines(s@),
{
    let ghost text = s@;
    let mut it = s.chars();
    let ghost mut k: int = 0;
    let mut done: Vec<String> = Vec::new();
    let mut cur = String::new();
    proof {
        assert(text.subrange(0, 0) =~= Seq::<char>::empty());
        assert(lines_view(done@).push(cur@) =~= seq![Seq::<char>::empty()]);
    }
    loop
        invariant
            0 <= k <= text.len(),
            text == s@,
            it.remaining() == text.subrange(k, text.len() as int),
            it.obeys_prophetic_iter_laws(),
            lines_view(done@).push(cur@) == split_lines(text.subrange(0, k)),
        ensures
            lines_view(done@).push(cur@) == split_lines(text),
        decreases text.len() - k,
    {
        let ghost before = text.subrange(0, k);
        match it.next() {
            None => {
                proof {
                    assert(text.subrange(0, k) =~= text);
                }
                break;
            },
            Some(c) => {
                proof {
                    assert(text.subrange(0, k + 1) =~= before.push(c));
                    assert(before.push(c).drop_last() =~= before);
                }
                let ghost old_done = done@;
                let ghost old_cur = cur@;
                if c == '\n' {
                    let finished = cur;
                    cur = String::new();
                    done.push(finished);
                    proof {
                        assert(lines_view(done@) =~= lines_view(old_done).push(old_cur));
                    }
                } else {
                    cur.push(c);
                    proof {
                        let lines = lines_view(old_done).push(old_cur);
                        assert(lines.update(lines.len() - 1, lines.last().push(c)) =~= lines_view(
                            done@,
                        ).push(cur@));
                    }
                }
                proof {
                    k = k + 1;
                }
            },
        }
    }
    let ghost old_done = done@;
    done.push(cur);
    proof {
        assert(lines_view(done@) =~= lines_view(old_done).push(done@.last()@));
    }
    done
}

/// The area a framed block is drawn in: all of its area but the blank first
/// row; nothing when the area is shorter than two rows.
pub open spec fn spec_block_area(area: Rect) -> Option<Rect> {
    if area.height < 2 {
        None
    } else {
        Some(Rect::spec_new(area.x, (area.y + 1) as u16, area.width, (area.height - 1) as u16))
    }
}

/// The area a framed block is drawn in: see `spec_block_area`.
pub fn block_area(area: Rect) -> (r: Option<Rect>)
    requires
        area.height >= 2 ==> area.y + 1 <= u16::MAX,
    ensures
        r == spec_block_area(area),
{
    if area.height < 2 {
        None
    } else {
        Some(Rect::new(area.x, area.y + 1, area.width, area.height - 1))
    }
}

/// Where an assistant's text goes: three columns in and one row down; nothing
/// when the area is shorter than two rows.
pub fn assistant_text_area(area: Rect) -> (r: Option<Rect>)
    requires
        area.height >= 2 ==> area.x + 3 <= u16::MAX && area.y + 1 <= u16::MAX,
    ensures
        area.height < 2 ==> r is None,
        area.height >= 2 ==> r == Some(
            Rect::spec_new(
                (area.x + 3) as u16,
                (area.y + 1) as u16,
                if area.width >= 3 {
                    (area.width - 3) as u16
                } else {
                    0
                },
                (area.height - 1) as u16,
            ),
        ),
{
    if area.height < 2 {
        None
    } else {
        Some(Rect::new(area.x + 3, area.y + 1, area.width.saturating_sub(3), area.height - 1))
    }
}

/// The row an inline result is written on: the second row of its area; nothing
/// when the area is shorter than two rows.
pub fn inline_result_row(area: Rect) -> (r: Option<Rect>)
    requires
        area.height >= 2 ==> area.y + area.height <= u16::MAX,
    ensures
        area.height < 2 ==> r is None,
        area.height >= 2 ==> r == Some(Rect::spec_new(area.x, (area.y + 1) as u16, area.width, 1)),
{
    if area.height < 2 {
        return None;
    }
    let below = area.y + 1;
    let last = area.y + area.height - 1;
    let y = if below <= last {
        below
    } else {
        last
    };
    Some(Rect::new(area.x, y, area.width, 1))
}

/// Output lines that each take one row add up to one row apiece.
proof fn lemma_output_rows_single(output: Seq<String>, n: int, width: u16)
    requires
        0 <= n <= output.len(),
        forall|i: int| 0 <= i < output.len() ==> spec_wrapped_line_count(#[trigger] output[i]@, width) == 1,
    ensures
        output_rows(output, n, width) == n,
    decreases n,
{
    if n > 0 {
        lemma_output_rows_single(output, n - 1, width);
        assert(spec_wrapped_line_count(output[n - 1]@, width) == 1);
    }
}

/// The rows reserved for an expanded tool block are the rows it draws: its lines
/// plus the blank row above the block and a padding row above and below the
/// lines, when every output line fits on one row. (A collapsed block that is cut
/// short draws one row more than is reserved for it, so the law leaves it out.)
pub proof fn law_tool_height_matches_lines(
    title: String,
    command: String,
    output: Vec<String>,
    collapsed: bool,
    width: u16,
)
    requires
        !is_truncated(output@.len() as int, collapsed),
        forall|i: int|
            0 <= i < output@.len() ==> spec_wrapped_line_count(
                #[trigger] output@[i]@,
                width_minus(width, 5),
            ) == 1,
    ensures
        spec_message_height(MessageBlock::ToolOutput { title, command, output, collapsed }, width)
            == spec_tool_lines(title@, command@, lines_view(output@), collapsed).len() + 3,
{
    lemma_output_rows_single(output@, output@.len() as int, width_minus(width, 5));
}

} // verus!
