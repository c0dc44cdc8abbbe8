//! How the rows a text or a block takes depend on its lines and on the width.
use vstd::prelude::*;

use crate::messages::{
    div_ceil, line_rows, output_rows, spec_message_height, spec_wrapped_line_count, split_lines,
    sum_line_rows, trunc_u16, utf8_len, width_minus, MessageBlock, TOOL_MAX_OUTPUT_LINES,
};

verus! {

/// Splitting at a line break joins the pieces of both sides.
proof fn lemma_split_lines_join(a: Seq<char>, b: Seq<char>)
    ensures
        split_lines(a.push('\n') + b) == split_lines(a) + split_lines(b),
        split_lines(b).len() >= 1,
    decreases b.len(),
{
    if b.len() == 0 {
        assert(a.push('\n') + b =~= a.push('\n'));
        assert(a.push('\n').drop_last() =~= a);
        assert(split_lines(a) + seq![Seq::<char>::empty()] =~= split_lines(a).push(Seq::<char>::empty()));
    } else {
        let b0 = b.drop_last();
        let c = b.last();
        lemma_split_lines_join(a, b0);
        let x = a.push('\n') + b;
        assert(x.drop_last() =~= a.push('\n') + b0);
        assert(x.last() == c);
        let sa = split_lines(a);
        let sb0 = split_lines(b0);
        if c == '\n' {
            assert((sa + sb0).push(Seq::<char>::empty()) =~= sa + sb0.push(Seq::<char>::empty()));
        } else {
            let j = sa + sb0;
            assert(j.last() == sb0.last());
            assert(j.update(j.len() - 1, j.last().push(c)) =~= sa + sb0.update(
                sb0.len() - 1,
                sb0.last().push(c),
            ));
        }
    }
}

/// The rows of two runs of lines add up.
proof fn lemma_sum_line_rows_add(x: Seq<Seq<char>>, y: Seq<Seq<char>>, w: int)
    ensures
        sum_line_rows(x + y, w) == sum_line_rows(x, w) + sum_line_rows(y, w),
    decreases y.len(),
{
    if y.len() > 0 {
        lemma_sum_line_rows_add(x, y.drop_last(), w);
        assert((x + y).drop_last() =~= x + y.drop_last());
        assert((x + y).last() == y.last());
    } else {
        assert(x + y =~= x);
    }
}

/// Only the empty text has UTF-8 length zero.
proof fn lemma_utf8_len_pos(s: Seq<char>)
    ensures
        s.len() > 0 ==> utf8_len(s) >= 1,
    decreases s.len(),
{
    if s.len() > 0 {
        lemma_utf8_len_pos(s.drop_last());
    }
}

/// `ceil(a / b)` is the least multiple count of `b` that reaches `a`.
proof fn lemma_div_ceil_bounds(a: int, b: int)
    requires
        a >= 0,
        b > 0,
    ensures
        div_ceil(a, b) * b >= a,
        div_ceil(a, b) >= 0,
        a > 0 ==> (div_ceil(a, b) - 1) * b < a,
        a > 0 ==> div_ceil(a, b) >= 1,
        a == 0 ==> div_ceil(a, b) == 0,
{
    let q = a / b;
    let r = a % b;
    assert(q * b + r == a && 0 <= r < b && q >= 0 && (a == 0 ==> q == 0 && r == 0)) by (nonlinear_arith)
        requires
            q == a / b,
            r == a % b,
            a >= 0,
            b > 0,
    ;
    if r != 0 {
        assert((q + 1) * b >= a) by (nonlinear_arith)
            requires
                q * b + r == a,
                r < b,
        ;
        assert(q * b < a);
    } else {
        if a > 0 {
            assert(q >= 1) by (nonlinear_arith)
                requires
                    q * b == a,
                    a > 0,
                    b > 0,
                    q >= 0,
            ;
            assert((q - 1) * b < a) by (nonlinear_arith)
                requires
                    q * b == a,
                    b > 0,
            ;
        }
    }
}

/// `ceil(a / b)` does not grow as `b` grows.
proof fn lemma_div_ceil_antitone(a: int, b1: int, b2: int)
    requires
        a >= 0,
        0 < b1 <= b2,
    ensures
        div_ceil(a, b2) <= div_ceil(a, b1),
{
    lemma_div_ceil_bounds(a, b1);
    lemma_div_ceil_bounds(a, b2);
    let q1 = div_ceil(a, b1);
    let q2 = div_ceil(a, b2);
    if a > 0 && q2 > q1 {
        assert((q2 - 1) * b2 >= q1 * b1) by (nonlinear_arith)
            requires
                q2 - 1 >= q1,
                q1 >= 0,
                b2 >= b1,
                b1 > 0,
        ;
    }
}

/// A line takes at least one row, and no more at a larger width.
proof fn lemma_line_rows(line: Seq<char>, w1: int, w2: int)
    requires
        0 < w1 <= w2,
    ensures
        line_rows(line, w1) >= 1,
        line_rows(line, w2) <= line_rows(line, w1),
{
    lemma_utf8_len_pos(line);
    if line.len() > 0 {
        lemma_div_ceil_bounds(utf8_len(line) as int, w1);
        lemma_div_ceil_antitone(utf8_len(line) as int, w1, w2);
    }
}

/// Lines take at least a row each, and no more rows at a larger width.
proof fn lemma_sum_line_rows_width(lines: Seq<Seq<char>>, w1: int, w2: int)
    requires
        0 < w1 <= w2,
    ensures
        sum_line_rows(lines, w1) >= lines.len(),
        sum_line_rows(lines, w2) <= sum_line_rows(lines, w1),
    decreases lines.len(),
{
    if lines.len() > 0 {
        lemma_sum_line_rows_width(lines.drop_last(), w1, w2);
        lemma_line_rows(lines.last(), w1, w2);
    }
}

/// Rows of text joined at a line break add up: at a positive width, `a`, a line
/// break and `b` take the rows of `a` and the rows of `b` together.
pub proof fn law_joined_text_rows_add(a: Seq<char>, b: Seq<char>, width: u16)
    requires
        width > 0,
    ensures
        spec_wrapped_line_count(a.push('\n') + b, width) == spec_wrapped_line_count(a, width)
            + spec_wrapped_line_count(b, width),
{
    let w = width as int;
    lemma_split_lines_join(a, b);
    lemma_split_lines_join(Seq::<char>::empty(), a);
    lemma_sum_line_rows_add(split_lines(a), split_lines(b), w);
    lemma_sum_line_rows_width(split_lines(a), w, w);
    lemma_sum_line_rows_width(split_lines(b), w, w);
}

/// A wider area never needs more rows: at a positive width, text wrapped at a
/// larger width takes no more rows.
pub proof fn law_wider_needs_no_more_rows(text: Seq<char>, w1: u16, w2: u16)
    requires
        0 < w1 <= w2,
    ensures
        spec_wrapped_line_count(text, w2) <= spec_wrapped_line_count(text, w1),
        spec_wrapped_line_count(text, w1) >= 1,
{
    lemma_split_lines_join(Seq::<char>::empty(), text);
    lemma_sum_line_rows_width(split_lines(text), w1 as int, w2 as int);
    lemma_sum_line_rows_width(split_lines(text), w2 as int, w2 as int);
}

/// The rows of the first `n` output lines do not grow with the width, when each
/// line's rows fit in 16 bits at the smaller width.
proof fn lemma_output_rows_width(output: Seq<String>, n: int, w1: u16, w2: u16)
    requires
        0 < w1 <= w2,
        0 <= n <= output.len(),
        forall|i: int| 0 <= i < n ==> spec_wrapped_line_count(#[trigger] output[i]@, w1) <= u16::MAX,
    ensures
        output_rows(output, n, w2) <= output_rows(output, n, w1),
    decreases n,
{
    if n > 0 {
        lemma_output_rows_width(output, n - 1, w1, w2);
        law_wider_needs_no_more_rows(output[n - 1]@, w1, w2);
        law_wider_needs_no_more_rows(output[n - 1]@, w2, w2);
    }
}

/// The widths a block's text is wrapped at inside a block of `width` columns.
pub open spec fn inner_width(msg: MessageBlock, width: u16) -> u16 {
    match msg {
        MessageBlock::ToolOutput { .. } => width_minus(width, 5),
        MessageBlock::UserMessage(_) => width_minus(width, 4),
        _ => width_minus(width, 3),
    }
}

/// Whether the row count of every wrapped text of the block fits in 16 bits at
/// `width`.
pub open spec fn text_rows_fit(msg: MessageBlock, width: u16) -> bool {
    let iw = inner_width(msg, width);
    match msg {
        MessageBlock::AssistantText(text) => spec_wrapped_line_count(text@, iw) <= u16::MAX,
        MessageBlock::Thinking { body, .. } => spec_wrapped_line_count(body@, iw) <= u16::MAX,
        MessageBlock::ToolOutput { output, .. } => forall|i: int|
            0 <= i < output@.len() ==> spec_wrapped_line_count(#[trigger] output@[i]@, iw)
                <= u16::MAX,
        MessageBlock::UserMessage(text) => spec_wrapped_line_count(text@, iw) <= u16::MAX,
        _ => true,
    }
}

/// A block's height does not grow with the width, as long as its text is
/// wrapped at a positive width and each text's rows fit in 16 bits. (At an inner
/// width of zero a text counts as one row, so a block narrower than its frame
/// can be shorter than a wider one.)
pub proof fn law_height_does_not_grow_with_width(msg: MessageBlock, w1: u16, w2: u16)
    requires
        w1 <= w2,
        inner_width(msg, w1) > 0,
        text_rows_fit(msg, w1),
    ensures
        spec_message_height(msg, w2) <= spec_message_height(msg, w1),
{
    let i1 = inner_width(msg, w1);
    let i2 = inner_width(msg, w2);
    assert(0 < i1 <= i2);
    match msg {
        MessageBlock::AssistantText(text) => {
            law_wider_needs_no_more_rows(text@, i1, i2);
        },
        MessageBlock::Thinking { body, .. } => {
            law_wider_needs_no_more_rows(body@, i1, i2);
        },
        MessageBlock::UserMessage(text) => {
            law_wider_needs_no_more_rows(text@, i1, i2);
        },
        MessageBlock::ToolOutput { output, .. } => {
            let n = if output@.len() > TOOL_MAX_OUTPUT_LINES {
                TOOL_MAX_OUTPUT_LINES as int
            } else {
                output@.len() as int
            };
            lemma_output_rows_width(output@, n, i1, i2);
            lemma_output_rows_width(output@, output@.len() as int, i1, i2);
        },
        _ => {},
    }
}

/// The rows of the first `n` output lines depend on those lines alone.
proof fn lemma_output_rows_prefix(o1: Seq<String>, o2: Seq<String>, n: int, width: u16)
    requires
        0 <= n <= o1.len(),
        n <= o2.len(),
        forall|i: int| 0 <= i < n ==> (#[trigger] o1[i])@ == o2[i]@,
    ensures
        output_rows(o1, n, width) == output_rows(o2, n, width),
    decreases n,
{
    if n > 0 {
        lemma_output_rows_prefix(o1, o2, n - 1, width);
    }
}

/// Lines past the tenth of a collapsed tool block do not change its height: two
/// collapsed blocks of more than ten lines, with commands of the same emptiness
/// and the same first ten lines, are equally tall.
pub proof fn law_hidden_lines_do_not_count(m1: MessageBlock, m2: MessageBlock, width: u16)
    requires
        m1 is ToolOutput,
        m2 is ToolOutput,
        m1->collapsed,
        m2->collapsed,
        m1->command@.len() == 0 <==> m2->command@.len() == 0,
        m1->output@.len() > TOOL_MAX_OUTPUT_LINES,
        m2->output@.len() > TOOL_MAX_OUTPUT_LINES,
        forall|i: int| 0 <= i < TOOL_MAX_OUTPUT_LINES ==> (#[trigger] m1->output@[i])@ == m2->output@[i]@,
    ensures
        spec_message_height(m1, width) == spec_message_height(m2, width),
{
    lemma_output_rows_prefix(m1->output@, m2->output@, TOOL_MAX_OUTPUT_LINES as int, width_minus(width, 5));
}

/// A user message takes three frame rows (a blank row above, a row above and a
/// row below its text) plus the rows its text wraps to four columns in from the
/// block's width, when that count fits in 16 bits.
pub proof fn law_user_message_height(msg: MessageBlock, width: u16)
    requires
        msg is UserMessage,
        spec_wrapped_line_count(msg->UserMessage_0@, width_minus(width, 4)) <= u16::MAX,
    ensures
        spec_message_height(msg, width) == 3 + spec_wrapped_line_count(
            msg->UserMessage_0@,
            width_minus(width, 4),
        ),
        spec_message_height(msg, width) >= 4,
{
    lemma_split_lines_join(Seq::<char>::empty(), msg->UserMessage_0@);
    if width_minus(width, 4) > 0 {
        law_wider_needs_no_more_rows(msg->UserMessage_0@, width_minus(width, 4), width_minus(width, 4));
    }
}

/// The rows of a user message grow with its lines: a message whose text is the
/// text of `a`, a line break and the text of `b` is as tall as `a` and `b`
/// together, less the frame rows counted twice, and so taller than either,
/// wherever its text is wrapped at a positive width and its rows fit in 16 bits.
pub proof fn law_user_message_lines_add(a: MessageBlock, b: MessageBlock, ab: MessageBlock, width: u16)
    requires
        a is UserMessage,
        b is UserMessage,
        ab is UserMessage,
        ab->UserMessage_0@ == a->UserMessage_0@.push('\n') + b->UserMessage_0@,
        width_minus(width, 4) > 0,
        spec_wrapped_line_count(ab->UserMessage_0@, width_minus(width, 4)) <= u16::MAX,
    ensures
        spec_message_height(ab, width) + 3 == spec_message_height(a, width) + spec_message_height(
            b,
            width,
        ),
        spec_message_height(ab, width) > spec_message_height(a, width),
        spec_message_height(ab, width) > spec_message_height(b, width),
{
    let iw = width_minus(width, 4);
    law_joined_text_rows_add(a->UserMessage_0@, b->UserMessage_0@, iw);
    law_wider_needs_no_more_rows(a->UserMessage_0@, iw, iw);
    law_wider_needs_no_more_rows(b->UserMessage_0@, iw, iw);
    law_user_message_height(a, width);
    law_user_message_height(b, width);
    law_user_message_height(ab, width);
}

} // verus!
