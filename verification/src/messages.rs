//! Conversation blocks and the number of terminal rows each one takes.
use vstd::prelude::*;
use vstd::std_specs::iter::IteratorSpec;
use vstd::utf8::{encode_scalar, encode_utf8};

verus! {

/// Tool output longer than this is shown collapsed to this many lines.
pub const TOOL_MAX_OUTPUT_LINES: usize = 10;

/// One block of the conversation.
pub enum MessageBlock {
    AssistantText(String),
    Thinking { summary: String, body: String },
    ToolOutput { title: String, command: String, output: Vec<String>, collapsed: bool },
    InlineResult { icon: &'static str, label: String },
    UserMessage(String),
    Error(String),
}

/// The number of bytes that `c` takes in UTF-8.
pub open spec fn char_utf8_width(c: char) -> nat {
    if (c as u32) < 0x80 {
        1
    } else if (c as u32) < 0x800 {
        2
    } else if (c as u32) < 0x10000 {
        3
    } else {
        4
    }
}

/// The number of bytes that `s` takes in UTF-8, i.e. what `str::len` returns.
pub open spec fn utf8_len(s: Seq<char>) -> nat
    decreases s.len(),
{
    if s.len() == 0 {
        0
    } else {
        utf8_len(s.drop_last()) + char_utf8_width(s.last())
    }
}

/// The pieces of `s` between `'\n'` characters, as `str::split('\n')` gives them:
/// there is always at least one piece, possibly empty.
pub open spec fn split_lines(s: Seq<char>) -> Seq<Seq<char>>
    decreases s.len(),
{
    if s.len() == 0 {
        seq![Seq::<char>::empty()]
    } else {
        let rest = split_lines(s.drop_last());
        if s.last() == '\n' {
            rest.push(Seq::<char>::empty())
        } else {
            rest.update(rest.len() - 1, rest.last().push(s.last()))
        }
    }
}

/// `ceil(a / b)`.
pub open spec fn div_ceil(a: int, b: int) -> int {
    a / b + if a % b != 0 {
        1int
    } else {
        0int
    }
}

/// The rows one line of text takes at `width` columns, one column per byte: an
/// empty line still takes a row.
pub open spec fn line_rows(line: Seq<char>, width: int) -> int {
    if line.len() == 0 {
        1
    } else {
        div_ceil(utf8_len(line) as int, width)
    }
}

/// The rows taken by all of `lines`.
pub open spec fn sum_line_rows(lines: Seq<Seq<char>>, width: int) -> int
    decreases lines.len(),
{
    if lines.len() == 0 {
        0
    } else {
        sum_line_rows(lines.drop_last(), width) + line_rows(lines.last(), width)
    }
}

/// The rows `text` takes when wrapped at `width` columns: one row at width zero,
/// else the rows of its lines, and at least one.
pub open spec fn spec_wrapped_line_count(text: Seq<char>, width: u16) -> int {
    if width == 0 {
        1
    } else {
        let n = sum_line_rows(split_lines(text), width as int);
        if n >= 1 {
            n
        } else {
            1
        }
    }
}

/// The UTF-8 width of a character, by its code point ranges.
proof fn lemma_char_width(c: char)
    ensures
        encode_scalar(c as u32).len() == char_utf8_width(c),
        1 <= char_utf8_width(c) <= 4,
{
}

/// `utf8_len` adds up over concatenation.
pub proof fn lemma_utf8_len_add(a: Seq<char>, b: Seq<char>)
    ensures
        utf8_len(a + b) == utf8_len(a) + utf8_len(b),
    decreases b.len(),
{
    if b.len() == 0 {
        assert(a + b =~= a);
    } else {
        lemma_utf8_len_add(a, b.drop_last());
        assert((a + b).drop_last() =~= a + b.drop_last());
    }
}

/// `utf8_len` is the length of the UTF-8 encoding, the byte length that
/// `str::len` reports.
pub proof fn lemma_utf8_len_is_encoded_len(s: Seq<char>)
    ensures
        utf8_len(s) == encode_utf8(s).len(),
    decreases s.len(),
{
    if s.len() > 0 {
        lemma_utf8_len_is_encoded_len(s.drop_first());
        lemma_char_width(s[0]);
        lemma_utf8_len_add(seq![s[0]], s.drop_first());
        assert(seq![s[0]] + s.drop_first() =~= s);
        assert(seq![s[0]].drop_last() =~= Seq::<char>::empty());
        let one = seq![s[0]];
        assert(one.last() == s[0]);
        assert(utf8_len(one.drop_last()) == 0);
        assert(utf8_len(one) == char_utf8_width(s[0]));
        assert(encode_utf8(s) == encode_scalar(s[0] as u32) + encode_utf8(s.drop_first()));
    }
}

/// Only the empty string has UTF-8 length zero.
proof fn lemma_utf8_len_zero(s: Seq<char>)
    ensures
        utf8_len(s) == 0 <==> s.len() == 0,
        utf8_len(s) >= s.len(),
    decreases s.len(),
{
    if s.len() > 0 {
        lemma_utf8_len_zero(s.drop_last());
    }
}

/// The number of UTF-8 bytes of `c`.
fn char_width(c: char) -> (w: usize)
    ensures
        w == char_utf8_width(c),
{
    let v = c as u32;
    if v < 0x80 {
        1
    } else if v < 0x800 {
        2
    } else if v < 0x10000 {
        3
    } else {
        4
    }
}

/// `ceil(a / b)` for a positive `b`.
fn usize_div_ceil(a: usize, b: usize) -> (r: usize)
    requires
        b > 0,
    ensures
        r == div_ceil(a as int, b as int),
        a > 0 ==> r <= a,
        a == 0 ==> r == 0,
{
    let q = a / b;
    let rem = a % b;
    proof {
        assert(q * b + rem == a) by (nonlinear_arith)
            requires
                q == a / b,
                rem == a % b,
                b > 0,
        ;
        assert(q <= a) by (nonlinear_arith)
            requires
                q == a / b,
                b > 0,
        ;
        if rem != 0 {
            assert(q < a) by (nonlinear_arith)
                requires
                    q * b + rem == a,
                    rem > 0,
                    b > 0,
                    q >= 0,
            ;
        }
    }
    if rem != 0 {
        q + 1
    } else {
        q
    }
}

/// The number of terminal rows `text` takes when wrapped at `width` columns,
/// counting one column per byte; empty lines take one row, and a zero width
/// gives one row.
pub fn wrapped_line_count(text: &str, width: u16) -> (n: usize)
    requires
        utf8_len(text@) < usize::MAX,
    ensures
        n == spec_wrapped_line_count(text@, width),
{
    if width == 0 {
        return 1;
    }
    let w = width as usize;
    let ghost s = text@;
    let mut it = text.chars();
    let ghost mut k: int = 0;
    let mut total: usize = 0;
    let mut cur: usize = 0;
    let ghost mut consumed: int = 0;
    proof {
        assert(s.subrange(0, 0) =~= Seq::<char>::empty());
        assert(split_lines(Seq::<char>::empty()) == seq![Seq::<char>::empty()]);
        assert(seq![Seq::<char>::empty()].drop_last() =~= Seq::<Seq<char>>::empty());
    }
    loop
        invariant
            0 <= k <= s.len(),
            s == text@,
            w == width as usize,
            w > 0,
            it.remaining() == s.subrange(k, s.len() as int),
            it.obeys_prophetic_iter_laws(),
            utf8_len(s) < usize::MAX,
            consumed == utf8_len(s.subrange(0, k)),
            cur == utf8_len(split_lines(s.subrange(0, k)).last()),
            split_lines(s.subrange(0, k)).len() >= 1,
            total == sum_line_rows(split_lines(s.subrange(0, k)).drop_last(), w as int),
            total + cur <= consumed,
            cur <= consumed,
        ensures
            k == s.len(),
            cur == utf8_len(split_lines(s).last()),
            split_lines(s).len() >= 1,
            total == sum_line_rows(split_lines(s).drop_last(), w as int),
            total + cur <= utf8_len(s),
        decreases s.len() - k,
    {
        let ghost before = s.subrange(0, k);
        let next = it.next();
        match next {
            None => {
                proof {
                    assert(s.subrange(0, k) =~= s);
                }
                break;
            },
            Some(c) => {
                proof {
                    assert(c == s[k]);
                    assert(s.subrange(0, k + 1) =~= before.push(c));
                    assert(before.push(c).drop_last() =~= before);
                    lemma_utf8_len_add(before, s.subrange(k, s.len() as int));
                    assert(before + s.subrange(k, s.len() as int) =~= s);
                    lemma_utf8_len_add(before.push(c), s.subrange(k + 1, s.len() as int));
                    assert(before.push(c) + s.subrange(k + 1, s.len() as int) =~= s);
                    lemma_char_width(c);
                }
                let cw = char_width(c);
                if c == '\n' {
                    let rows = if cur == 0 {
                        1
                    } else {
                        usize_div_ceil(cur, w)
                    };
                    proof {
                        let lines = split_lines(before);
                        let nl = lines.push(Seq::<char>::empty());
                        assert(split_lines(before.push(c)) == nl);
                        assert(nl.drop_last() =~= lines);
                        lemma_utf8_len_zero(lines.last());
                        assert(lines =~= lines.drop_last().push(lines.last()));
                        assert(sum_line_rows(lines, w as int) == sum_line_rows(lines.drop_last(), w as int)
                            + line_rows(lines.last(), w as int));
                    }
                    total = total + rows;
                    cur = 0;
                } else {
                    proof {
                        let lines = split_lines(before);
                        let nl = lines.update(lines.len() - 1, lines.last().push(c));
                        assert(split_lines(before.push(c)) == nl);
                        assert(nl.drop_last() =~= lines.drop_last());
                        assert(nl.last() == lines.last().push(c));
                        assert(lines.last().push(c).drop_last() =~= lines.last());
                    }
                    cur = cur + cw;
                }
                proof {
                    consumed = consumed + cw;
                    k = k + 1;
                }
            },
        }
    }
    let rows = if cur == 0 {
        1
    } else {
        usize_div_ceil(cur, w)
    };
    proof {
        let lines = split_lines(s);
        lemma_utf8_len_zero(lines.last());
        assert(lines =~= lines.drop_last().push(lines.last()));
        assert(sum_line_rows(lines, w as int) == sum_line_rows(lines.drop_last(), w as int)
            + line_rows(lines.last(), w as int));
    }
    let n = total + rows;
    if n >= 1 {
        n
    } else {
        1
    }
}

/// `n` cut down to its low 16 bits, as `as u16` does.
pub open spec fn trunc_u16(n: int) -> int {
    (n as u16) as int
}

/// `a - b` clamped at zero, for widths.
pub open spec fn width_minus(a: u16, b: u16) -> u16 {
    if a >= b {
        (a - b) as u16
    } else {
        0
    }
}

/// The rows of the first `n` lines of tool output at `width`, each line's count
/// cut to 16 bits.
pub open spec fn output_rows(output: Seq<String>, n: int, width: u16) -> int
    decreases n,
{
    if n <= 0 {
        0
    } else {
        output_rows(output, n - 1, width) + trunc_u16(
            spec_wrapped_line_count(output[n - 1]@, width),
        )
    }
}

/// Whether tool output is shown cut to `TOOL_MAX_OUTPUT_LINES` lines.
pub open spec fn is_truncated(output_len: int, collapsed: bool) -> bool {
    collapsed && output_len > TOOL_MAX_OUTPUT_LINES
}

/// The rows a block takes at `width` columns, as an unbounded integer: a blank
/// row above every block, frame rows, and the wrapped rows of its text.
pub open spec fn spec_message_height(msg: MessageBlock, width: u16) -> int {
    match msg {
        MessageBlock::AssistantText(text) => 1 + trunc_u16(
            spec_wrapped_line_count(text@, width_minus(width, 3)),
        ) + 1,
        MessageBlock::Thinking { body, .. } => 1 + 1 + 1 + trunc_u16(
            spec_wrapped_line_count(body@, width_minus(width, 3)),
        ) + 1,
        MessageBlock::ToolOutput { command, output, collapsed, .. } => {
            let iw = width_minus(width, 5);
            let head = 1 + 1 + (if command@.len() != 0 {
                2int
            } else {
                0int
            }) + 1;
            if is_truncated(output@.len() as int, collapsed) {
                head + output_rows(output@, TOOL_MAX_OUTPUT_LINES as int, iw) + 4
            } else {
                head + output_rows(output@, output@.len() as int, iw) + 2
            }
        },
        MessageBlock::UserMessage(text) => 1 + 1 + trunc_u16(
            spec_wrapped_line_count(text@, width_minus(width, 4)),
        ) + 1,
        MessageBlock::InlineResult { .. } => 2,
        MessageBlock::Error(_) => 3,
    }
}

/// Whether every text of the block has a byte length that fits in `usize`.
pub open spec fn message_texts_fit(msg: MessageBlock) -> bool {
    match msg {
        MessageBlock::AssistantText(text) => utf8_len(text@) < usize::MAX,
        MessageBlock::Thinking { body, .. } => utf8_len(body@) < usize::MAX,
        MessageBlock::ToolOutput { output, .. } => forall|i: int|
            0 <= i < output@.len() ==> utf8_len(#[trigger] output@[i]@) < usize::MAX,
        MessageBlock::UserMessage(text) => utf8_len(text@) < usize::MAX,
        _ => true,
    }
}

/// Whether `message_height` can add up the block's rows in a `u16`.
pub open spec fn message_height_fits(msg: MessageBlock, width: u16) -> bool {
    message_texts_fit(msg) && spec_message_height(msg, width) <= u16::MAX
}

pub proof fn lemma_output_rows_monotone(output: Seq<String>, i: int, n: int, width: u16)
    requires
        0 <= i <= n,
    ensures
        0 <= output_rows(output, i, width) <= output_rows(output, n, width),
    decreases n,
{
    if i < n {
        lemma_output_rows_monotone(output, i, n - 1, width);
    } else if n > 0 {
        lemma_output_rows_monotone(output, i - 1, n - 1, width);
    }
}

/// The rows of the first `n` lines of `output` at `width`, added to `start`.
fn add_output_rows(start: u16, output: &Vec<String>, n: usize, width: u16) -> (h: u16)
    requires
        n <= output@.len(),
        forall|i: int| 0 <= i < output@.len() ==> utf8_len(#[trigger] output@[i]@) < usize::MAX,
        start + output_rows(output@, n as int, width) <= u16::MAX,
    ensures
        h == start + output_rows(output@, n as int, width),
{
    let mut h = start;
    let mut i: usize = 0;
    while i < n
        invariant
            i <= n <= output@.len(),
            forall|j: int| 0 <= j < output@.len() ==> utf8_len(#[trigger] output@[j]@) < usize::MAX,
            start + output_rows(output@, n as int, width) <= u16::MAX,
            h == start + output_rows(output@, i as int, width),
        decreases n - i,
    {
        proof {
            lemma_output_rows_monotone(output@, i + 1, n as int, width);
        }
        let rows = wrapped_line_count(output[i].as_str(), width);
        h = h + rows as u16;
        i = i + 1;
    }
    h
}

/// The number of terminal rows a block takes at `width` columns.
pub fn message_height(msg: &MessageBlock, width: u16) -> (h: u16)
    requires
        message_height_fits(*msg, width),
    ensures
        h == spec_message_height(*msg, width),
{
    match msg {
        MessageBlock::AssistantText(text) => {
            let inner_w = width.saturating_sub(3);
            1 + wrapped_line_count(text.as_str(), inner_w) as u16 + 1
        },
        MessageBlock::Thinking { body, .. } => {
            let inner_w = width.saturating_sub(3);
            1 + 1 + 1 + wrapped_line_count(body.as_str(), inner_w) as u16 + 1
        },
        MessageBlock::ToolOutput { command, output, collapsed, .. } => {
            let inner_w = width.saturating_sub(5);
            let mut h: u16 = 1 + 1;
            if !command.as_str().is_empty() {
                h = h + 2;
            }
            h = h + 1;
            if *collapsed && output.len() > TOOL_MAX_OUTPUT_LINES {
                proof {
                    lemma_output_rows_monotone(output@, 0, TOOL_MAX_OUTPUT_LINES as int, inner_w);
                }
                h = add_output_rows(h, output, TOOL_MAX_OUTPUT_LINES, inner_w);
                h = h + 1 + 1 + 1 + 1;
            } else {
                proof {
                    lemma_output_rows_monotone(output@, 0, output@.len() as int, inner_w);
                }
                h = add_output_rows(h, output, output.len(), inner_w);
                h = h + 1 + 1;
            }
            h
        },
        MessageBlock::UserMessage(text) => {
            let inner_w = width.saturating_sub(4);
            1 + 1 + wrapped_line_count(text.as_str(), inner_w) as u16 + 1
        },
        MessageBlock::InlineResult { .. } => 2,
        MessageBlock::Error(_) => 3,
    }
}

/// A block as plain text: every string by its characters.
pub enum MessageView {
    AssistantText(Seq<char>),
    Thinking { summary: Seq<char>, body: Seq<char> },
    ToolOutput { title: Seq<char>, command: Seq<char>, output: Seq<Seq<char>>, collapsed: bool },
    InlineResult { icon: Seq<char>, label: Seq<char> },
    UserMessage(Seq<char>),
    Error(Seq<char>),
}

/// The lines of tool output as plain text.
pub open spec fn lines_view(lines: Seq<String>) -> Seq<Seq<char>> {
    lines.map_values(|l: String| l@)
}

impl View for MessageBlock {
    type V = MessageView;

    open spec fn view(&self) -> MessageView {
        match self {
            MessageBlock::AssistantText(t) => MessageView::AssistantText(t@),
            MessageBlock::Thinking { summary, body } => MessageView::Thinking {
                summary: summary@,
                body: body@,
            },
            MessageBlock::ToolOutput { title, command, output, collapsed } => MessageView::ToolOutput {
                title: title@,
                command: command@,
                output: lines_view(output@),
                collapsed: *collapsed,
            },
            MessageBlock::InlineResult { icon, label } => MessageView::InlineResult {
                icon: icon@,
                label: label@,
            },
            MessageBlock::UserMessage(t) => MessageView::UserMessage(t@),
            MessageBlock::Error(t) => MessageView::Error(t@),
        }
    }
}

/// The block with its collapse flag flipped, if it is tool output.
pub open spec fn toggled(m: MessageView) -> MessageView {
    match m {
        MessageView::ToolOutput { title, command, output, collapsed } => MessageView::ToolOutput {
            title,
            command,
            output,
            collapsed: !collapsed,
        },
        other => other,
    }
}

/// Flips the collapse flag of a tool-output block; other blocks stay as they are.
pub fn toggle_collapsed(m: MessageBlock) -> (r: MessageBlock)
    ensures
        r@ == toggled(m@),
{
    match m {
        MessageBlock::ToolOutput { title, command, output, collapsed } => MessageBlock::ToolOutput {
            title,
            command,
            output,
            collapsed: !collapsed,
        },
        other => other,
    }
}

/// Block 0 of the sample conversation.
pub open spec fn demo_message_0() -> MessageView {
    MessageView::ToolOutput {
                title: "Summarizes tracked file diff"@,
                command: "git diff --stat"@,
                output: seq![
                    " Cargo.lock                                         | 106 +++-"@,
                    " Cargo.toml                                         |   3 +-"@,
                    " crates/config/src/template.rs                      |  10 +-"@,
                    " crates/config/src/validate/schema_map.rs           |  18 +"@,
                    " crates/external-agents/Cargo.toml                  |  29 +-"@,
                    " crates/external-agents/src/runtimes/acp.rs         | 681 ++++++++++++++++++++-"@,
                    " crates/external-agents/src/runtimes/claude_code.rs | 230 ++++++-"@,
                    " crates/external-agents/src/runtimes/codex.rs       | 448 +++++++++++++-"@,
                    " crates/external-agents/src/runtimes/mod.rs         |   2 +"@,
                    " crates/external-agents/src/types.rs                |  46 +-"@,
                    " crates/web/ui/src/components/SessionHeader.tsx      | 112 ++++"@,
                    " crates/web/ui/e2e/specs/agents.spec.js             |  89 +++"@,
                    " 12 files changed, 1774 insertions(+), 12 deletions(-)"@,
                ],
                collapsed: true,
            }
}

/// Block 1 of the sample conversation.
pub open spec fn demo_message_1() -> MessageView {
    MessageView::Thinking {
                summary: "Considering system checks"@,
                body: "I need to run a format check and test external connections. I'm also thinking \
                       about checking the gateway and possibly linting the code. Full tests could be \
                       useful too. Oh, and what about the UI? Should I include that in my testing? \
                       It seems like there's a lot to cover, and I want to make sure everything is \
                       in good shape. I'll ensure I'm thorough with all these aspects!"@,
            }
}

/// Block 2 of the sample conversation.
pub open spec fn demo_message_2() -> MessageView {
    MessageView::AssistantText(
                "CI is failing because the required local/* status contexts are missing for the \
                 latest commit, not because those jobs found code failures. I'm running \
                 ./scripts/local-validate.sh 985 now so the local status contexts get posted \
                 for 95c58e7a4."@,
            )
}

/// Block 3 of the sample conversation.
pub open spec fn demo_message_3() -> MessageView {
    MessageView::ToolOutput {
                title: "Checks Rust formatting"@,
                command: "cargo fmt --all -- --check"@,
                output: seq!["(no output)"@],
                collapsed: false,
            }
}

/// Block 4 of the sample conversation.
pub open spec fn demo_message_4() -> MessageView {
    MessageView::ToolOutput {
                title: "Runs external agent ACP tests"@,
                command: "cargo test -p moltis-external-agents acp"@,
                output: seq![
                    "Blocking waiting for file lock on package cache"@,
                    " Compiling moltis-external-agents v0.1.0"@,
                    " Finished `test` profile [unoptimized + debuginfo] target(s) in 2.02s"@,
                    Seq::<char>::empty(),
                    "running 4 tests"@,
                    "test runtimes::acp::tests::prompt_response_end_turn_appends_done_event ... ok"@,
                    "test runtimes::acp::tests::streaming_text_produces_content_events ... ok"@,
                    "test runtimes::acp::tests::tool_call_round_trip ... ok"@,
                    "test runtimes::acp::tests::error_response_produces_error_event ... ok"@,
                    Seq::<char>::empty(),
                    "test result: ok. 4 passed; 0 failed; 0 ignored; 0 measured; 0 filtered out"@,
                ],
                collapsed: true,
            }
}

/// Block 5 of the sample conversation.
pub open spec fn demo_message_5() -> MessageView {
    MessageView::InlineResult {
                icon: "\u{2731}"@,
                label: "Glob \"crates/web/ui/e2e/specs/*.spec.js\" in . (49 matches)"@,
            }
}

/// Block 6 of the sample conversation.
pub open spec fn demo_message_6() -> MessageView {
    MessageView::InlineResult {
                icon: "\u{2731}"@,
                label: "Grep \"SessionHeader|session header\" in crates/web/ui/e2e (105 matches)"@,
            }
}

/// Block 7 of the sample conversation.
pub open spec fn demo_message_7() -> MessageView {
    MessageView::InlineResult {
                icon: "\u{2192}"@,
                label: "Read crates/web/ui/e2e/specs/agents.spec.js [offset=180, limit=90]"@,
            }
}

/// Block 8 of the sample conversation.
pub open spec fn demo_message_8() -> MessageView {
    MessageView::InlineResult {
                icon: "\u{2192}"@,
                label: "Read crates/web/ui/src/components/SessionHeader.tsx [offset=1, limit=220]"@,
            }
}

/// Block 9 of the sample conversation.
pub open spec fn demo_message_9() -> MessageView {
    MessageView::InlineResult {
                icon: "\u{25a3}"@,
                label: "Build \u{00b7} GPT-5.5"@,
            }
}

/// Block 10 of the sample conversation.
pub open spec fn demo_message_10() -> MessageView {
    MessageView::Error("Connection timed out after 30s"@)
}

/// Block 11 of the sample conversation.
pub open spec fn demo_message_11() -> MessageView {
    MessageView::Thinking {
                summary: "Planning deployment strategy"@,
                body: "The tests all pass and formatting looks good. Now I need to think about \
                       the deployment. We have staging and production environments, and the \
                       external agents changes are significant enough that we should do a staged \
                       rollout. Let me check the deployment configs first."@,
            }
}

/// Block 12 of the sample conversation.
pub open spec fn demo_message_12() -> MessageView {
    MessageView::ToolOutput {
                title: "Reads deployment configuration"@,
                command: "cat deploy/staging.toml"@,
                output: seq![
                    "[environment]"@,
                    "name = \"staging\""@,
                    "region = \"us-east-1\""@,
                    "replicas = 2"@,
                    Seq::<char>::empty(),
                    "[features]"@,
                    "external_agents = true"@,
                    "acp_runtime = true"@,
                    "codex_runtime = false"@,
                ],
                collapsed: false,
            }
}

/// Block 13 of the sample conversation.
pub open spec fn demo_message_13() -> MessageView {
    MessageView::AssistantText(
                "The staging configuration already has external_agents enabled but codex_runtime \
                 is disabled. Since this PR adds the codex runtime, we need to update the staging \
                 config before deploying."@,
            )
}

/// Block 14 of the sample conversation.
pub open spec fn demo_message_14() -> MessageView {
    MessageView::ToolOutput {
                title: "Runs integration tests against staging"@,
                command: "cargo test --test integration -- --env staging"@,
                output: seq![
                    " Compiling integration-tests v0.1.0"@,
                    " Finished `test` profile [unoptimized + debuginfo] target(s) in 8.34s"@,
                    Seq::<char>::empty(),
                    "running 12 tests"@,
                    "test staging::health_check ... ok"@,
                    "test staging::agent_creation ... ok"@,
                    "test staging::acp_handshake ... ok"@,
                    "test staging::tool_execution ... ok"@,
                    "test staging::streaming_response ... ok"@,
                    "test staging::error_recovery ... ok"@,
                    "test staging::rate_limiting ... ok"@,
                    "test staging::auth_token_refresh ... ok"@,
                    "test staging::concurrent_sessions ... ok"@,
                    "test staging::websocket_reconnect ... ok"@,
                    "test staging::message_ordering ... ok"@,
                    "test staging::graceful_shutdown ... ok"@,
                    Seq::<char>::empty(),
                    "test result: ok. 12 passed; 0 failed; 0 ignored; 0 measured; 0 filtered out"@,
                ],
                collapsed: true,
            }
}

/// Block 15 of the sample conversation.
pub open spec fn demo_message_15() -> MessageView {
    MessageView::AssistantText(
                "All tests pass across unit tests, integration tests, and E2E browser tests. \
                 The deployment is ready to proceed with the canary rollout strategy."@,
            )
}

/// Block 16 of the sample conversation.
pub open spec fn demo_message_16() -> MessageView {
    MessageView::InlineResult {
                icon: "\u{25a3}"@,
                label: "Build \u{00b7} GPT-5.5"@,
            }
}

/// The sample conversation shown at start-up.
pub open spec fn spec_demo_messages() -> Seq<MessageView> {
    seq![demo_message_0(), demo_message_1(), demo_message_2(), demo_message_3(), demo_message_4(), demo_message_5(), demo_message_6(), demo_message_7(), demo_message_8(), demo_message_9(), demo_message_10(), demo_message_11(), demo_message_12(), demo_message_13(), demo_message_14(), demo_message_15(), demo_message_16()]
}

/// The sample conversation shown at start-up.
pub fn demo_messages() -> (r: Vec<MessageBlock>)
    ensures
        r@.map_values(|m: MessageBlock| m@) == spec_demo_messages(),
{
    let out_0: Vec<String> = vec![
                    " Cargo.lock                                         | 106 +++-".to_owned(),
                    " Cargo.toml                                         |   3 +-".to_owned(),
                    " crates/config/src/template.rs                      |  10 +-".to_owned(),
                    " crates/config/src/validate/schema_map.rs           |  18 +".to_owned(),
                    " crates/external-agents/Cargo.toml                  |  29 +-".to_owned(),
                    " crates/external-agents/src/runtimes/acp.rs         | 681 ++++++++++++++++++++-".to_owned(),
                    " crates/external-agents/src/runtimes/claude_code.rs | 230 ++++++-".to_owned(),
                    " crates/external-agents/src/runtimes/codex.rs       | 448 +++++++++++++-".to_owned(),
                    " crates/external-agents/src/runtimes/mod.rs         |   2 +".to_owned(),
                    " crates/external-agents/src/types.rs                |  46 +-".to_owned(),
                    " crates/web/ui/src/components/SessionHeader.tsx      | 112 ++++".to_owned(),
                    " crates/web/ui/e2e/specs/agents.spec.js             |  89 +++".to_owned(),
                    " 12 files changed, 1774 insertions(+), 12 deletions(-)".to_owned(),
                ];
    assert(lines_view(out_0@) =~= seq![
                    " Cargo.lock                                         | 106 +++-"@,
                    " Cargo.toml                                         |   3 +-"@,
                    " crates/config/src/template.rs                      |  10 +-"@,
                    " crates/config/src/validate/schema_map.rs           |  18 +"@,
                    " crates/external-agents/Cargo.toml                  |  29 +-"@,
                    " crates/external-agents/src/runtimes/acp.rs         | 681 ++++++++++++++++++++-"@,
                    " crates/external-agents/src/runtimes/claude_code.rs | 230 ++++++-"@,
                    " crates/external-agents/src/runtimes/codex.rs       | 448 +++++++++++++-"@,
                    " crates/external-agents/src/runtimes/mod.rs         |   2 +"@,
                    " crates/external-agents/src/types.rs                |  46 +-"@,
                    " crates/web/ui/src/components/SessionHeader.tsx      | 112 ++++"@,
                    " crates/web/ui/e2e/specs/agents.spec.js             |  89 +++"@,
                    " 12 files changed, 1774 insertions(+), 12 deletions(-)"@,
                ]);
    let m_0 = MessageBlock::ToolOutput {
                title: "Summarizes tracked file diff".to_owned(),
                command: "git diff --stat".to_owned(),
                output: out_0,
                collapsed: true,
            };
    assert(m_0@ == demo_message_0());
    let m_1 = MessageBlock::Thinking {
                summary: "Considering system checks".to_owned(),
                body: "I need to run a format check and test external connections. I'm also thinking \
                       about checking the gateway and possibly linting the code. Full tests could be \
                       useful too. Oh, and what about the UI? Should I include that in my testing? \
                       It seems like there's a lot to cover, and I want to make sure everything is \
                       in good shape. I'll ensure I'm thorough with all these aspects!".to_owned(),
            };
    assert(m_1@ == demo_message_1());
    let m_2 = MessageBlock::AssistantText(
                "CI is failing because the required local/* status contexts are missing for the \
                 latest commit, not because those jobs found code failures. I'm running \
                 ./scripts/local-validate.sh 985 now so the local status contexts get posted \
                 for 95c58e7a4.".to_owned(),
            );
    assert(m_2@ == demo_message_2());
    let out_3: Vec<String> = vec!["(no output)".to_owned()];
    assert(lines_view(out_3@) =~= seq!["(no output)"@]);
    let m_3 = MessageBlock::ToolOutput {
                title: "Checks Rust formatting".to_owned(),
                command: "cargo fmt --all -- --check".to_owned(),
                output: out_3,
                collapsed: false,
            };
    assert(m_3@ == demo_message_3());
    let out_4: Vec<String> = vec![
                    "Blocking waiting for file lock on package cache".to_owned(),
                    " Compiling moltis-external-agents v0.1.0".to_owned(),
                    " Finished `test` profile [unoptimized + debuginfo] target(s) in 2.02s".to_owned(),
                    String::new(),
                    "running 4 tests".to_owned(),
                    "test runtimes::acp::tests::prompt_response_end_turn_appends_done_event ... ok".to_owned(),
                    "test runtimes::acp::tests::streaming_text_produces_content_events ... ok".to_owned(),
                    "test runtimes::acp::tests::tool_call_round_trip ... ok".to_owned(),
                    "test runtimes::acp::tests::error_response_produces_error_event ... ok".to_owned(),
                    String::new(),
                    "test result: ok. 4 passed; 0 failed; 0 ignored; 0 measured; 0 filtered out".to_owned(),
                ];
    assert(lines_view(out_4@) =~= seq![
                    "Blocking waiting for file lock on package cache"@,
                    " Compiling moltis-external-agents v0.1.0"@,
                    " Finished `test` profile [unoptimized + debuginfo] target(s) in 2.02s"@,
                    Seq::<char>::empty(),
                    "running 4 tests"@,
                    "test runtimes::acp::tests::prompt_response_end_turn_appends_done_event ... ok"@,
                    "test runtimes::acp::tests::streaming_text_produces_content_events ... ok"@,
                    "test runtimes::acp::tests::tool_call_round_trip ... ok"@,
                    "test runtimes::acp::tests::error_response_produces_error_event ... ok"@,
                    Seq::<char>::empty(),
                    "test result: ok. 4 passed; 0 failed; 0 ignored; 0 measured; 0 filtered out"@,
                ]);
    let m_4 = MessageBlock::ToolOutput {
                title: "Runs external agent ACP tests".to_owned(),
                command: "cargo test -p moltis-external-agents acp".to_owned(),
                output: out_4,
                collapsed: true,
            };
    assert(m_4@ == demo_message_4());
    let m_5 = MessageBlock::InlineResult {
                icon: "\u{2731}",
                label: "Glob \"crates/web/ui/e2e/specs/*.spec.js\" in . (49 matches)".to_owned(),
            };
    assert(m_5@ == demo_message_5());
    let m_6 = MessageBlock::InlineResult {
                icon: "\u{2731}",
                label: "Grep \"SessionHeader|session header\" in crates/web/ui/e2e (105 matches)".to_owned(),
            };
    assert(m_6@ == demo_message_6());
    let m_7 = MessageBlock::InlineResult {
                icon: "\u{2192}",
                label: "Read crates/web/ui/e2e/specs/agents.spec.js [offset=180, limit=90]".to_owned(),
            };
    assert(m_7@ == demo_message_7());
    let m_8 = MessageBlock::InlineResult {
                icon: "\u{2192}",
                label: "Read crates/web/ui/src/components/SessionHeader.tsx [offset=1, limit=220]".to_owned(),
            };
    assert(m_8@ == demo_message_8());
    let m_9 = MessageBlock::InlineResult {
                icon: "\u{25a3}",
                label: "Build \u{00b7} GPT-5.5".to_owned(),
            };
    assert(m_9@ == demo_message_9());
    let m_10 = MessageBlock::Error("Connection timed out after 30s".to_owned());
    assert(m_10@ == demo_message_10());
    let m_11 = MessageBlock::Thinking {
                summary: "Planning deployment strategy".to_owned(),
                body: "The tests all pass and formatting looks good. Now I need to think about \
                       the deployment. We have staging and production environments, and the \
                       external agents changes are significant enough that we should do a staged \
                       rollout. Let me check the deployment configs first.".to_owned(),
            };
    assert(m_11@ == demo_message_11());
    let out_12: Vec<String> = vec![
                    "[environment]".to_owned(),
                    "name = \"staging\"".to_owned(),
                    "region = \"us-east-1\"".to_owned(),
                    "replicas = 2".to_owned(),
                    String::new(),
                    "[features]".to_owned(),
                    "external_agents = true".to_owned(),
                    "acp_runtime = true".to_owned(),
                    "codex_runtime = false".to_owned(),
                ];
    assert(lines_view(out_12@) =~= seq![
                    "[environment]"@,
                    "name = \"staging\""@,
                    "region = \"us-east-1\""@,
                    "replicas = 2"@,
                    Seq::<char>::empty(),
                    "[features]"@,
                    "external_agents = true"@,
                    "acp_runtime = true"@,
                    "codex_runtime = false"@,
                ]);
    let m_12 = MessageBlock::ToolOutput {
                title: "Reads deployment configuration".to_owned(),
                command: "cat deploy/staging.toml".to_owned(),
                output: out_12,
                collapsed: false,
            };
    assert(m_12@ == demo_message_12());
    let m_13 = MessageBlock::AssistantText(
                "The staging configuration already has external_agents enabled but codex_runtime \
                 is disabled. Since this PR adds the codex runtime, we need to update the staging \
                 config before deploying.".to_owned(),
            );
    assert(m_13@ == demo_message_13());
    let out_14: Vec<String> = vec![
                    " Compiling integration-tests v0.1.0".to_owned(),
                    " Finished `test` profile [unoptimized + debuginfo] target(s) in 8.34s".to_owned(),
                    String::new(),
                    "running 12 tests".to_owned(),
                    "test staging::health_check ... ok".to_owned(),
                    "test staging::agent_creation ... ok".to_owned(),
                    "test staging::acp_handshake ... ok".to_owned(),
                    "test staging::tool_execution ... ok".to_owned(),
                    "test staging::streaming_response ... ok".to_owned(),
                    "test staging::error_recovery ... ok".to_owned(),
                    "test staging::rate_limiting ... ok".to_owned(),
                    "test staging::auth_token_refresh ... ok".to_owned(),
                    "test staging::concurrent_sessions ... ok".to_owned(),
                    "test staging::websocket_reconnect ... ok".to_owned(),
                    "test staging::message_ordering ... ok".to_owned(),
                    "test staging::graceful_shutdown ... ok".to_owned(),
                    String::new(),
                    "test result: ok. 12 passed; 0 failed; 0 ignored; 0 measured; 0 filtered out".to_owned(),
                ];
    assert(lines_view(out_14@) =~= seq![
                    " Compiling integration-tests v0.1.0"@,
                    " Finished `test` profile [unoptimized + debuginfo] target(s) in 8.34s"@,
                    Seq::<char>::empty(),
                    "running 12 tests"@,
                    "test staging::health_check ... ok"@,
                    "test staging::agent_creation ... ok"@,
                    "test staging::acp_handshake ... ok"@,
                    "test staging::tool_execution ... ok"@,
                    "test staging::streaming_response ... ok"@,
                    "test staging::error_recovery ... ok"@,
                    "test staging::rate_limiting ... ok"@,
                    "test staging::auth_token_refresh ... ok"@,
                    "test staging::concurrent_sessions ... ok"@,
                    "test staging::websocket_reconnect ... ok"@,
                    "test staging::message_ordering ... ok"@,
                    "test staging::graceful_shutdown ... ok"@,
                    Seq::<char>::empty(),
                    "test result: ok. 12 passed; 0 failed; 0 ignored; 0 measured; 0 filtered out"@,
                ]);
    let m_14 = MessageBlock::ToolOutput {
                title: "Runs integration tests against staging".to_owned(),
                command: "cargo test --test integration -- --env staging".to_owned(),
                output: out_14,
                collapsed: true,
            };
    assert(m_14@ == demo_message_14());
    let m_15 = MessageBlock::AssistantText(
                "All tests pass across unit tests, integration tests, and E2E browser tests. \
                 The deployment is ready to proceed with the canary rollout strategy.".to_owned(),
            );
    assert(m_15@ == demo_message_15());
    let m_16 = MessageBlock::InlineResult {
                icon: "\u{25a3}",
                label: "Build \u{00b7} GPT-5.5".to_owned(),
            };
    assert(m_16@ == demo_message_16());
    let r = vec![m_0, m_1, m_2, m_3, m_4, m_5, m_6, m_7, m_8, m_9, m_10, m_11, m_12, m_13, m_14, m_15, m_16];
    assert(r@.map_values(|m: MessageBlock| m@) =~= spec_demo_messages());
    r
}

} // verus!
