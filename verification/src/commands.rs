//! The command palette and slash-command tables, and their search filters.
use vstd::prelude::*;

use crate::text::{
    ascii_lower, ascii_lower_char, ascii_upper, ascii_upper_char, contains, has_infix, has_prefix,
    is_ascii_text, lowercased, starts_with, str_eq,
};

verus! {

/// An entry of the command palette.
#[derive(Clone, Copy, Debug)]
pub struct Command {
    pub name: &'static str,
    pub shortcut: &'static str,
    pub section: &'static str,
}

/// An entry of the slash-command menu.
#[derive(Clone, Copy, Debug)]
pub struct SlashCommand {
    pub name: &'static str,
    pub description: &'static str,
}

/// The most rows the slash-command menu shows at once.
pub const SLASH_MAX_VISIBLE: u16 = 10;

/// The palette's commands, in display order.
pub open spec fn spec_commands() -> Seq<Command> {
    seq![
        Command { name: "Share session", shortcut: "session_share", section: "Suggested" },
        Command { name: "Switch session", shortcut: "ctrl+x l", section: "Session" },
        Command { name: "New session", shortcut: "ctrl+x n", section: "Session" },
        Command { name: "Switch model", shortcut: "ctrl+x m", section: "Session" },
        Command { name: "Open editor", shortcut: "ctrl+x e", section: "Session" },
        Command { name: "Rename session", shortcut: "ctrl+r", section: "Session" },
        Command { name: "Jump to message", shortcut: "ctrl+x g", section: "Session" },
        Command { name: "Fork session", shortcut: "session_fork", section: "Session" },
        Command { name: "Compact session", shortcut: "ctrl+x c", section: "Session" },
        Command { name: "Undo previous message", shortcut: "ctrl+x u", section: "Session" },
        Command { name: "Show sidebar", shortcut: "ctrl+x b", section: "Session" },
        Command { name: "Disable code concealment", shortcut: "ctrl+x h", section: "Session" },
    ]
}

/// The slash commands, in display order.
pub open spec fn spec_slash_commands() -> Seq<SlashCommand> {
    seq![
        SlashCommand { name: "/agents", description: "Switch agent" },
        SlashCommand { name: "/compact", description: "Compact session" },
        SlashCommand { name: "/connect", description: "Connect provider" },
        SlashCommand { name: "/copy", description: "Copy session transcript" },
        SlashCommand { name: "/editor", description: "Open editor" },
        SlashCommand { name: "/exit", description: "Exit the app" },
        SlashCommand { name: "/export", description: "Export session transcript" },
        SlashCommand { name: "/fork", description: "Fork session" },
        SlashCommand { name: "/help", description: "Help" },
        SlashCommand { name: "/init", description: "guided AGENTS.md setup" },
        SlashCommand { name: "/model", description: "Switch model" },
        SlashCommand { name: "/plan", description: "Toggle plan mode" },
        SlashCommand { name: "/redo", description: "Redo reverted message" },
        SlashCommand { name: "/rename", description: "Rename session" },
        SlashCommand { name: "/share", description: "Share session" },
        SlashCommand { name: "/themes", description: "Switch color theme" },
        SlashCommand { name: "/thinking", description: "Toggle thinking display" },
        SlashCommand { name: "/timeline", description: "Jump to message" },
        SlashCommand { name: "/timestamps", description: "Toggle timestamps" },
        SlashCommand { name: "/undo", description: "Undo previous message" },
        SlashCommand { name: "/unshare", description: "Unshare session" },
        SlashCommand { name: "/variants", description: "Switch model variant" },
    ]
}

/// The palette's commands, in display order.
pub fn commands() -> (r: Vec<Command>)
    ensures
        r@ == spec_commands(),
{
    let r = vec![
        Command { name: "Share session", shortcut: "session_share", section: "Suggested" },
        Command { name: "Switch session", shortcut: "ctrl+x l", section: "Session" },
        Command { name: "New session", shortcut: "ctrl+x n", section: "Session" },
        Command { name: "Switch model", shortcut: "ctrl+x m", section: "Session" },
        Command { name: "Open editor", shortcut: "ctrl+x e", section: "Session" },
        Command { name: "Rename session", shortcut: "ctrl+r", section: "Session" },
        Command { name: "Jump to message", shortcut: "ctrl+x g", section: "Session" },
        Command { name: "Fork session", shortcut: "session_fork", section: "Session" },
        Command { name: "Compact session", shortcut: "ctrl+x c", section: "Session" },
        Command { name: "Undo previous message", shortcut: "ctrl+x u", section: "Session" },
        Command { name: "Show sidebar", shortcut: "ctrl+x b", section: "Session" },
        Command { name: "Disable code concealment", shortcut: "ctrl+x h", section: "Session" },
    ];
    assert(r@ == spec_commands());
    r
}

/// The slash commands, in display order.
pub fn slash_commands() -> (r: Vec<SlashCommand>)
    ensures
        r@ == spec_slash_commands(),
{
    let r = vec![
        SlashCommand { name: "/agents", description: "Switch agent" },
        SlashCommand { name: "/compact", description: "Compact session" },
        SlashCommand { name: "/connect", description: "Connect provider" },
        SlashCommand { name: "/copy", description: "Copy session transcript" },
        SlashCommand { name: "/editor", description: "Open editor" },
        SlashCommand { name: "/exit", description: "Exit the app" },
        SlashCommand { name: "/export", description: "Export session transcript" },
        SlashCommand { name: "/fork", description: "Fork session" },
        SlashCommand { name: "/help", description: "Help" },
        SlashCommand { name: "/init", description: "guided AGENTS.md setup" },
        SlashCommand { name: "/model", description: "Switch model" },
        SlashCommand { name: "/plan", description: "Toggle plan mode" },
        SlashCommand { name: "/redo", description: "Redo reverted message" },
        SlashCommand { name: "/rename", description: "Rename session" },
        SlashCommand { name: "/share", description: "Share session" },
        SlashCommand { name: "/themes", description: "Switch color theme" },
        SlashCommand { name: "/thinking", description: "Toggle thinking display" },
        SlashCommand { name: "/timeline", description: "Jump to message" },
        SlashCommand { name: "/timestamps", description: "Toggle timestamps" },
        SlashCommand { name: "/undo", description: "Undo previous message" },
        SlashCommand { name: "/unshare", description: "Unshare session" },
        SlashCommand { name: "/variants", description: "Switch model variant" },
    ];
    assert(r@ == spec_slash_commands());
    r
}

/// Whether a slash command whose lowercased name is `lower_name` is offered for the
/// lowercased query `q`: the name starts with the query, or the query is a lone `/`.
pub open spec fn slash_name_matches(lower_name: Seq<char>, q: Seq<char>) -> bool {
    has_prefix(lower_name, q) || q == seq!['/']
}

/// Whether `c` is offered in the slash menu for the typed `input`.
pub open spec fn slash_matches(c: SlashCommand, input: Seq<char>) -> bool {
    slash_name_matches(lowercased(c.name@), lowercased(input))
}

/// The slash commands offered for the typed `input`, in table order.
pub open spec fn spec_filtered_slash_commands(input: Seq<char>) -> Seq<SlashCommand> {
    spec_slash_commands().filter(|c: SlashCommand| slash_matches(c, input))
}

/// Whether a palette command whose lowercased name is `lower_name` matches the
/// lowercased search `q`: the search occurs inside the name.
pub open spec fn command_name_matches(lower_name: Seq<char>, q: Seq<char>) -> bool {
    has_infix(lower_name, q)
}

/// Whether `c` is listed in the palette for the typed `search`.
pub open spec fn command_matches(c: Command, search: Seq<char>) -> bool {
    command_name_matches(lowercased(c.name@), lowercased(search))
}

/// The palette commands listed for `search`: all of them for an empty search,
/// else those whose name contains the search, ignoring case.
pub open spec fn spec_filtered_commands(search: Seq<char>) -> Seq<Command> {
    if search.len() == 0 {
        spec_commands()
    } else {
        spec_commands().filter(|c: Command| command_matches(c, search))
    }
}

/// Decides the slash-menu match on already lowercased text.
pub fn slash_query_matches(lower_name: &str, q: &str) -> (b: bool)
    ensures
        b == slash_name_matches(lower_name@, q@),
{
    let slash = "/";
    proof {
        reveal_strlit("/");
        assert(slash@ =~= seq!['/']);
    }
    starts_with(lower_name, q) || str_eq(q, slash)
}

/// Decides the palette match on already lowercased text.
pub fn command_query_matches(lower_name: &str, q: &str) -> (b: bool)
    ensures
        b == command_name_matches(lower_name@, q@),
{
    contains(lower_name, q)
}

/// The slash commands offered while `input` is typed: those whose name starts
/// with the input, ignoring case, or all of them for a lone `/`.
pub fn filtered_slash_commands(input: &str) -> (r: Vec<SlashCommand>)
    ensures
        r@ == spec_filtered_slash_commands(input@),
{
    let q = input.to_lowercase();
    let table = slash_commands();
    let ghost pred = |c: SlashCommand| slash_matches(c, input@);
    let mut r: Vec<SlashCommand> = Vec::new();
    let n = table.len();
    for i in 0..n
        invariant
            n == table@.len(),
            table@ == spec_slash_commands(),
            q@ == lowercased(input@),
            pred == (|c: SlashCommand| slash_matches(c, input@)),
            r@ == table@.take(i as int).filter(pred),
    {
        let c = table[i];
        let lower_name = c.name.to_lowercase();
        let keep = slash_query_matches(lower_name.as_str(), q.as_str());
        proof {
            reveal(Seq::filter);
            assert(table@.take(i + 1).drop_last() =~= table@.take(i as int));
        }
        if keep {
            r.push(c);
        }
    }
    assert(table@.take(n as int) =~= table@);
    r
}

/// The palette commands listed for `search`: all of them when it is empty,
/// else those whose name contains it, ignoring case.
pub fn filtered_commands(search: &str) -> (r: Vec<Command>)
    ensures
        r@ == spec_filtered_commands(search@),
{
    let table = commands();
    if search.is_empty() {
        return table;
    }
    let q = search.to_lowercase();
    let ghost pred = |c: Command| command_matches(c, search@);
    let mut r: Vec<Command> = Vec::new();
    let n = table.len();
    for i in 0..n
        invariant
            n == table@.len(),
            table@ == spec_commands(),
            q@ == lowercased(search@),
            pred == (|c: Command| command_matches(c, search@)),
            r@ == table@.take(i as int).filter(pred),
    {
        let c = table[i];
        let lower_name = c.name.to_lowercase();
        let keep = command_query_matches(lower_name.as_str(), q.as_str());
        proof {
            reveal(Seq::filter);
            assert(table@.take(i + 1).drop_last() =~= table@.take(i as int));
        }
        if keep {
            r.push(c);
        }
    }
    assert(table@.take(n as int) =~= table@);
    r
}

/// The row at which the palette lists command `c`, given the next free row `cy`
/// and the section of the command before it: a new section first takes a blank
/// row (unless it is the first section) and a header row.
pub open spec fn palette_row_at(c: Command, cy: int, last_section: Seq<char>) -> int {
    if c.section@ != last_section {
        cy + (if last_section.len() != 0 {
            1int
        } else {
            0int
        }) + 1
    } else {
        cy
    }
}

/// The next free row and the current section after laying out the first `n`
/// commands of `f` from row `list_y`.
pub open spec fn palette_walk(f: Seq<Command>, list_y: int, n: int) -> (int, Seq<char>)
    decreases n,
{
    if n <= 0 {
        (list_y, Seq::empty())
    } else {
        let (cy, last) = palette_walk(f, list_y, n - 1);
        (palette_row_at(f[n - 1], cy, last) + 1, f[n - 1].section@)
    }
}

/// The row at which the palette lists command `i` of `f` when the list starts at
/// row `list_y`.
pub open spec fn palette_item_row(f: Seq<Command>, list_y: int, i: int) -> int {
    let (cy, last) = palette_walk(f, list_y, i);
    palette_row_at(f[i], cy, last)
}

/// The first command from position `i` on that the palette lists at `row`.
pub open spec fn palette_hit_from(f: Seq<Command>, list_y: int, row: int, i: int) -> Option<int>
    decreases f.len() - i,
{
    if i < 0 || i >= f.len() {
        None
    } else if palette_item_row(f, list_y, i) == row {
        Some(i)
    } else {
        palette_hit_from(f, list_y, row, i + 1)
    }
}

/// The command that the palette lists at `row`, if any.
pub open spec fn palette_hit(f: Seq<Command>, list_y: int, row: int) -> Option<int> {
    palette_hit_from(f, list_y, row, 0)
}

/// Whether finding the command at `row` stays within `u16` rows: every row
/// computed before the hit, and the one after each miss, fits.
pub open spec fn palette_hit_fits(f: Seq<Command>, list_y: int, row: int) -> bool {
    forall|j: int|
        0 <= j < f.len() && (forall|k: int| 0 <= k < j ==> palette_item_row(f, list_y, k) != row)
            ==> {
            &&& #[trigger] palette_item_row(f, list_y, j) <= u16::MAX
            &&& palette_item_row(f, list_y, j) != row ==> palette_item_row(f, list_y, j) + 1
                <= u16::MAX
        }
}

/// Filtering by a narrower condition keeps no more items, and only items that
/// the wider condition keeps.
proof fn lemma_filter_narrower<A>(s: Seq<A>, p: spec_fn(A) -> bool, q: spec_fn(A) -> bool)
    requires
        forall|a: A| #[trigger] q(a) ==> p(a),
    ensures
        s.filter(q).len() <= s.filter(p).len(),
        forall|a: A| #[trigger] s.filter(q).contains(a) ==> s.filter(p).contains(a) && s.contains(a),
    decreases s.len(),
{
    reveal(Seq::filter);
    if s.len() > 0 {
        let t = s.drop_last();
        lemma_filter_narrower(t, p, q);
        let x = s.last();
        assert(s =~= t.push(x));
        assert forall|a: A| #[trigger] s.filter(q).contains(a) implies s.filter(p).contains(a)
            && s.contains(a) by {
            if q(x) {
                assert(s.filter(q) == t.filter(q).push(x));
                assert(s.filter(p) == t.filter(p).push(x));
                if a != x {
                    let i = choose|i: int| 0 <= i < s.filter(q).len() && s.filter(q)[i] == a;
                    assert(t.filter(q)[i] == a);
                    assert(t.filter(q).contains(a));
                    let j = choose|j: int| 0 <= j < t.filter(p).len() && t.filter(p)[j] == a;
                    assert(s.filter(p)[j] == a);
                    let k = choose|k: int| 0 <= k < t.len() && t[k] == a;
                    assert(s[k] == a);
                } else {
                    assert(s.filter(p)[s.filter(p).len() - 1] == x);
                    assert(s[s.len() - 1] == x);
                }
            } else {
                assert(s.filter(q) == t.filter(q));
                let j = choose|j: int| 0 <= j < t.filter(p).len() && t.filter(p)[j] == a;
                if p(x) {
                    assert(s.filter(p) == t.filter(p).push(x));
                } else {
                    assert(s.filter(p) == t.filter(p));
                }
                assert(s.filter(p)[j] == a);
                let k = choose|k: int| 0 <= k < t.len() && t[k] == a;
                assert(s[k] == a);
            }
        }
    }
}

/// The slash menu ignores case: two inputs that lowercase alike offer the same
/// commands.
pub proof fn law_slash_filter_ignores_case(i1: Seq<char>, i2: Seq<char>)
    requires
        lowercased(i1) == lowercased(i2),
    ensures
        spec_filtered_slash_commands(i1) == spec_filtered_slash_commands(i2),
{
    let p1 = |c: SlashCommand| slash_matches(c, i1);
    let p2 = |c: SlashCommand| slash_matches(c, i2);
    assert(p1 =~= p2);
}

/// The palette ignores case: two searches that lowercase alike, both empty or
/// both not, list the same commands.
pub proof fn law_palette_filter_ignores_case(s1: Seq<char>, s2: Seq<char>)
    requires
        lowercased(s1) == lowercased(s2),
        s1.len() == 0 <==> s2.len() == 0,
    ensures
        spec_filtered_commands(s1) == spec_filtered_commands(s2),
{
    let p1 = |c: Command| command_matches(c, s1);
    let p2 = |c: Command| command_matches(c, s2);
    assert(p1 =~= p2);
}

/// The slash menu narrows as the input grows: when the lowercased longer input
/// starts with the lowercased shorter one, every command it offers is offered
/// for the shorter one too, and there are no more of them.
pub proof fn law_slash_filter_narrows(i1: Seq<char>, i2: Seq<char>)
    requires
        has_prefix(lowercased(i2), lowercased(i1)),
    ensures
        spec_filtered_slash_commands(i2).len() <= spec_filtered_slash_commands(i1).len(),
        forall|c: SlashCommand| #[trigger] spec_filtered_slash_commands(i2).contains(c)
            ==> spec_filtered_slash_commands(i1).contains(c),
{
    let q1 = lowercased(i1);
    let q2 = lowercased(i2);
    let p1 = |c: SlashCommand| slash_matches(c, i1);
    let p2 = |c: SlashCommand| slash_matches(c, i2);
    assert forall|c: SlashCommand| #[trigger] p2(c) implies p1(c) by {
        let n = lowercased(c.name@);
        if has_prefix(n, q2) {
            assert(n.subrange(0, q1.len() as int) =~= q2.subrange(0, q1.len() as int));
        } else {
            assert(q2 == seq!['/']);
            if q1.len() == 0 {
                assert(n.subrange(0, 0) =~= q1);
            } else {
                assert(q1 =~= seq!['/']);
            }
        }
    }
    lemma_filter_narrower(spec_slash_commands(), p1, p2);
}

/// The palette narrows as the search grows: when the lowercased longer search
/// contains the lowercased shorter one, every command it lists is listed for
/// the shorter one too, and there are no more of them.
pub proof fn law_palette_filter_narrows(s1: Seq<char>, s2: Seq<char>)
    requires
        s2.len() > 0,
        has_infix(lowercased(s2), lowercased(s1)),
    ensures
        spec_filtered_commands(s2).len() <= spec_filtered_commands(s1).len(),
        forall|c: Command| #[trigger] spec_filtered_commands(s2).contains(c)
            ==> spec_filtered_commands(s1).contains(c),
{
    let q1 = lowercased(s1);
    let q2 = lowercased(s2);
    let p1 = |c: Command| command_matches(c, s1);
    let p2 = |c: Command| command_matches(c, s2);
    let all = |c: Command| true;
    if s1.len() == 0 {
        lemma_filter_narrower(spec_commands(), all, p2);
        assert(spec_commands().filter(all).len() <= spec_commands().len()) by {
            spec_commands().filter_lemma(all);
        }
    } else {
        assert forall|c: Command| #[trigger] p2(c) implies p1(c) by {
            let n = lowercased(c.name@);
            let i = choose|i: int|
                0 <= i && i + q2.len() <= n.len() && #[trigger] n.subrange(i, i + q2.len()) == q2;
            let j = choose|j: int|
                0 <= j && j + q1.len() <= q2.len() && #[trigger] q2.subrange(j, j + q1.len()) == q1;
            assert(n.subrange(i + j, i + j + q1.len()) =~= q1);
        }
        lemma_filter_narrower(spec_commands(), p1, p2);
    }
}

/// Upper-casing ASCII text keeps it ASCII, of the same length, and lowercases
/// it to the same text as before.
proof fn lemma_ascii_upper(s: Seq<char>)
    requires
        is_ascii_text(s),
    ensures
        is_ascii_text(ascii_upper(s)),
        ascii_upper(s).len() == s.len(),
        ascii_lower(ascii_upper(s)) == ascii_lower(s),
{
    let u = ascii_upper(s);
    assert forall|i: int| 0 <= i < u.len() implies (#[trigger] u[i] as u32) < 0x80 by {
        assert(u[i] == ascii_upper_char(s[i]));
        assert((s[i] as u32) < 0x80);
    }
    assert forall|i: int| 0 <= i < s.len() implies #[trigger] ascii_lower(u)[i] == ascii_lower(s)[i] by {
        let c = s[i];
        assert(u[i] == ascii_upper_char(c));
        assert(ascii_lower_char(ascii_upper_char(c)) == ascii_lower_char(c));
    }
    assert(ascii_lower(u) =~= ascii_lower(s));
}

/// A piece of ASCII text is ASCII, and lowercasing keeps it a piece at the
/// same place.
proof fn lemma_ascii_piece(whole: Seq<char>, piece: Seq<char>, at: int)
    requires
        is_ascii_text(whole),
        0 <= at,
        at + piece.len() <= whole.len(),
        whole.subrange(at, at + piece.len()) == piece,
    ensures
        is_ascii_text(piece),
        ascii_lower(whole).subrange(at, at + piece.len()) == ascii_lower(piece),
{
    assert forall|i: int| 0 <= i < piece.len() implies (#[trigger] piece[i] as u32) < 0x80 by {
        assert(piece[i] == whole[at + i]);
        assert((whole[at + i] as u32) < 0x80);
    }
    assert(ascii_lower(whole).subrange(at, at + piece.len()) =~= ascii_lower(piece));
}

/// For ASCII input the slash menu ignores case: upper-casing the input offers
/// the same commands.
pub proof fn law_slash_filter_ascii_case(input: Seq<char>)
    requires
        is_ascii_text(input),
    ensures
        spec_filtered_slash_commands(ascii_upper(input)) == spec_filtered_slash_commands(input),
{
    lemma_ascii_upper(input);
    law_slash_filter_ignores_case(ascii_upper(input), input);
}

/// For ASCII input the palette ignores case: upper-casing the search lists the
/// same commands.
pub proof fn law_palette_filter_ascii_case(search: Seq<char>)
    requires
        is_ascii_text(search),
    ensures
        spec_filtered_commands(ascii_upper(search)) == spec_filtered_commands(search),
{
    lemma_ascii_upper(search);
    law_palette_filter_ignores_case(ascii_upper(search), search);
}

/// Typing more never adds to the slash menu: for ASCII input that extends a
/// shorter input, every command offered is offered for the shorter one too, and
/// there are no more of them.
pub proof fn law_slash_filter_ascii_narrows(shorter: Seq<char>, longer: Seq<char>)
    requires
        is_ascii_text(longer),
        has_prefix(longer, shorter),
    ensures
        spec_filtered_slash_commands(longer).len() <= spec_filtered_slash_commands(shorter).len(),
        forall|c: SlashCommand| #[trigger] spec_filtered_slash_commands(longer).contains(c)
            ==> spec_filtered_slash_commands(shorter).contains(c),
{
    lemma_ascii_piece(longer, shorter, 0);
    law_slash_filter_narrows(shorter, longer);
}

/// Typing more never adds to the palette: for an ASCII search that contains a
/// shorter search, every command listed is listed for the shorter one too, and
/// there are no more of them.
pub proof fn law_palette_filter_ascii_narrows(shorter: Seq<char>, longer: Seq<char>)
    requires
        longer.len() > 0,
        is_ascii_text(longer),
        has_infix(longer, shorter),
    ensures
        spec_filtered_commands(longer).len() <= spec_filtered_commands(shorter).len(),
        forall|c: Command| #[trigger] spec_filtered_commands(longer).contains(c)
            ==> spec_filtered_commands(shorter).contains(c),
{
    let at = choose|i: int|
        0 <= i && i + shorter.len() <= longer.len() && #[trigger] longer.subrange(i, i + shorter.len())
            == shorter;
    lemma_ascii_piece(longer, shorter, at);
    let ls = ascii_lower(shorter);
    assert(ascii_lower(longer).subrange(at, at + ls.len()) == ls);
    assert(has_infix(lowercased(longer), lowercased(shorter)));
    law_palette_filter_narrows(shorter, longer);
}

} // verus!
