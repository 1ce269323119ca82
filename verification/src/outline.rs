//! The outline of a note: headers, list items, paragraphs and code blocks,
//! nested under the note title by header level.
use vstd::prelude::*;
use crate::text::{
    chars_of, eq_lit, is_ascii_digit, is_digit, is_whitespace, is_ws, lemma_trim_start_skip, lines_seq, nl_index,
    skip_ws, split_lines, starts_with, starts_with_lit, string_of, sub_vec, trim_seq,
    trim_start_seq, trimmed_range, views,
};

verus! {

/// What one outline entry is.
#[derive(Debug, Clone, PartialEq, Eq)]
pub enum NodeKind {
    Header { level: u8, title: String },
    ListItem { text: String },
    Paragraph { preview: String, full_text: String },
    CodeBlock { lang: String, code: String },
}

/// One entry of a note outline.
#[derive(Debug, Clone, PartialEq, Eq)]
pub struct TreeNode {
    pub kind: NodeKind,
    /// 0 for the note-title root.
    pub depth: usize,
    /// 1-based source line to jump to.
    pub line: usize,
    pub has_children: bool,
}

/// The model of a `NodeKind`: its texts as character sequences.
pub enum NodeKindV {
    Header { level: u8, title: Seq<char> },
    ListItem { text: Seq<char> },
    Paragraph { preview: Seq<char>, full_text: Seq<char> },
    CodeBlock { lang: Seq<char>, code: Seq<char> },
}

/// The model of a `TreeNode`.
pub struct TreeNodeV {
    pub kind: NodeKindV,
    pub depth: nat,
    pub line: nat,
    pub has_children: bool,
}

impl View for NodeKind {
    type V = NodeKindV;

    open spec fn view(&self) -> NodeKindV {
        match self {
            NodeKind::Header { level, title } => NodeKindV::Header { level: *level, title: title@ },
            NodeKind::ListItem { text } => NodeKindV::ListItem { text: text@ },
            NodeKind::Paragraph { preview, full_text } => NodeKindV::Paragraph {
                preview: preview@,
                full_text: full_text@,
            },
            NodeKind::CodeBlock { lang, code } => NodeKindV::CodeBlock { lang: lang@, code: code@ },
        }
    }
}

impl View for TreeNode {
    type V = TreeNodeV;

    open spec fn view(&self) -> TreeNodeV {
        TreeNodeV {
            kind: self.kind@,
            depth: self.depth as nat,
            line: self.line as nat,
            has_children: self.has_children,
        }
    }
}

/// Outline nodes as values.
pub open spec fn node_views(v: Seq<TreeNode>) -> Seq<TreeNodeV> {
    v.map_values(|n: TreeNode| n@)
}

/// The text that a node stands for: a header's title, a list item's text,
/// a paragraph's full text, a code block's code.
pub open spec fn full_text_of(k: NodeKindV) -> Seq<char> {
    match k {
        NodeKindV::Header { title, .. } => title,
        NodeKindV::ListItem { text } => text,
        NodeKindV::Paragraph { full_text, .. } => full_text,
        NodeKindV::CodeBlock { code, .. } => code,
    }
}

impl TreeNode {
    /// The full text of this node.
    pub fn full_text(&self) -> (r: &str)
        ensures
            r@ == full_text_of(self.kind@),
    {
        match &self.kind {
            NodeKind::Header { title, .. } => title.as_str(),
            NodeKind::ListItem { text } => text.as_str(),
            NodeKind::Paragraph { full_text, .. } => full_text.as_str(),
            NodeKind::CodeBlock { code, .. } => code.as_str(),
        }
    }
}

// ---------------------------------------------------------------------------
// The outline as a function of the note text
// ---------------------------------------------------------------------------

/// The state of the outline scan after some lines.
pub struct OutlineState {
    pub nodes: Seq<TreeNodeV>,
    /// Levels of the open headers, outermost first.
    pub stack: Seq<u8>,
    /// An open code block: its first line, language and code so far.
    pub code: Option<(nat, Seq<char>, Seq<char>)>,
    /// An open paragraph: its first line and its text so far.
    pub para: Option<(nat, Seq<char>)>,
}

/// A paragraph preview: at most 60 characters, with `'…'` appended when
/// the text was cut.
pub open spec fn truncate_seq(s: Seq<char>) -> Seq<char> {
    if s.len() > 60 {
        s.take(60).push('…')
    } else {
        s
    }
}

/// The first line of `s` (empty when `s` has no lines).
pub open spec fn first_line(s: Seq<char>) -> Seq<char> {
    if lines_seq(s).len() > 0 {
        lines_seq(s)[0]
    } else {
        seq![]
    }
}

/// The paragraph being read, if any, closed into a node.
pub open spec fn close_para(st: OutlineState) -> OutlineState {
    match st.para {
        Some((line, full)) => OutlineState {
            nodes: st.nodes.push(
                TreeNodeV {
                    kind: NodeKindV::Paragraph { preview: truncate_seq(first_line(full)), full_text: full },
                    depth: st.stack.len() + 1,
                    line: line,
                    has_children: false,
                },
            ),
            para: None,
            ..st
        },
        None => st,
    }
}

/// Number of leading `'#'` of `t`.
pub open spec fn hash_run(t: Seq<char>) -> nat
    decreases t.len(),
{
    if t.len() > 0 && t[0] == '#' {
        1 + hash_run(t.drop_first())
    } else {
        0
    }
}

/// Number of leading ASCII digits of `t`.
pub open spec fn digit_run(t: Seq<char>) -> nat
    decreases t.len(),
{
    if t.len() > 0 && is_digit(t[0]) {
        1 + digit_run(t.drop_first())
    } else {
        0
    }
}

/// An ATX header: one to six `'#'`, then white space or the end of the line.
pub open spec fn is_header(t: Seq<char>) -> bool {
    let h = hash_run(t);
    1 <= h <= 6 && (t.len() == h || is_ws(t[h as int]))
}

/// The title of a header line: what follows the `#` run, trimmed.
pub open spec fn header_title(t: Seq<char>) -> Seq<char> {
    let h = hash_run(t);
    if t.len() > h {
        trim_seq(t.skip(h as int + 1))
    } else {
        seq![]
    }
}

/// A line that opens or closes a code block.
pub open spec fn is_fence(t: Seq<char>) -> bool {
    starts_with(t, "```"@) || starts_with(t, "~~~"@)
}

/// The open headers left after a header of level `h`: every open header
/// of level `h` or deeper is closed.
pub open spec fn pop_ge(stack: Seq<u8>, h: u8) -> Seq<u8>
    decreases stack.len(),
{
    if stack.len() > 0 && stack.last() >= h {
        pop_ge(stack.drop_last(), h)
    } else {
        stack
    }
}

/// The text of a list item line: `- `, `* `, `+ ` (or the bare marker), or
/// digits followed by `.` or `)` and then white space or the end of the line.
pub open spec fn list_text(t: Seq<char>) -> Option<Seq<char>> {
    if starts_with(t, "- "@) || starts_with(t, "* "@) || starts_with(t, "+ "@) || t == "-"@ || t
        == "*"@ || t == "+"@ {
        Some(
            if t.len() >= 2 {
                trim_seq(t.skip(2))
            } else {
                seq![]
            },
        )
    } else {
        let d = digit_run(t);
        if d > 0 && d < t.len() && (t[d as int] == '.' || t[d as int] == ')') && (t.len() == d + 1
            || is_ws(t[d as int + 1])) {
            Some(
                if t.len() > d + 1 {
                    trim_seq(t.skip(d as int + 2))
                } else {
                    seq![]
                },
            )
        } else {
            None
        }
    }
}

/// Code collected so far, without its final line break.
pub open spec fn drop_final_nl(code: Seq<char>) -> Seq<char> {
    if code.len() > 0 && code.last() == '\n' {
        code.drop_last()
    } else {
        code
    }
}

/// One line of the scan. `line_no` is 1-based.
pub open spec fn outline_step(st: OutlineState, line_no: nat, raw: Seq<char>) -> OutlineState {
    let t = trim_start_seq(raw);
    if is_fence(t) {
        match st.code {
            None => {
                let s1 = close_para(st);
                OutlineState { code: Some((line_no, trim_seq(t.skip(3)), seq![])), ..s1 }
            },
            Some((start, lang, code)) => OutlineState {
                nodes: st.nodes.push(
                    TreeNodeV {
                        kind: NodeKindV::CodeBlock { lang: lang, code: drop_final_nl(code) },
                        depth: st.stack.len() + 1,
                        line: start,
                        has_children: false,
                    },
                ),
                code: None,
                ..st
            },
        }
    } else if st.code is Some {
        let (start, lang, code) = st.code->0;
        OutlineState { code: Some((start, lang, code + raw.push('\n'))), ..st }
    } else if is_header(t) {
        let s1 = close_para(st);
        let h = hash_run(t) as u8;
        let stack = pop_ge(s1.stack, h);
        OutlineState {
            nodes: s1.nodes.push(
                TreeNodeV {
                    kind: NodeKindV::Header { level: h, title: header_title(t) },
                    depth: stack.len() + 1,
                    line: line_no,
                    has_children: false,
                },
            ),
            stack: stack.push(h),
            ..s1
        }
    } else if t.len() == 0 {
        close_para(st)
    } else if list_text(t) is Some {
        let s1 = close_para(st);
        OutlineState {
            nodes: s1.nodes.push(
                TreeNodeV {
                    kind: NodeKindV::ListItem { text: list_text(t)->0 },
                    depth: s1.stack.len() + 1,
                    line: line_no,
                    has_children: false,
                },
            ),
            ..s1
        }
    } else {
        match st.para {
            Some((start, full)) => OutlineState {
                para: Some((start, full + seq!['\n'] + t)),
                ..st
            },
            None => OutlineState { para: Some((line_no, t)), ..st },
        }
    }
}

/// A run of ASCII digits followed by anything counts as that many digits.
proof fn lemma_digit_run_prefix(digits: Seq<char>, tail: Seq<char>)
    requires
        forall|q: int| 0 <= q < digits.len() ==> '0' <= #[trigger] digits[q] && digits[q] <= '9',
    ensures
        digit_run(digits + tail) == digits.len() + digit_run(tail),
    decreases digits.len(),
{
    if digits.len() > 0 {
        let rest = digits.drop_first();
        lemma_digit_run_prefix(rest, tail);
        assert((digits + tail).drop_first() =~= rest + tail);
        assert((digits + tail)[0] == digits[0]);
    } else {
        assert(digits + tail =~= tail);
    }
}

/// A numbered line outside a code block is a list item: a line that, after
/// its leading white space, is one or more ASCII digits, then `'.'` or
/// `')'`, then a space and a text `x`, closes the open paragraph and adds a
/// list item holding `x` trimmed, one level below the open headers, on that
/// line.
pub proof fn numbered_line_is_list_item(
    st: OutlineState,
    line_no: nat,
    raw: Seq<char>,
    digits: Seq<char>,
    mark: char,
    x: Seq<char>,
)
    requires
        st.code is None,
        digits.len() > 0,
        forall|q: int| 0 <= q < digits.len() ==> '0' <= #[trigger] digits[q] && digits[q] <= '9',
        mark == '.' || mark == ')',
        trim_start_seq(raw) == digits + seq![mark, ' '] + x,
    ensures
        outline_step(st, line_no, raw) == (OutlineState {
            nodes: close_para(st).nodes.push(
                TreeNodeV {
                    kind: NodeKindV::ListItem { text: trim_seq(x) },
                    depth: close_para(st).stack.len() + 1,
                    line: line_no,
                    has_children: false,
                },
            ),
            ..close_para(st)
        }),
{
    reveal_strlit("```");
    reveal_strlit("~~~");
    reveal_strlit("- ");
    reveal_strlit("* ");
    reveal_strlit("+ ");
    reveal_strlit("-");
    reveal_strlit("*");
    reveal_strlit("+");
    let t = trim_start_seq(raw);
    let tail = seq![mark, ' '] + x;
    assert(t[0] == digits[0]);
    assert(!is_fence(t)) by {
        assert(t.subrange(0, 3)[0] == t[0]);
    }
    assert(hash_run(t) == 0);
    assert(!is_header(t));
    assert(!(starts_with(t, "- "@) || starts_with(t, "* "@) || starts_with(t, "+ "@))) by {
        assert(t.subrange(0, 2)[0] == t[0]);
    }
    assert(t =~= digits + tail);
    lemma_digit_run_prefix(digits, tail);
    assert(tail[0] == mark);
    assert(digit_run(tail) == 0);
    let d: int = digits.len() as int;
    assert(digit_run(t) == d);
    assert(t[d] == mark);
    assert(t[d + 1] == ' ');
    assert(t.skip(d + 2) =~= x);
    assert(list_text(t) == Some(trim_seq(x)));
}

/// A bulleted line outside a code block is a list item: a line that, after
/// its leading white space, is `-`, `*` or `+`, a space and a text `x`,
/// closes the open paragraph and adds a list item holding `x` trimmed, one
/// level below the open headers, on that line.
pub proof fn bulleted_line_is_list_item(st: OutlineState, line_no: nat, raw: Seq<char>, bullet: char, x: Seq<char>)
    requires
        st.code is None,
        bullet == '-' || bullet == '*' || bullet == '+',
        trim_start_seq(raw) == seq![bullet, ' '] + x,
    ensures
        outline_step(st, line_no, raw) == (OutlineState {
            nodes: close_para(st).nodes.push(
                TreeNodeV {
                    kind: NodeKindV::ListItem { text: trim_seq(x) },
                    depth: close_para(st).stack.len() + 1,
                    line: line_no,
                    has_children: false,
                },
            ),
            ..close_para(st)
        }),
{
    reveal_strlit("```");
    reveal_strlit("~~~");
    reveal_strlit("- ");
    reveal_strlit("* ");
    reveal_strlit("+ ");
    let t = trim_start_seq(raw);
    assert(t[0] == bullet && t[1] == ' ');
    assert(!is_fence(t)) by {
        if t.len() >= 3 {
            assert(t.subrange(0, 3)[0] == t[0]);
        }
    }
    assert(hash_run(t) == 0);
    assert(t.subrange(0, 2) =~= seq![bullet, ' ']);
    assert("- "@ =~= seq!['-', ' ']);
    assert("* "@ =~= seq!['*', ' ']);
    assert("+ "@ =~= seq!['+', ' ']);
    assert(t.skip(2) =~= x);
    assert(list_text(t) == Some(trim_seq(x)));
}

/// The outline before any line is read: the title node alone.
pub open spec fn outline_init(title: Seq<char>) -> OutlineState {
    OutlineState {
        nodes: seq![
            TreeNodeV {
                kind: NodeKindV::Header { level: 0, title: title },
                depth: 0,
                line: 1,
                has_children: false,
            },
        ],
        stack: seq![],
        code: None,
        para: None,
    }
}

/// The scan after the first `n` lines.
pub open spec fn outline_fold(title: Seq<char>, lines: Seq<Seq<char>>, n: nat) -> OutlineState
    decreases n,
{
    if n == 0 {
        outline_init(title)
    } else {
        outline_step(outline_fold(title, lines, (n - 1) as nat), n, lines[n - 1])
    }
}

/// Marks each node that is followed by a deeper one.
pub open spec fn mark_children(nodes: Seq<TreeNodeV>) -> Seq<TreeNodeV> {
    Seq::new(
        nodes.len(),
        |i: int|
            TreeNodeV {
                has_children: i + 1 < nodes.len() && nodes[i + 1].depth > nodes[i].depth,
                ..nodes[i]
            },
    )
}

/// The outline of a note with title `title` and body `content`.
pub open spec fn outline_of(title: Seq<char>, content: Seq<char>) -> Seq<TreeNodeV> {
    let lines = lines_seq(content);
    mark_children(close_para(outline_fold(title, lines, lines.len())).nodes)
}

/// Whether a code block is open after the first `n` lines: each fence line
/// opens one or closes the open one.
pub open spec fn code_open(lines: Seq<Seq<char>>, n: nat) -> bool
    decreases n,
{
    if n == 0 {
        false
    } else if is_fence(trim_start_seq(lines[n - 1])) {
        !code_open(lines, (n - 1) as nat)
    } else {
        code_open(lines, (n - 1) as nat)
    }
}

/// The notes the outline is defined on. The header level of a line outside
/// a code block is counted in a `u8`, one `'#'` at a time, over the whole
/// run of leading `'#'`; a run of 256 or more overflows that counter, which
/// aborts the scan. So no line read outside a code block may start (after
/// its leading white space) with more than 255 `'#'`. Lines inside a code
/// block are not counted and may hold anything.
pub open spec fn outline_input_ok(content: Seq<char>) -> bool {
    forall|i: int|
        0 <= i < lines_seq(content).len() && !code_open(lines_seq(content), i as nat) ==> hash_run(
            trim_start_seq(#[trigger] lines_seq(content)[i]),
        ) < 256
}


// ---------------------------------------------------------------------------
// The scan
// ---------------------------------------------------------------------------

/// Popping the headers of level `h` and deeper never makes the stack longer.
pub proof fn lemma_pop_ge_len(stack: Seq<u8>, h: u8)
    ensures
        pop_ge(stack, h).len() <= stack.len(),
    decreases stack.len(),
{
    if stack.len() > 0 && stack.last() >= h {
        lemma_pop_ge_len(stack.drop_last(), h);
    }
}

/// A text has no more lines than characters.
pub proof fn lemma_lines_len(s: Seq<char>)
    ensures
        lines_seq(s).len() <= s.len(),
    decreases s.len(),
{
    if s.len() > 0 {
        let k = nl_index(s);
        if k < s.len() {
            lemma_lines_len(s.skip(k as int + 1));
        }
    }
}

/// The depths of an outline step down one level at a time: the first node
/// is the root at depth 0, every later node is at depth 1 or more, and no
/// node is more than one level deeper than the node before it.
pub open spec fn depths_well_nested(nodes: Seq<TreeNodeV>) -> bool {
    &&& nodes.len() >= 1
    &&& nodes[0].depth == 0
    &&& forall|i: int|
        1 <= i < nodes.len() ==> 1 <= (#[trigger] nodes[i]).depth <= nodes[i - 1].depth + 1
}

/// What the scan keeps true: the nodes so far are well nested, and the
/// open headers are no more than the depth of the last node.
pub open spec fn scan_nested(st: OutlineState) -> bool {
    &&& depths_well_nested(st.nodes)
    &&& st.stack.len() <= st.nodes.last().depth
}

/// Pushing a node at depth between 1 and one more than the last keeps the
/// nodes well nested.
proof fn lemma_push_nested(nodes: Seq<TreeNodeV>, n: TreeNodeV)
    requires
        depths_well_nested(nodes),
        1 <= n.depth <= nodes.last().depth + 1,
    ensures
        depths_well_nested(nodes.push(n)),
        nodes.push(n).last() == n,
{
    assert forall|i: int| 1 <= i < nodes.push(n).len() implies 1 <= (
    #[trigger] nodes.push(n)[i]).depth <= nodes.push(n)[i - 1].depth + 1 by {
        if i < nodes.len() {
            assert(nodes.push(n)[i] == nodes[i]);
            assert(nodes.push(n)[i - 1] == nodes[i - 1]);
        }
    }
}

proof fn lemma_close_para_nested(st: OutlineState)
    requires
        scan_nested(st),
    ensures
        scan_nested(close_para(st)),
        close_para(st).stack == st.stack,
{
    match st.para {
        Some((line, full)) => {
            let n = TreeNodeV {
                kind: NodeKindV::Paragraph {
                    preview: truncate_seq(first_line(full)),
                    full_text: full,
                },
                depth: st.stack.len() + 1,
                line: line,
                has_children: false,
            };
            lemma_push_nested(st.nodes, n);
        },
        None => {},
    }
}

proof fn lemma_step_nested(st: OutlineState, line_no: nat, raw: Seq<char>)
    requires
        scan_nested(st),
    ensures
        scan_nested(outline_step(st, line_no, raw)),
{
    let t = trim_start_seq(raw);
    lemma_close_para_nested(st);
    if is_fence(t) {
        match st.code {
            None => {},
            Some((start, lang, code)) => {
                let n = TreeNodeV {
                    kind: NodeKindV::CodeBlock { lang: lang, code: drop_final_nl(code) },
                    depth: st.stack.len() + 1,
                    line: start,
                    has_children: false,
                };
                lemma_push_nested(st.nodes, n);
            },
        }
    } else if st.code is Some {
    } else if is_header(t) {
        let s1 = close_para(st);
        let h = hash_run(t) as u8;
        let stack = pop_ge(s1.stack, h);
        lemma_pop_ge_len(s1.stack, h);
        let n = TreeNodeV {
            kind: NodeKindV::Header { level: h, title: header_title(t) },
            depth: stack.len() + 1,
            line: line_no,
            has_children: false,
        };
        lemma_push_nested(s1.nodes, n);
    } else if t.len() == 0 {
    } else if list_text(t) is Some {
        let s1 = close_para(st);
        let n = TreeNodeV {
            kind: NodeKindV::ListItem { text: list_text(t)->0 },
            depth: s1.stack.len() + 1,
            line: line_no,
            has_children: false,
        };
        lemma_push_nested(s1.nodes, n);
    } else {
    }
}

proof fn lemma_fold_nested(title: Seq<char>, lines: Seq<Seq<char>>, n: nat)
    ensures
        scan_nested(outline_fold(title, lines, n)),
    decreases n,
{
    if n > 0 {
        lemma_fold_nested(title, lines, (n - 1) as nat);
        lemma_step_nested(outline_fold(title, lines, (n - 1) as nat), n, lines[n - 1]);
    }
}

/// The outline of any note is well nested: it starts with the root at
/// depth 0, and each later node sits between depth 1 and one level below
/// the node before it.
#[verifier::spinoff_prover]
pub proof fn outline_well_nested(title: Seq<char>, content: Seq<char>)
    ensures
        depths_well_nested(outline_of(title, content)),
        outline_of(title, content)[0].kind == (NodeKindV::Header { level: 0, title: title }),
        outline_of(title, content)[0].line == 1,
{
    let lines = lines_seq(content);
    lemma_fold_nested(title, lines, lines.len());
    lemma_close_para_nested(outline_fold(title, lines, lines.len()));
    lemma_fold_keeps_root(title, lines, lines.len());
    let nodes = close_para(outline_fold(title, lines, lines.len())).nodes;
    let marked = mark_children(nodes);
    assert forall|i: int| 1 <= i < marked.len() implies 1 <= (#[trigger] marked[i]).depth
        <= marked[i - 1].depth + 1 by {
        assert(nodes[i].depth <= nodes[i - 1].depth + 1);
    }
}

/// Each node of an outline is marked as having children exactly when the
/// next node is deeper; the last node has none.
pub proof fn outline_children_marked(title: Seq<char>, content: Seq<char>)
    ensures
        ({
            let r = outline_of(title, content);
            &&& forall|i: int|
                0 <= i < r.len() - 1 ==> (#[trigger] r[i]).has_children == (r[i + 1].depth > r[i].depth)
            &&& r.len() >= 1 ==> !r[r.len() - 1].has_children
        }),
{
}

/// The lines of the nodes after the root lie in `1..=m` and increase
/// strictly.
pub open spec fn lines_sorted(nodes: Seq<TreeNodeV>, m: nat) -> bool {
    &&& forall|i: int| 1 <= i < nodes.len() ==> 1 <= (#[trigger] nodes[i]).line <= m
    &&& forall|i: int, j: int|
        1 <= i < j < nodes.len() ==> (#[trigger] nodes[i]).line < (#[trigger] nodes[j]).line
}

/// What the scan keeps true of lines after `m` lines: the nodes are in
/// line order, and an open paragraph or code block starts after the last
/// node, within the lines read; both are never open at once.
pub open spec fn scan_lines(st: OutlineState, m: nat) -> bool {
    &&& st.nodes.len() >= 1
    &&& lines_sorted(st.nodes, m)
    &&& (st.code is Some ==> st.para is None)
    &&& (st.para matches Some((l, f)) ==> 1 <= l <= m && (st.nodes.len() > 1 ==> st.nodes.last().line < l))
    &&& (st.code matches Some((c, g, h)) ==> 1 <= c <= m && (st.nodes.len() > 1 ==> st.nodes.last().line < c))
}

proof fn lemma_push_sorted(nodes: Seq<TreeNodeV>, n: TreeNodeV, m: nat)
    requires
        nodes.len() >= 1,
        lines_sorted(nodes, m),
        1 <= n.line <= m,
        nodes.len() > 1 ==> nodes.last().line < n.line,
    ensures
        lines_sorted(nodes.push(n), m),
{
    let p = nodes.push(n);
    assert forall|i: int, j: int| 1 <= i < j < p.len() implies (#[trigger] p[i]).line < (#[trigger] p[j]).line by {
        if j == nodes.len() {
            if i < nodes.len() - 1 {
                assert(nodes[i].line < nodes[nodes.len() - 1].line);
            }
        } else {
            assert(p[i] == nodes[i] && p[j] == nodes[j]);
        }
    }
    assert forall|i: int| 1 <= i < p.len() implies 1 <= (#[trigger] p[i]).line <= m by {
        if i < nodes.len() {
            assert(p[i] == nodes[i]);
        }
    }
}

proof fn lemma_close_para_lines(st: OutlineState, m: nat)
    requires
        scan_lines(st, m),
    ensures
        scan_lines(close_para(st), m),
        close_para(st).para is None,
        close_para(st).code == st.code,
        close_para(st).nodes.len() > 1 ==> close_para(st).nodes.last().line <= m,
{
    match st.para {
        Some((line, full)) => {
            let n = TreeNodeV {
                kind: NodeKindV::Paragraph { preview: truncate_seq(first_line(full)), full_text: full },
                depth: st.stack.len() + 1,
                line: line,
                has_children: false,
            };
            lemma_push_sorted(st.nodes, n, m);
        },
        None => {
            if st.nodes.len() > 1 {
                assert(1 <= st.nodes[st.nodes.len() - 1].line <= m);
            }
        },
    }
}

proof fn lemma_sorted_weaken(nodes: Seq<TreeNodeV>, m: nat, m2: nat)
    requires
        lines_sorted(nodes, m),
        m <= m2,
    ensures
        lines_sorted(nodes, m2),
{
    assert forall|i: int| 1 <= i < nodes.len() implies 1 <= (#[trigger] nodes[i]).line <= m2 by {
        assert(nodes[i].line <= m);
    }
}

proof fn lemma_step_lines(st: OutlineState, m: nat, raw: Seq<char>)
    requires
        scan_lines(st, m),
    ensures
        scan_lines(outline_step(st, m + 1, raw), m + 1),
{
    let t = trim_start_seq(raw);
    let m1 = (m + 1) as nat;
    lemma_sorted_weaken(st.nodes, m, m1);
    lemma_close_para_lines(st, m);
    let s1 = close_para(st);
    lemma_sorted_weaken(s1.nodes, m, m1);
    if is_fence(t) {
        match st.code {
            None => {},
            Some((start, lang, code)) => {
                let n = TreeNodeV {
                    kind: NodeKindV::CodeBlock { lang: lang, code: drop_final_nl(code) },
                    depth: st.stack.len() + 1,
                    line: start,
                    has_children: false,
                };
                lemma_push_sorted(st.nodes, n, m1);
            },
        }
    } else if st.code is Some {
    } else if is_header(t) {
        let h = hash_run(t) as u8;
        let stack = pop_ge(s1.stack, h);
        let n = TreeNodeV {
            kind: NodeKindV::Header { level: h, title: header_title(t) },
            depth: stack.len() + 1,
            line: m1,
            has_children: false,
        };
        lemma_push_sorted(s1.nodes, n, m1);
    } else if t.len() == 0 {
    } else if list_text(t) is Some {
        let n = TreeNodeV {
            kind: NodeKindV::ListItem { text: list_text(t)->0 },
            depth: s1.stack.len() + 1,
            line: m1,
            has_children: false,
        };
        lemma_push_sorted(s1.nodes, n, m1);
    } else {
        if st.nodes.len() > 1 && st.para is None {
            assert(1 <= st.nodes[st.nodes.len() - 1].line <= m);
        }
    }
}

proof fn lemma_fold_lines(title: Seq<char>, lines: Seq<Seq<char>>, n: nat)
    ensures
        scan_lines(outline_fold(title, lines, n), n),
    decreases n,
{
    if n > 0 {
        lemma_fold_lines(title, lines, (n - 1) as nat);
        lemma_step_lines(outline_fold(title, lines, (n - 1) as nat), (n - 1) as nat, lines[n - 1]);
    }
}

/// The nodes after the root sit on the note's lines, in increasing order:
/// each node's line is between 1 and the number of lines, and a later node
/// is on a later line.
pub proof fn outline_lines_ordered(title: Seq<char>, content: Seq<char>)
    ensures
        ({
            let r = outline_of(title, content);
            let n = lines_seq(content).len();
            &&& forall|i: int| 1 <= i < r.len() ==> 1 <= (#[trigger] r[i]).line <= n
            &&& forall|i: int, j: int| 1 <= i < j < r.len() ==> (#[trigger] r[i]).line < (#[trigger] r[j]).line
        }),
{
    let lines = lines_seq(content);
    lemma_fold_lines(title, lines, lines.len());
    lemma_close_para_lines(outline_fold(title, lines, lines.len()), lines.len());
    let nodes = close_para(outline_fold(title, lines, lines.len())).nodes;
    let r = mark_children(nodes);
    assert forall|i: int| 1 <= i < r.len() implies 1 <= (#[trigger] r[i]).line <= lines.len() by {
        assert(r[i].line == nodes[i].line);
    }
    assert forall|i: int, j: int| 1 <= i < j < r.len() implies (#[trigger] r[i]).line < (#[trigger] r[j]).line by {
        assert(r[i].line == nodes[i].line);
        assert(r[j].line == nodes[j].line);
    }
}

/// The scan never changes the root node.
proof fn lemma_fold_keeps_root(title: Seq<char>, lines: Seq<Seq<char>>, n: nat)
    ensures
        outline_fold(title, lines, n).nodes.len() >= 1,
        outline_fold(title, lines, n).nodes[0] == outline_init(title).nodes[0],
        close_para(outline_fold(title, lines, n)).nodes[0] == outline_init(title).nodes[0],
    decreases n,
{
    if n > 0 {
        lemma_fold_keeps_root(title, lines, (n - 1) as nat);
        let st = outline_fold(title, lines, (n - 1) as nat);
        lemma_fold_nested(title, lines, (n - 1) as nat);
        lemma_step_nested(st, n, lines[n - 1]);
        lemma_close_para_nested(outline_fold(title, lines, n));
    }
}

impl NodeKind {
    /// A copy of this kind.
    pub fn dup(&self) -> (r: NodeKind)
        ensures
            r@ == self@,
    {
        match self {
            NodeKind::Header { level, title } => NodeKind::Header { level: *level, title: title.clone() },
            NodeKind::ListItem { text } => NodeKind::ListItem { text: text.clone() },
            NodeKind::Paragraph { preview, full_text } => NodeKind::Paragraph {
                preview: preview.clone(),
                full_text: full_text.clone(),
            },
            NodeKind::CodeBlock { lang, code } => NodeKind::CodeBlock { lang: lang.clone(), code: code.clone() },
        }
    }
}

impl TreeNode {
    /// A copy of this node.
    pub fn dup(&self) -> (r: TreeNode)
        ensures
            r@ == self@,
    {
        TreeNode { kind: self.kind.dup(), depth: self.depth, line: self.line, has_children: self.has_children }
    }
}

struct Scan {
    nodes: Vec<TreeNode>,
    stack: Vec<u8>,
    code: Option<(usize, Vec<char>, Vec<char>)>,
    para: Option<(usize, Vec<char>)>,
}

impl View for Scan {
    type V = OutlineState;

    closed spec fn view(&self) -> OutlineState {
        OutlineState {
            nodes: node_views(self.nodes@),
            stack: self.stack@,
            code: match self.code {
                Some((l, lang, code)) => Some((l as nat, lang@, code@)),
                None => None,
            },
            para: match self.para {
                Some((l, full)) => Some((l as nat, full@)),
                None => None,
            },
        }
    }
}

fn starts(t: &Vec<char>, lit: &str) -> (r: bool)
    ensures
        r == starts_with(t@, lit@),
{
    assert(t@.skip(0) =~= t@);
    starts_with_lit(t, 0, lit)
}

fn count_hashes(t: &Vec<char>) -> (r: usize)
    ensures
        r == hash_run(t@),
        r <= t@.len(),
{
    let mut i: usize = 0;
    assert(t@.skip(0) =~= t@);
    while i < t.len() && t[i] == '#'
        invariant
            i <= t@.len(),
            hash_run(t@) == i + hash_run(t@.skip(i as int)),
        decreases t.len() - i,
    {
        assert(t@.skip(i as int).drop_first() =~= t@.skip(i + 1));
        i = i + 1;
    }
    i
}

fn count_digits(t: &Vec<char>) -> (r: usize)
    ensures
        r == digit_run(t@),
        r <= t@.len(),
{
    let mut i: usize = 0;
    assert(t@.skip(0) =~= t@);
    while i < t.len() && is_ascii_digit(t[i])
        invariant
            i <= t@.len(),
            digit_run(t@) == i + digit_run(t@.skip(i as int)),
        decreases t.len() - i,
    {
        assert(t@.skip(i as int).drop_first() =~= t@.skip(i + 1));
        i = i + 1;
    }
    i
}

/// A paragraph preview; see `truncate_seq`.
fn truncate(s: &Vec<char>) -> (r: Vec<char>)
    ensures
        r@ == truncate_seq(s@),
{
    if s.len() > 60 {
        let mut r = sub_vec(s, 0, 60);
        r.push('…');
        r
    } else {
        sub_vec(s, 0, s.len())
    }
}

fn first_line_of(s: &Vec<char>) -> (r: Vec<char>)
    ensures
        r@ == first_line(s@),
{
    let ls = split_lines(s);
    if ls.len() > 0 {
        proof {
            assert(views(ls@)[0] == ls@[0]@);
        }
        sub_vec(&ls[0], 0, ls[0].len())
    } else {
        Vec::new()
    }
}

fn close_para_exec(st: &mut Scan)
    requires
        old(st)@.stack.len() < usize::MAX,
    ensures
        final(st)@ == close_para(old(st)@),
{
    let p = st.para.take();
    match p {
        Some((line, full)) => {
            let preview = truncate(&full);
            let first = first_line_of(&full);
            let preview = truncate(&first);
            let node = TreeNode {
                kind: NodeKind::Paragraph { preview: string_of(&preview), full_text: string_of(&full) },
                depth: st.stack.len() + 1,
                line: line,
                has_children: false,
            };
            let ghost before = st.nodes@;
            st.nodes.push(node);
            proof {
                assert(node_views(st.nodes@) =~= node_views(before).push(node@));
            }
        },
        None => {},
    }
}

/// `pop_ge` on the open-header stack.
fn pop_levels(stack: &mut Vec<u8>, h: u8)
    ensures
        final(stack)@ == pop_ge(old(stack)@, h),
{
    while stack.len() > 0 && stack[stack.len() - 1] >= h
        invariant
            pop_ge(stack@, h) == pop_ge(old(stack)@, h),
        decreases stack.len(),
    {
        let ghost before = stack@;
        stack.pop();
        assert(stack@ =~= before.drop_last());
    }
}

/// `list_text` on a vector.
fn list_text_exec(t: &Vec<char>) -> (r: Option<Vec<char>>)
    ensures
        match r {
            Some(v) => list_text(t@) == Some(v@),
            None => list_text(t@) is None,
        },
{
    if starts(t, "- ") || starts(t, "* ") || starts(t, "+ ") || eq_lit(t, "-") || eq_lit(t, "*")
        || eq_lit(t, "+") {
        if t.len() >= 2 {
            assert(t@.subrange(2, t@.len() as int) =~= t@.skip(2));
            Some(trimmed_range(t, 2, t.len()))
        } else {
            Some(Vec::new())
        }
    } else {
        let d = count_digits(t);
        if d > 0 && d < t.len() && (t[d] == '.' || t[d] == ')') && (t.len() == d + 1
            || is_whitespace(t[d + 1])) {
            if t.len() > d + 1 {
                assert(t@.subrange(d + 2, t@.len() as int) =~= t@.skip(d + 2));
                Some(trimmed_range(t, d + 2, t.len()))
            } else {
                Some(Vec::new())
            }
        } else {
            None
        }
    }
}

/// Removes a final `'\n'`.
fn drop_final_nl_exec(code: &mut Vec<char>)
    ensures
        final(code)@ == drop_final_nl(old(code)@),
{
    if code.len() > 0 && code[code.len() - 1] == '\n' {
        code.pop();
    }
}

fn scan_line(st: &mut Scan, line_no: usize, raw: &Vec<char>)
    requires
        old(st)@.stack.len() < line_no,
    ensures
        final(st)@ == outline_step(old(st)@, line_no as nat, raw@),
        final(st)@.stack.len() <= old(st)@.stack.len() + 1,
{
    let a = skip_ws(raw, 0);
    let t = sub_vec(raw, a, raw.len());
    proof {
        assert(raw@.skip(0) =~= raw@);
        lemma_trim_start_skip(raw@);
        assert(t@ =~= trim_start_seq(raw@));
    }
    proof {
        reveal_strlit("```");
        reveal_strlit("~~~");
    }
    if starts(&t, "```") || starts(&t, "~~~") {
        let c = st.code.take();
        match c {
            None => {
                close_para_exec(st);
                assert(t@.subrange(3, t@.len() as int) =~= t@.skip(3));
                let lang = trimmed_range(&t, 3, t.len());
                st.code = Some((line_no, lang, Vec::new()));
            },
            Some((start, lang, code)) => {
                let mut code = code;
                drop_final_nl_exec(&mut code);
                let node = TreeNode {
                    kind: NodeKind::CodeBlock { lang: string_of(&lang), code: string_of(&code) },
                    depth: st.stack.len() + 1,
                    line: start,
                    has_children: false,
                };
                let ghost before = st.nodes@;
                st.nodes.push(node);
                proof {
                    assert(node_views(st.nodes@) =~= node_views(before).push(node@));
                }
            },
        }
        return ;
    }
    if st.code.is_some() {
        let c = st.code.take();
        match c {
            Some((start, lang, code)) => {
                let mut code = code;
                let ghost before = code@;
                let mut i: usize = 0;
                while i < raw.len()
                    invariant
                        i <= raw@.len(),
                        code@ == before + raw@.subrange(0, i as int),
                    decreases raw.len() - i,
                {
                    code.push(raw[i]);
                    i = i + 1;
                }
                code.push('\n');
                assert(code@ =~= before + raw@.push('\n'));
                st.code = Some((start, lang, code));
            },
            None => {},
        }
        return ;
    }
    let h = count_hashes(&t);
    if 1 <= h && h <= 6 && (t.len() == h || is_whitespace(t[h])) {
        close_para_exec(st);
        let title = if t.len() > h {
            assert(t@.subrange(h + 1, t@.len() as int) =~= t@.skip(h + 1));
            trimmed_range(&t, h + 1, t.len())
        } else {
            Vec::new()
        };
        let level = h as u8;
        proof {
            lemma_pop_ge_len(st.stack@, level);
        }
        pop_levels(&mut st.stack, level);
        let node = TreeNode {
            kind: NodeKind::Header { level: level, title: string_of(&title) },
            depth: st.stack.len() + 1,
            line: line_no,
            has_children: false,
        };
        let ghost before = st.nodes@;
        st.nodes.push(node);
        st.stack.push(level);
        proof {
            assert(node_views(st.nodes@) =~= node_views(before).push(node@));
        }
        return ;
    }
    if t.len() == 0 {
        close_para_exec(st);
        return ;
    }
    let lt = list_text_exec(&t);
    match lt {
        Some(text) => {
            close_para_exec(st);
            let node = TreeNode {
                kind: NodeKind::ListItem { text: string_of(&text) },
                depth: st.stack.len() + 1,
                line: line_no,
                has_children: false,
            };
            let ghost before = st.nodes@;
            st.nodes.push(node);
            proof {
                assert(node_views(st.nodes@) =~= node_views(before).push(node@));
            }
        },
        None => {
            let p = st.para.take();
            match p {
                Some((start, full)) => {
                    let mut full = full;
                    let ghost before = full@;
                    full.push('\n');
                    let mut i: usize = 0;
                    while i < t.len()
                        invariant
                            i <= t@.len(),
                            full@ == before + seq!['\n'] + t@.subrange(0, i as int),
                        decreases t.len() - i,
                    {
                        full.push(t[i]);
                        i = i + 1;
                    }
                    assert(full@ =~= before + seq!['\n'] + t@);
                    st.para = Some((start, full));
                },
                None => {
                    st.para = Some((line_no, t));
                },
            }
        },
    }
}

/// The outline of a note: the title as the depth-0 root, then its headers,
/// list items, paragraphs and code blocks in source order. A header is one
/// level deeper than the nearest enclosing header of lower level; every other
/// entry is one level deeper than the header it follows. `has_children` is
/// set on each entry that is followed by a deeper one. An unterminated code
/// block is dropped.
pub fn parse_outline(title: &str, content: &str) -> (r: Vec<TreeNode>)
    requires
        outline_input_ok(content@),
        content@.len() < usize::MAX,
    ensures
        node_views(r@) == outline_of(title@, content@),
{
    let text = chars_of(content);
    let lines = split_lines(&text);
    let ghost ls = lines_seq(content@);
    assert(views(lines@) == ls);
    proof {
        lemma_lines_len(content@);
    }
    let root = TreeNode {
        kind: NodeKind::Header { level: 0, title: String::from_str(title) },
        depth: 0,
        line: 1,
        has_children: false,
    };
    let mut st = Scan { nodes: vec![root], stack: Vec::new(), code: None, para: None };
    proof {
        assert(st@.nodes =~= outline_init(title@).nodes);
    }
    let mut idx: usize = 0;
    while idx < lines.len()
        invariant
            views(lines@) == ls,
            ls == lines_seq(content@),
            idx <= lines@.len(),
            lines@.len() <= text@.len(),
            text@.len() == content@.len(),
            content@.len() < usize::MAX,
            st@ == outline_fold(title@, ls, idx as nat),
            st@.stack.len() <= idx,
        decreases lines.len() - idx,
    {
        proof {
            assert(views(lines@)[idx as int] == lines@[idx as int]@);
        }
        scan_line(&mut st, idx + 1, &lines[idx]);
        idx = idx + 1;
    }
    close_para_exec(&mut st);
    let mut nodes = st.nodes;
    let ghost closed = node_views(nodes@);
    let n = nodes.len();
    let mut i: usize = 0;
    while i < n
        invariant
            n == nodes@.len(),
            i <= n,
            closed.len() == n,
            forall|j: int| 0 <= j < i ==> #[trigger] node_views(nodes@)[j] == mark_children(closed)[j],
            forall|j: int| i <= j < n ==> #[trigger] node_views(nodes@)[j] == closed[j],
        decreases n - i,
    {
        let ghost before = nodes@;
        proof {
            assert(node_views(before)[i as int] == closed[i as int]);
            if i + 1 < n {
                assert(node_views(before)[i + 1] == closed[i + 1]);
            }
        }
        if i + 1 < n {
            let deeper = nodes[i + 1].depth > nodes[i].depth;
            let mut node = nodes[i].dup();
            node.has_children = deeper;
            nodes.set(i, node);
        } else {
            let mut node = nodes[i].dup();
            node.has_children = false;
            nodes.set(i, node);
        }
        proof {
            assert forall|j: int| 0 <= j < i + 1 implies #[trigger] node_views(nodes@)[j]
                == mark_children(closed)[j] by {
                if j < i {
                    assert(node_views(before)[j] == mark_children(closed)[j]);
                    assert(nodes@[j] == before[j]);
                }
            }
            assert forall|j: int| i + 1 <= j < n implies #[trigger] node_views(nodes@)[j]
                == closed[j] by {
                assert(node_views(before)[j] == closed[j]);
                assert(nodes@[j] == before[j]);
            }
        }
        i = i + 1;
    }
    assert(node_views(nodes@) =~= mark_children(closed));
    proof {
        assert(closed == close_para(outline_fold(title@, ls, ls.len())).nodes);
    }
    nodes
}

} // verus!
