//! The table view of a base: how wide each column is, which columns fit on
//! screen around the cursor column, and which cell is under the mouse.
use vstd::prelude::*;
use crate::base::{Area, hit_test_list, list_groups, list_row_at, group_sizes, sum_lens};

verus! {

/// The largest of some lengths, 0 for none.
pub open spec fn max_len(s: Seq<usize>) -> nat
    decreases s.len(),
{
    if s.len() == 0 {
        0
    } else {
        let m = max_len(s.drop_last());
        if s.last() > m {
            s.last() as nat
        } else {
            m
        }
    }
}

/// `n` brought into `6..=30`.
pub open spec fn clamp_width(n: nat) -> nat {
    if n < 6 {
        6
    } else if n > 30 {
        30
    } else {
        n
    }
}

/// The lengths of column `c` over the rows.
pub open spec fn column_of(cells: Seq<Seq<usize>>, c: int) -> Seq<usize> {
    cells.map_values(|row: Seq<usize>| row[c])
}

/// The width of column `c`: the longest of its heading (two more when the
/// table is sorted by it, for the arrow) and its cells, brought into
/// `6..=30`.
pub open spec fn column_width(headers: Seq<usize>, sorted: Option<usize>, cells: Seq<Seq<usize>>, c: int) -> nat {
    let h: nat = if sorted == Some(c as usize) { (headers[c] + 2) as nat } else { headers[c] as nat };
    let m = max_len(column_of(cells, c));
    clamp_width(if h > m { h } else { m })
}

/// The cells as values.
pub open spec fn cell_views(cells: Seq<Vec<usize>>) -> Seq<Seq<usize>> {
    cells.map_values(|row: Vec<usize>| row@)
}

/// The widths of the columns; `headers` are the byte lengths of the
/// headings, `cells[r]` those of the cells of row `r`, and `sorted` the
/// column the table is sorted by.
pub fn column_widths(headers: &Vec<usize>, sorted: Option<usize>, cells: &Vec<Vec<usize>>) -> (r: Vec<usize>)
    requires
        forall|c: int| 0 <= c < headers@.len() ==> #[trigger] headers@[c] <= usize::MAX - 2,
        forall|k: int| 0 <= k < cells@.len() ==> (#[trigger] cells@[k])@.len() == headers@.len(),
    ensures
        r@.len() == headers@.len(),
        forall|c: int| 0 <= c < r@.len() ==> #[trigger] r@[c] == column_width(headers@, sorted, cell_views(cells@), c),
{
    let ghost cv = cell_views(cells@);
    let mut r: Vec<usize> = Vec::new();
    let mut c: usize = 0;
    while c < headers.len()
        invariant
            c <= headers@.len(),
            r@.len() == c,
            cv == cell_views(cells@),
            forall|k: int| 0 <= k < headers@.len() ==> #[trigger] headers@[k] <= usize::MAX - 2,
            forall|k: int| 0 <= k < cells@.len() ==> (#[trigger] cells@[k])@.len() == headers@.len(),
            forall|k: int| 0 <= k < c ==> #[trigger] r@[k] == column_width(headers@, sorted, cv, k),
        decreases headers@.len() - c,
    {
        let mut w: usize = if sorted == Some(c) { headers[c] + 2 } else { headers[c] };
        let ghost h = w;
        let ghost col = column_of(cv, c as int);
        let mut m: usize = 0;
        let mut k: usize = 0;
        while k < cells.len()
            invariant
                k <= cells@.len(),
                c < headers@.len(),
                cv == cell_views(cells@),
                col == column_of(cv, c as int),
                forall|j: int| 0 <= j < cells@.len() ==> (#[trigger] cells@[j])@.len() == headers@.len(),
                m == max_len(col.take(k as int)),
            decreases cells@.len() - k,
        {
            proof {
                assert(col.take(k + 1).drop_last() =~= col.take(k as int));
                assert(col.take(k + 1).last() == cells@[k as int]@[c as int]);
            }
            let v = cells[k][c];
            if v > m {
                m = v;
            }
            k = k + 1;
        }
        proof {
            assert(col.take(cells@.len() as int) =~= col);
        }
        if m > w {
            w = m;
        }
        let clamped = if w < 6 { 6 } else if w > 30 { 30 } else { w };
        r.push(clamped);
        c = c + 1;
    }
    r
}

/// The sum of `w[a..b]`.
pub open spec fn width_sum(w: Seq<usize>, a: int, b: int) -> nat
    decreases b - a,
{
    if b <= a {
        0
    } else {
        width_sum(w, a, b - 1) + (w[b - 1] as nat)
    }
}

/// The first column shown: the remembered offset, no later than the
/// cursor column, moved right until the columns up to the cursor's fit in
/// `avail` cells (or only the cursor's is left).
pub open spec fn window_start(w: Seq<usize>, s: int, cursor: int, avail: nat) -> int
    decreases cursor - s,
{
    if s >= cursor || width_sum(w, s, cursor + 1) <= avail {
        s
    } else {
        window_start(w, s + 1, cursor, avail)
    }
}

/// The end of the columns shown: past the cursor column, as many more as
/// fit in `avail` cells with the ones before.
pub open spec fn window_end(w: Seq<usize>, e: int, sum: nat, avail: nat) -> int
    decreases w.len() - e,
{
    if e < w.len() && sum + w[e] <= avail {
        window_end(w, e + 1, sum + (w[e] as nat), avail)
    } else {
        e
    }
}

/// Widths the table can hold: none wider than 30, and not so many that
/// their sum overflows.
pub open spec fn widths_ok(w: Seq<usize>) -> bool {
    &&& w.len() <= usize::MAX / 32
    &&& forall|i: int| 0 <= i < w.len() ==> #[trigger] w[i] <= 30
}

proof fn lemma_width_sum_bound(w: Seq<usize>, a: int, b: int)
    requires
        widths_ok(w),
        0 <= a <= b <= w.len(),
    ensures
        width_sum(w, a, b) <= 30 * (b - a),
    decreases b - a,
{
    if b > a {
        lemma_width_sum_bound(w, a, b - 1);
    }
}

fn sum_widths(w: &Vec<usize>, a: usize, b: usize) -> (r: usize)
    requires
        widths_ok(w@),
        a <= b <= w@.len(),
    ensures
        r == width_sum(w@, a as int, b as int),
{
    let mut s: usize = 0;
    let mut i: usize = a;
    while i < b
        invariant
            widths_ok(w@),
            a <= i <= b <= w@.len(),
            s == width_sum(w@, a as int, i as int),
        decreases b - i,
    {
        proof {
            lemma_width_sum_bound(w@, a as int, i + 1);
        }
        s = s + w[i];
        i = i + 1;
    }
    s
}

/// The columns shown, `start..end`, for the cursor column and the
/// remembered offset in `avail` cells; see `window_start` and
/// `window_end`.
pub fn visible_columns(w: &Vec<usize>, col_offset: usize, cursor_col: usize, avail: usize) -> (r: (usize, usize))
    requires
        widths_ok(w@),
        w@.len() > 0,
    ensures
        ({
            let cursor = if cursor_col < w@.len() { cursor_col as int } else { w@.len() - 1 };
            let s = window_start(w@, if col_offset < cursor { col_offset as int } else { cursor }, cursor, avail as nat);
            &&& r.0 == s
            &&& r.1 == window_end(w@, cursor + 1, width_sum(w@, s, cursor + 1), avail as nat)
        }),
        r.0 < r.1 <= w@.len(),
{
    let cursor = if cursor_col < w.len() { cursor_col } else { w.len() - 1 };
    let mut start = if col_offset < cursor { col_offset } else { cursor };
    loop
        invariant
            widths_ok(w@),
            cursor < w@.len(),
            start <= cursor,
            window_start(w@, if col_offset < cursor { col_offset as int } else { cursor as int }, cursor as int, avail as nat)
                == window_start(w@, start as int, cursor as int, avail as nat),
        ensures
            start <= cursor,
            window_start(w@, if col_offset < cursor { col_offset as int } else { cursor as int }, cursor as int, avail as nat)
                == start as int,
        decreases cursor - start,
    {
        let s = sum_widths(w, start, cursor + 1);
        if s <= avail || start == cursor {
            break;
        }
        start = start + 1;
    }
    let mut end = cursor + 1;
    let mut sum = sum_widths(w, start, end);
    proof {
        lemma_width_sum_bound(w@, start as int, end as int);
    }
    while end < w.len()
        invariant
            widths_ok(w@),
            start <= cursor < end <= w@.len(),
            sum == width_sum(w@, start as int, end as int),
            sum <= 30 * (end - start),
            window_end(w@, cursor + 1, width_sum(w@, start as int, cursor + 1), avail as nat)
                == window_end(w@, end as int, sum as nat, avail as nat),
        ensures
            start <= cursor < end <= w@.len(),
            window_end(w@, cursor + 1, width_sum(w@, start as int, cursor + 1), avail as nat) == end as int,
        decreases w@.len() - end,
    {
        let next = w[end];
        if sum + next <= avail {
            sum = sum + next;
            end = end + 1;
        } else {
            break;
        }
    }
    (start, end)
}

/// Groups of table rows: whether each shows a label line, and how many rows
/// it has (one line each).
pub open spec fn table_groups(groups: Seq<(bool, usize)>) -> Seq<(bool, Seq<usize>)> {
    groups.map_values(|g: (bool, usize)| (g.0, Seq::new(g.1 as nat, |_i: int| 0usize)))
}

/// The number of rows of the groups.
pub open spec fn table_sizes(groups: Seq<(bool, usize)>) -> Seq<usize> {
    groups.map_values(|g: (bool, usize)| g.1)
}

/// The cell under the mouse in the table view: the data row on the mouse's
/// line of the body (from the line below the heading to the end of `main`,
/// which stops at the last line of the terminal), and the last column shown, when the mouse is at or right of
/// the table's left edge. `None` when there are no rows, above or below the
/// body, on a group's label line, past the rows, or left of the table.
pub fn hit_test(
    groups: &Vec<(bool, usize)>,
    widths: &Vec<usize>,
    col_offset: usize,
    cursor_col: usize,
    main: Area,
    mouse_row: u16,
    mouse_col: u16,
) -> (r: Option<(usize, usize)>)
    requires
        widths_ok(widths@),
        widths@.len() > 0,
        sum_lens(table_sizes(groups@)) <= usize::MAX,
    ensures
        ({
            let body_start = main.y + 1;
            let body_end = if main.y + main.height > u16::MAX { u16::MAX as int } else { main.y + main.height };
            let cols = visible_columns_spec(widths@, col_offset, cursor_col, main.width as nat);
            if sum_lens(table_sizes(groups@)) == 0 || mouse_row < body_start || mouse_row >= body_end
                || mouse_col < main.x {
                r is None
            } else {
                match list_row_at(table_groups(groups@), mouse_row - body_start, 0, 0, 0) {
                    Some(row) => r == Some((row as usize, (cols.1 - 1) as usize)),
                    None => r is None,
                }
            }
        }),
{
    let mut lines: Vec<(bool, Vec<usize>)> = Vec::new();
    let mut g: usize = 0;
    while g < groups.len()
        invariant
            g <= groups@.len(),
            list_groups(lines@) == table_groups(groups@).take(g as int),
            group_sizes(lines@) == table_sizes(groups@).take(g as int),
        decreases groups@.len() - g,
    {
        let n = groups[g].1;
        let mut zeros: Vec<usize> = Vec::new();
        let mut k: usize = 0;
        while k < n
            invariant
                k <= n,
                zeros@ == Seq::new(k as nat, |_i: int| 0usize),
            decreases n - k,
        {
            zeros.push(0);
            k = k + 1;
            proof {
                assert(zeros@ =~= Seq::new(k as nat, |_i: int| 0usize));
            }
        }
        let ghost before = lines@;
        let ghost zv = zeros@;
        let label = groups[g].0;
        lines.push((label, zeros));
        proof {
            assert(zv =~= Seq::new(n as nat, |_i: int| 0usize));
            assert(lines@ == before.push((label, lines@.last().1)));
            assert(lines@.last().1@ == zv);
            assert(list_groups(lines@) =~= list_groups(before).push((label, zv)));
            assert(table_groups(groups@).take(g + 1) =~= table_groups(groups@).take(g as int).push(
                (label, Seq::new(n as nat, |_i: int| 0usize)),
            ));
            assert(list_groups(lines@) =~= table_groups(groups@).take(g + 1));
            assert(group_sizes(lines@) =~= group_sizes(before).push(n));
            assert(table_sizes(groups@).take(g + 1) =~= table_sizes(groups@).take(g as int).push(n));
        }
        g = g + 1;
    }
    proof {
        assert(table_groups(groups@).take(groups@.len() as int) == table_groups(groups@));
        assert(table_sizes(groups@).take(groups@.len() as int) == table_sizes(groups@));
    }
    let mut total: usize = 0;
    let mut t: usize = 0;
    while t < groups.len()
        invariant
            t <= groups@.len(),
            sum_lens(table_sizes(groups@)) <= usize::MAX,
            total == sum_lens(table_sizes(groups@).take(t as int)),
        decreases groups@.len() - t,
    {
        proof {
            assert(table_sizes(groups@).take(t + 1).drop_last() =~= table_sizes(groups@).take(t as int));
            lemma_sum_lens_prefix(table_sizes(groups@), t + 1);
        }
        total = total + groups[t].1;
        t = t + 1;
    }
    proof {
        assert(table_sizes(groups@).take(groups@.len() as int) == table_sizes(groups@));
    }
    if total == 0 {
        return None;
    }
    let body_end: u16 = main.y.saturating_add(main.height);
    if (mouse_row as u32) < main.y as u32 + 1 || mouse_row >= body_end {
        return None;
    }
    let body_start: u16 = main.y + 1;
    let row = match hit_test_list(&lines, body_start, body_end, mouse_row) {
        Some(row) => row,
        None => {
            return None;
        },
    };
    if mouse_col < main.x {
        return None;
    }
    let (start, end) = visible_columns(widths, col_offset, cursor_col, main.width as usize);
    Some((row, end - 1))
}

/// The columns `visible_columns` gives.
pub open spec fn visible_columns_spec(w: Seq<usize>, col_offset: usize, cursor_col: usize, avail: nat) -> (int, int) {
    let cursor = if cursor_col < w.len() { cursor_col as int } else { w.len() - 1 };
    let s = window_start(w, if col_offset < cursor { col_offset as int } else { cursor }, cursor, avail);
    (s, window_end(w, cursor + 1, width_sum(w, s, cursor + 1), avail))
}

proof fn lemma_sum_lens_prefix(s: Seq<usize>, n: int)
    requires
        0 <= n <= s.len(),
    ensures
        sum_lens(s.take(n)) <= sum_lens(s),
    decreases s.len() - n,
{
    if n < s.len() {
        lemma_sum_lens_prefix(s, n + 1);
        assert(s.take(n + 1).drop_last() == s.take(n));
    } else {
        assert(s.take(n) == s);
    }
}

} // verus!
