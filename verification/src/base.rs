//! `.base` files: their model, the default file, and cursor movement in a
//! base view.
use vstd::prelude::*;
use std::collections::BTreeMap;
use crate::paths::{path_parent, path_file_stem, parent_of, file_stem_of};
use crate::text::{concat_str, chars_of, eq_lit, to_lowercase, unicode_lowercase};

verus! {

/// A filter: a formula, or a combination of filters.
#[derive(Debug, PartialEq)]
pub enum FilterNode {
    Combined(FilterNodeMap),
    Expr(String),
}

/// Combinations of filters: all of `and`, any of `or`, none of `not`, or a
/// single formula `expr`.
#[derive(Debug, PartialEq, Default)]
pub struct FilterNodeMap {
    pub and: Option<Vec<FilterNode>>,
    pub or: Option<Vec<FilterNode>>,
    pub not: Option<Vec<FilterNode>>,
    pub expr: Option<String>,
}

/// Sort direction of a grouping.
#[derive(Debug, Clone, Copy, PartialEq, Eq, Structural, Default)]
pub enum SortDirection {
    #[default]
    Asc,
    Desc,
}

/// The property rows are grouped by.
#[derive(Debug, Clone, PartialEq)]
pub struct GroupBy {
    pub property: String,
    pub direction: SortDirection,
}

impl GroupBy {
    /// No property, ascending.
    pub fn new() -> (r: GroupBy)
        ensures
            r.property@ == Seq::<char>::empty(),
            r.direction == SortDirection::Asc,
    {
        GroupBy { property: String::new(), direction: SortDirection::Asc }
    }
}

/// How a view lays out its rows.
#[derive(Debug, Clone, Copy, PartialEq, Eq, Structural, Default)]
pub enum ViewType {
    #[default]
    Table,
    List,
    Cards,
    MapView,
}

/// One view of a base.
#[derive(Debug, PartialEq, Default)]
pub struct BaseView {
    pub view_type: ViewType,
    pub name: Option<String>,
    pub limit: Option<usize>,
    pub filters: Option<FilterNode>,
    pub group_by: Option<GroupBy>,
    pub order: Vec<String>,
    pub summaries: Option<BTreeMap<String, String>>,
}

/// Display settings of a property.
#[derive(Debug, Clone, PartialEq, Default)]
pub struct PropertyDisplay {
    pub display_name: Option<String>,
}

/// A `.base` file.
#[derive(Debug, PartialEq, Default)]
pub struct BaseFile {
    pub filters: Option<FilterNode>,
    pub formulas: BTreeMap<String, String>,
    pub properties: BTreeMap<String, PropertyDisplay>,
    pub summaries: BTreeMap<String, String>,
    pub views: Vec<BaseView>,
}

/// The base a new `.base` file starts with: no filters, formulas,
/// properties or summaries, and one table view named "Table".
pub fn default_base_file() -> (r: BaseFile)
    ensures
        r.filters is None,
        r.formulas@ == Map::<String, String>::empty(),
        r.properties@ == Map::<String, PropertyDisplay>::empty(),
        r.summaries@ == Map::<String, String>::empty(),
        r.views@.len() == 1,
        r.views@[0].view_type == ViewType::Table,
        r.views@[0].name matches Some(n) && n@ == "Table"@,
        r.views@[0].limit is None,
        r.views@[0].filters is None,
        r.views@[0].group_by is None,
        r.views@[0].order@.len() == 0,
        r.views@[0].summaries is None,
{
    let view = BaseView {
        view_type: ViewType::Table,
        name: Some(String::from_str("Table")),
        limit: None,
        filters: None,
        group_by: None,
        order: Vec::new(),
        summaries: None,
    };
    let mut views = Vec::new();
    views.push(view);
    BaseFile {
        filters: None,
        formulas: BTreeMap::new(),
        properties: BTreeMap::new(),
        summaries: BTreeMap::new(),
        views,
    }
}

// ---------------------------------------------------------------------------
// Cursor movement
// ---------------------------------------------------------------------------

/// The marker of list views.
#[derive(Debug, Clone, Copy, PartialEq, Eq, Structural, Default)]
pub enum ListMarker {
    #[default]
    Bullet,
    Numbered,
    Plain,
}

/// The marker after `m` in the cycle bullet, numbered, plain.
pub open spec fn next_marker(m: ListMarker) -> ListMarker {
    match m {
        ListMarker::Bullet => ListMarker::Numbered,
        ListMarker::Numbered => ListMarker::Plain,
        ListMarker::Plain => ListMarker::Bullet,
    }
}

/// The marker a list view switches to; other views keep theirs.
pub fn cycle_list_marker(marker: ListMarker, view: Option<ViewType>) -> (r: ListMarker)
    ensures
        r == if view == Some(ViewType::List) {
            next_marker(marker)
        } else {
            marker
        },
{
    match view {
        Some(ViewType::List) => match marker {
            ListMarker::Bullet => ListMarker::Numbered,
            ListMarker::Numbered => ListMarker::Plain,
            ListMarker::Plain => ListMarker::Bullet,
        },
        _ => marker,
    }
}

/// Cycling the marker three times gives it back.
pub proof fn marker_cycle_period(m: ListMarker)
    ensures
        next_marker(next_marker(next_marker(m))) == m,
        next_marker(m) != m,
{
}

/// The selected cell of a base view.
#[derive(Debug, Clone, Copy, PartialEq, Eq, Structural, Default)]
pub struct BaseCursor {
    pub row: usize,
    pub col: usize,
}

/// The sum of the group sizes.
pub open spec fn sum_lens(g: Seq<usize>) -> int
    decreases g.len(),
{
    if g.len() == 0 {
        0
    } else {
        sum_lens(g.drop_last()) + g.last()
    }
}

/// Number of rows over all groups.
pub fn total_rows(group_lens: &Vec<usize>) -> (r: usize)
    requires
        sum_lens(group_lens@) <= usize::MAX,
    ensures
        r == sum_lens(group_lens@),
{
    let mut total: usize = 0;
    let mut i: usize = 0;
    while i < group_lens.len()
        invariant
            i <= group_lens@.len(),
            total == sum_lens(group_lens@.take(i as int)),
            sum_lens(group_lens@) <= usize::MAX,
        decreases group_lens.len() - i,
    {
        proof {
            assert(group_lens@.take(i + 1).drop_last() =~= group_lens@.take(i as int));
            lemma_sum_prefix_le(group_lens@, i + 1);
        }
        total = total + group_lens[i];
        i = i + 1;
    }
    assert(group_lens@.take(i as int) =~= group_lens@);
    total
}

/// A prefix of the sizes sums to no more than all of them.
pub proof fn lemma_sum_prefix_le(g: Seq<usize>, k: int)
    requires
        0 <= k <= g.len(),
    ensures
        sum_lens(g.take(k)) <= sum_lens(g),
        sum_lens(g.take(k)) >= 0,
    decreases g.len(),
{
    if k < g.len() {
        assert(g.drop_last().take(k) =~= g.take(k));
        lemma_sum_prefix_le(g.drop_last(), k);
    } else {
        assert(g.take(k) =~= g);
    }
    lemma_sum_nonneg(g.take(k));
}

/// Sizes sum to no less than zero.
pub proof fn lemma_sum_nonneg(g: Seq<usize>)
    ensures
        sum_lens(g) >= 0,
    decreases g.len(),
{
    if g.len() > 0 {
        lemma_sum_nonneg(g.drop_last());
    }
}

/// The group and the position in it of row `idx` when groups of lengths
/// `g` are listed one after another; `None` past the last row.
pub open spec fn row_location(g: Seq<usize>, idx: int) -> Option<(int, int)>
    decreases g.len(),
{
    if g.len() == 0 {
        None
    } else if idx < g[0] {
        Some((0, idx))
    } else {
        match row_location(g.drop_first(), idx - g[0]) {
            Some((gi, ri)) => Some((gi + 1, ri)),
            None => None,
        }
    }
}

/// The group and position of row `idx`.
pub fn locate_row(group_lens: &Vec<usize>, idx: usize) -> (r: Option<(usize, usize)>)
    ensures
        match r {
            Some((gi, ri)) => row_location(group_lens@, idx as int) == Some((gi as int, ri as int)),
            None => row_location(group_lens@, idx as int) is None,
        },
{
    let mut current: usize = 0;
    let mut i: usize = 0;
    assert(group_lens@.skip(0) =~= group_lens@);
    while i < group_lens.len()
        invariant
            i <= group_lens@.len(),
            current <= idx,
            row_location(group_lens@, idx as int) == match row_location(
                group_lens@.skip(i as int),
                idx - current,
            ) {
                Some((gi, ri)) => Some((gi + i, ri)),
                None => None,
            },
        decreases group_lens.len() - i,
    {
        let ghost rest = group_lens@.skip(i as int);
        assert(rest[0] == group_lens@[i as int]);
        assert(rest.drop_first() =~= group_lens@.skip(i + 1));
        if idx - current < group_lens[i] {
            return Some((i, idx - current));
        }
        current = current + group_lens[i];
        i = i + 1;
    }
    None
}

/// Rows a table page shows: the area height less its two border rows, at
/// least one.
pub fn page_size(height: u16) -> (r: usize)
    ensures
        r == if height >= 3 {
            (height - 2) as usize
        } else {
            1
        },
{
    let h = if height >= 2 {
        height - 2
    } else {
        0
    };
    if h < 1 {
        1
    } else {
        h as usize
    }
}

/// Rows one page step moves: the cards on screen (at least one) in a
/// cards view, a table page otherwise.
pub fn page_step(is_cards: bool, cards_per_screen: usize, height: u16) -> (r: usize)
    ensures
        r >= 1,
        is_cards ==> r == if cards_per_screen >= 1 {
            cards_per_screen
        } else {
            1
        },
        !is_cards ==> r == if height >= 3 {
            (height - 2) as usize
        } else {
            1
        },
{
    if is_cards {
        if cards_per_screen >= 1 {
            cards_per_screen
        } else {
            1
        }
    } else {
        page_size(height)
    }
}

impl BaseCursor {
    /// One row up, stopping at the first.
    pub fn move_up(&mut self)
        ensures
            final(self).row == if old(self).row > 0 {
                (old(self).row - 1) as usize
            } else {
                0
            },
            final(self).col == old(self).col,
    {
        if self.row > 0 {
            self.row = self.row - 1;
        }
    }

    /// One row down, stopping at the last of `total` rows.
    pub fn move_down(&mut self, total: usize)
        ensures
            final(self).row == if total > 0 && old(self).row + 1 < total {
                (old(self).row + 1) as usize
            } else {
                old(self).row
            },
            final(self).col == old(self).col,
    {
        if total > 0 && self.row < total - 1 {
            self.row = self.row + 1;
        }
    }

    /// One page up, stopping at the first row.
    pub fn page_up(&mut self, page: usize)
        ensures
            final(self).row == if old(self).row >= page {
                (old(self).row - page) as usize
            } else {
                0
            },
            final(self).col == old(self).col,
    {
        self.row = if self.row >= page {
            self.row - page
        } else {
            0
        };
    }

    /// One page down, stopping at the last of `total` rows.
    pub fn page_down(&mut self, total: usize, page: usize)
        requires
            old(self).row + page <= usize::MAX,
        ensures
            final(self).row == if total > 0 {
                if old(self).row + page < total - 1 {
                    (old(self).row + page) as usize
                } else {
                    (total - 1) as usize
                }
            } else {
                old(self).row
            },
            final(self).col == old(self).col,
    {
        if total > 0 {
            let target = self.row + page;
            self.row = if target < total - 1 {
                target
            } else {
                total - 1
            };
        }
    }

    /// The first row.
    pub fn jump_to_top(&mut self)
        ensures
            final(self).row == 0,
            final(self).col == old(self).col,
    {
        self.row = 0;
    }

    /// The last of `total` rows (row 0 when there is none).
    pub fn jump_to_bottom(&mut self, total: usize)
        ensures
            final(self).row == if total > 0 {
                (total - 1) as usize
            } else {
                0
            },
            final(self).col == old(self).col,
    {
        self.row = if total > 0 {
            total - 1
        } else {
            0
        };
    }

    /// One column left, stopping at the first.
    pub fn move_left(&mut self)
        ensures
            final(self).col == if old(self).col > 0 {
                (old(self).col - 1) as usize
            } else {
                0
            },
            final(self).row == old(self).row,
    {
        if self.col > 0 {
            self.col = self.col - 1;
        }
    }

    /// One column right, stopping at the last of `total` columns.
    pub fn move_right(&mut self, total: usize)
        ensures
            final(self).col == if total > 0 && old(self).col + 1 < total {
                (old(self).col + 1) as usize
            } else {
                old(self).col
            },
            final(self).row == old(self).row,
    {
        if total > 0 && self.col < total - 1 {
            self.col = self.col + 1;
        }
    }
}

/// Moving never leaves the rows: from a row among `total`, every move ends
/// on a row among `total`.
pub proof fn cursor_stays_in_rows(row: usize, total: usize, page: usize)
    requires
        row < total,
    ensures
        (if row > 0 {
            row - 1
        } else {
            0
        }) < total,
        (if row + 1 < total {
            row + 1
        } else {
            row as int
        }) < total,
        (if row + page < total - 1 {
            row + page
        } else {
            total - 1
        }) < total,
        (if row >= page {
            row - page
        } else {
            0
        }) < total,
{
}

/// The view after `index` in a base with `count` views, wrapping around.
pub fn next_view_index(index: usize, count: usize) -> (r: usize)
    requires
        count > 0,
        index < usize::MAX,
    ensures
        r == (index + 1) % (count as int),
{
    (index + 1) % count
}


/// A column of a base table: the property key and its heading.
pub struct ColumnDef {
    pub key: String,
    pub display: String,
}

/// What an event in a base view asks of the application.
#[derive(Debug, Clone, Copy, PartialEq, Eq, Structural)]
pub enum BaseInput {
    Nothing,
    Open,
    Back,
    Help,
    Refresh,
    NewNote,
}

/// Cells joined by tabs.
pub open spec fn tab_joined(cells: Seq<Seq<char>>) -> Seq<char>
    decreases cells.len(),
{
    if cells.len() == 0 {
        Seq::empty()
    } else if cells.len() == 1 {
        cells[0]
    } else {
        tab_joined(cells.drop_last()) + seq!['\t'] + cells.last()
    }
}

/// Rows of cells as tab-separated lines, each ended by a line break.
pub open spec fn tsv_lines(rows: Seq<Seq<Seq<char>>>) -> Seq<char>
    decreases rows.len(),
{
    if rows.len() == 0 {
        Seq::empty()
    } else {
        tsv_lines(rows.drop_last()) + tab_joined(rows.last()) + seq!['\n']
    }
}

/// The views of a row of cells.
pub open spec fn cell_views(cells: Seq<String>) -> Seq<Seq<char>> {
    cells.map_values(|c: String| c@)
}

/// The views of rows of cells.
pub open spec fn row_views(rows: Seq<Vec<String>>) -> Seq<Seq<Seq<char>>> {
    rows.map_values(|r: Vec<String>| cell_views(r@))
}

/// Appends one tab-separated line to `out`.
fn push_tsv_line(out: &mut String, cells: &Vec<String>)
    ensures
        final(out)@ == old(out)@ + tab_joined(cell_views(cells@)) + seq!['\n'],
{
    let ghost start = out@;
    let mut i: usize = 0;
    while i < cells.len()
        invariant
            i <= cells@.len(),
            out@ == start + tab_joined(cell_views(cells@.take(i as int))),
        decreases cells@.len() - i,
    {
        proof {
            assert(cells@.take(i + 1).drop_last() == cells@.take(i as int));
            assert(cell_views(cells@.take(i + 1)).drop_last() =~= cell_views(cells@.take(i as int)));
            assert(cell_views(cells@.take(i + 1)).last() == cells@[i as int]@);
        }
        if i > 0 {
            out.push('\t');
        }
        let next = concat_str(out.as_str(), cells[i].as_str());
        *out = next;
        proof {
            if i == 0 {
                assert(cell_views(cells@.take(1)) =~= seq![cells@[0]@]);
            }
        }
        i = i + 1;
    }
    proof {
        assert(cells@.take(cells@.len() as int) == cells@);
    }
    out.push('\n');
}

/// A table as tab-separated text: the headings on the first line, then one
/// line per row, cells in column order. `rows` holds each row's cells as
/// they are shown.
pub fn table_tsv(columns: &Vec<ColumnDef>, rows: &Vec<Vec<String>>) -> (r: String)
    ensures
        r@ == tsv_lines(
            seq![columns@.map_values(|c: ColumnDef| c.display@)] + row_views(rows@),
        ),
{
    let mut headings: Vec<String> = Vec::new();
    let mut c: usize = 0;
    while c < columns.len()
        invariant
            c <= columns@.len(),
            cell_views(headings@) == columns@.take(c as int).map_values(|c: ColumnDef| c.display@),
        decreases columns@.len() - c,
    {
        let ghost pre = headings@;
        headings.push(columns[c].display.clone());
        proof {
            assert(cell_views(headings@) =~= cell_views(pre).push(columns@[c as int].display@));
            assert(columns@.take(c + 1).map_values(|c: ColumnDef| c.display@) =~= columns@.take(
                c as int,
            ).map_values(|c: ColumnDef| c.display@).push(columns@[c as int].display@));
        }
        c = c + 1;
    }
    proof {
        assert(columns@.take(columns@.len() as int) == columns@);
    }
    let ghost all = seq![columns@.map_values(|c: ColumnDef| c.display@)] + row_views(rows@);
    let mut out = String::new();
    push_tsv_line(&mut out, &headings);
    proof {
        assert(all.take(1) =~= seq![cell_views(headings@)]);
        assert(all.take(1).drop_last() =~= Seq::<Seq<Seq<char>>>::empty());
        assert(all.take(1).last() == cell_views(headings@));
        assert(tsv_lines(all.take(1).drop_last()) == Seq::<char>::empty());
        assert(out@ =~= tsv_lines(all.take(1)));
    }
    let mut i: usize = 0;
    while i < rows.len()
        invariant
            i <= rows@.len(),
            all == seq![columns@.map_values(|c: ColumnDef| c.display@)] + row_views(rows@),
            out@ == tsv_lines(all.take(i + 1)),
        decreases rows@.len() - i,
    {
        push_tsv_line(&mut out, &rows[i]);
        proof {
            assert(all.take(i + 2).drop_last() =~= all.take(i + 1));
            assert(all.take(i + 2).last() == cell_views(rows@[i as int]@));
        }
        i = i + 1;
    }
    proof {
        assert(all.take(rows@.len() + 1 as int) == all);
    }
    out
}

/// The folder a note created from a base goes to: that of the base file,
/// or the top of the vault.
pub fn new_note_folder(base_id: &str) -> (r: String)
    ensures
        match path_parent(base_id@) {
            Some(p) => r@ == p,
            None => r@ == Seq::<char>::empty(),
        },
{
    match parent_of(base_id) {
        Some(p) => p,
        None => String::new(),
    }
}

/// Where a base is exported as CSV, relative to the vault: beside the base
/// file, named after it (`export` when it has no name), with `.csv`.
pub fn csv_export_rel_path(base_id: &str) -> (r: String)
    ensures
        ({
            let stem = match path_file_stem(base_id@) {
                Some(s) => s,
                None => "export"@,
            };
            let folder = match path_parent(base_id@) {
                Some(p) => p,
                None => Seq::<char>::empty(),
            };
            r@ == if folder.len() == 0 {
                stem + ".csv"@
            } else {
                folder + "/"@ + stem + ".csv"@
            }
        }),
{
    let stem = match file_stem_of(base_id) {
        Some(s) => s,
        None => String::from_str("export"),
    };
    let folder = new_note_folder(base_id);
    if folder.unicode_len() == 0 {
        concat_str(stem.as_str(), ".csv")
    } else {
        let a = concat_str(folder.as_str(), "/");
        let b = concat_str(a.as_str(), stem.as_str());
        concat_str(b.as_str(), ".csv")
    }
}


/// A rectangle of the terminal: its top-left cell and its size.
#[derive(Debug, Clone, Copy, PartialEq, Eq, Structural, Default)]
pub struct Area {
    pub x: u16,
    pub y: u16,
    pub width: u16,
    pub height: u16,
}

/// The width of a card of the cards view.
pub const CARD_W: u16 = 28;

/// The height of a card of the cards view.
pub const CARD_H: u16 = 7;

/// The grid of the cards view: columns and rows of cards that fit (at
/// least one each), cards per screen, and the first card of the screen that
/// holds `cursor_row`.
pub open spec fn cards_grid(width: u16, height: u16, cursor_row: usize) -> (nat, nat, nat, nat) {
    let cols: nat = if width / CARD_W >= 1 {
        (width / CARD_W) as nat
    } else {
        1
    };
    let rows: nat = if height / CARD_H >= 1 {
        (height / CARD_H) as nat
    } else {
        1
    };
    let per = cols * rows;
    (cols, rows, per, (((cursor_row as nat) / per) * per) as nat)
}

/// The grid of the cards view in an area.
pub fn cards_layout(area: Area, cursor_row: usize) -> (r: (usize, usize, usize, usize))
    ensures
        (r.0 as nat, r.1 as nat, r.2 as nat, r.3 as nat) == cards_grid(area.width, area.height, cursor_row),
        r.2 >= 1,
        r.3 <= cursor_row,
{
    let cols: usize = if area.width / CARD_W >= 1 {
        (area.width / CARD_W) as usize
    } else {
        1
    };
    let rows: usize = if area.height / CARD_H >= 1 {
        (area.height / CARD_H) as usize
    } else {
        1
    };
    assert(cols * rows <= 2341 * 9363) by (nonlinear_arith)
        requires
            1 <= cols <= 2341,
            1 <= rows <= 9363,
    ;
    assert(cols * rows >= 1) by (nonlinear_arith)
        requires
            1 <= cols,
            1 <= rows,
    ;
    let per = cols * rows;
    assert((cursor_row / per) * per <= cursor_row) by (nonlinear_arith)
        requires
            per >= 1,
    ;
    let first = (cursor_row / per) * per;
    (cols, rows, per, first)
}

/// The card under the mouse in the cards view, if it shows a row.
pub open spec fn card_at(
    total_rows: usize,
    area: Area,
    cursor_row: usize,
    mouse_row: u16,
    mouse_col: u16,
) -> Option<nat> {
    let (cols, rows, per, first) = cards_grid(area.width, area.height, cursor_row);
    let dr = mouse_row - area.y;
    let dc = mouse_col - area.x;
    let tile_row: nat = if dr <= 0 {
        0
    } else {
        (dr / (CARD_H as int)) as nat
    };
    let tile_col: nat = if dc <= 0 {
        0
    } else {
        (dc / (CARD_W as int)) as nat
    };
    if total_rows == 0 || tile_row >= rows || tile_col >= cols {
        None
    } else {
        let data_row = first + tile_row * cols + tile_col;
        if data_row < total_rows {
            Some(data_row)
        } else {
            None
        }
    }
}

/// The row of the card under the mouse in the cards view.
pub fn hit_test_cards(total_rows: usize, area: Area, cursor_row: usize, mouse_row: u16, mouse_col: u16) -> (r:
    Option<usize>)
    ensures
        match card_at(total_rows, area, cursor_row, mouse_row, mouse_col) {
            Some(i) => r == Some(i as usize),
            None => r is None,
        },
{
    if total_rows == 0 {
        return None;
    }
    let (cols, rows, per, first) = cards_layout(area, cursor_row);
    let tile_row: usize = if mouse_row <= area.y {
        0
    } else {
        ((mouse_row - area.y) / CARD_H) as usize
    };
    let tile_col: usize = if mouse_col <= area.x {
        0
    } else {
        ((mouse_col - area.x) / CARD_W) as usize
    };
    if tile_row >= rows || tile_col >= cols {
        return None;
    }
    assert(tile_row * cols + tile_col < rows * cols) by (nonlinear_arith)
        requires
            tile_row < rows,
            tile_col < cols,
    ;
    assert(rows * cols == per) by (nonlinear_arith)
        requires
            per == cols * rows,
    ;
    let offset = tile_row * cols + tile_col;
    if offset >= total_rows || first >= total_rows - offset {
        return None;
    }
    Some(first + offset)
}

/// The row under the mouse in the list view. Each group shows a separator
/// line first when it has a label, then its rows, each `heights[i]` lines
/// tall; the list body spans lines `body_start..body_end`. `None` on a
/// separator, outside the body and past the rows.
pub open spec fn list_row_at(
    groups: Seq<(bool, Seq<usize>)>,
    rel: int,
    g: int,
    consumed: int,
    data_base: int,
) -> Option<nat>
    decreases groups.len() - g, 2 + groups[g].1.len(),
{
    if g < 0 || g >= groups.len() {
        None
    } else if groups[g].0 {
        if consumed == rel {
            None
        } else {
            list_rows_at(groups, rel, g, 0, consumed + 1, data_base)
        }
    } else {
        list_rows_at(groups, rel, g, 0, consumed, data_base)
    }
}

/// `list_row_at` from row `k` of group `g` on.
pub open spec fn list_rows_at(
    groups: Seq<(bool, Seq<usize>)>,
    rel: int,
    g: int,
    k: int,
    consumed: int,
    data_base: int,
) -> Option<nat>
    decreases groups.len() - g, 1int + groups[g].1.len() - k,
{
    if g < 0 || g >= groups.len() || k < 0 {
        None
    } else if k >= groups[g].1.len() {
        list_row_at(groups, rel, g + 1, consumed, data_base + groups[g].1.len())
    } else {
        let h = 1 + groups[g].1[k];
        if consumed <= rel && rel < consumed + h {
            Some((data_base + k) as nat)
        } else {
            list_rows_at(groups, rel, g, k + 1, consumed + h, data_base)
        }
    }
}


/// The groups of a list view as the hit test sees them: whether each shows
/// a label line, and the extra lines of each of its rows.
pub open spec fn list_groups(groups: Seq<(bool, Vec<usize>)>) -> Seq<(bool, Seq<usize>)> {
    groups.map_values(|g: (bool, Vec<usize>)| (g.0, g.1@))
}

/// The number of rows of each group.
pub open spec fn group_sizes(groups: Seq<(bool, Vec<usize>)>) -> Seq<usize> {
    groups.map_values(|g: (bool, Vec<usize>)| g.1@.len() as usize)
}

/// The row under the mouse in the list view; see `list_row_at`.
/// `groups[i]` tells whether group `i` has a label line and how many extra
/// lines each of its rows takes (one per non-empty extra column).
pub fn hit_test_list(groups: &Vec<(bool, Vec<usize>)>, body_start: u16, body_end: u16, mouse_row: u16) -> (r:
    Option<usize>)
    requires
        sum_lens(group_sizes(groups@)) <= usize::MAX,
    ensures
        (mouse_row < body_start || mouse_row >= body_end) ==> r is None,
        (body_start <= mouse_row < body_end) ==> match list_row_at(
            list_groups(groups@),
            mouse_row - body_start,
            0,
            0,
            0,
        ) {
            Some(i) => r == Some(i as usize),
            None => r is None,
        },
{
    if mouse_row < body_start || mouse_row >= body_end {
        return None;
    }
    let rel: usize = (mouse_row - body_start) as usize;
    let ghost gs = list_groups(groups@);
    let ghost target = list_row_at(gs, rel as int, 0, 0, 0);
    let mut consumed: usize = 0;
    let mut data_base: usize = 0;
    let mut g: usize = 0;
    while g < groups.len()
        invariant
            gs == list_groups(groups@),
            target == list_row_at(gs, rel as int, 0, 0, 0),
            sum_lens(group_sizes(groups@)) <= usize::MAX,
            body_start <= mouse_row < body_end,
            rel == mouse_row - body_start,
            g <= groups@.len(),
            consumed <= rel,
            rel < 65536,
            data_base == sum_lens(group_sizes(groups@).take(g as int)),
            target == list_row_at(gs, rel as int, g as int, consumed as int, data_base as int),
        decreases groups@.len() - g,
    {
        let group = &groups[g];
        proof {
            assert(gs[g as int] == (group.0, group.1@));
        }
        proof {
            sum_lens_prefix_bound(group_sizes(groups@), g as int);
            assert(groups@[g as int] == *group);
            assert(group.1@.len() == group.1.len());
            assert(group_sizes(groups@)[g as int] == group.1@.len());
        }
        if group.0 {
            if consumed == rel {
                return None;
            }
            consumed = consumed + 1;
        }
        let mut k: usize = 0;
        while k < group.1.len()
            invariant
                gs == list_groups(groups@),
                gs[g as int] == (group.0, group.1@),
                g < groups@.len(),
                body_start <= mouse_row < body_end,
                rel == mouse_row - body_start,
                target == list_row_at(gs, rel as int, 0, 0, 0),
                data_base + group.1@.len() <= usize::MAX,
                k <= group.1@.len(),
                consumed <= rel,
                rel < 65536,
                target == list_rows_at(gs, rel as int, g as int, k as int, consumed as int, data_base as int),
            decreases group.1@.len() - k,
        {
            let extra = group.1[k];
            if rel - consumed <= extra {
                proof {
                    assert(gs[g as int].1[k as int] == extra);
                    assert(list_rows_at(gs, rel as int, g as int, k as int, consumed as int, data_base as int)
                        == Some((data_base + k) as nat));
                }
                return Some(data_base + k);
            }
            consumed = consumed + 1 + extra;
            k = k + 1;
        }
        proof {
            assert(group_sizes(groups@).take(g + 1).drop_last() == group_sizes(groups@).take(g as int));
            assert(groups@[g as int] == *group);
            assert(group.1@.len() == group.1.len());
            assert(group_sizes(groups@)[g as int] == group.1@.len());
            sum_lens_prefix_bound(group_sizes(groups@), g + 1);
        }
        data_base = data_base + group.1.len();
        g = g + 1;
    }
    None
}

/// A prefix of the group sizes sums to no more than all of them, and the
/// sizes up to and including group `g` do too.
proof fn sum_lens_prefix_bound(s: Seq<usize>, n: int)
    requires
        0 <= n <= s.len(),
    ensures
        sum_lens(s.take(n)) <= sum_lens(s),
        n < s.len() ==> sum_lens(s.take(n)) + s[n] <= sum_lens(s),
    decreases s.len() - n,
{
    if n < s.len() {
        sum_lens_prefix_bound(s, n + 1);
        assert(s.take(n + 1).drop_last() == s.take(n));
    } else {
        assert(s.take(n) == s);
    }
}


/// The glyph of a Lucide icon name, in any letter case, for a few common
/// names; `None` for the others.
pub open spec fn lucide_glyph(lower: Seq<char>) -> Option<Seq<char>> {
    if lower == "map-pin"@ || lower == "pin"@ {
        Some("\u{1f4cd}"@)
    } else if lower == "star"@ {
        Some("\u{2605}"@)
    } else if lower == "heart"@ {
        Some("\u{2665}"@)
    } else if lower == "flag"@ {
        Some("\u{2691}"@)
    } else if lower == "bookmark"@ {
        Some("\u{1f516}"@)
    } else if lower == "home"@ {
        Some("\u{2302}"@)
    } else if lower == "circle"@ {
        Some("\u{25cf}"@)
    } else if lower == "square"@ {
        Some("\u{25a0}"@)
    } else if lower == "diamond"@ {
        Some("\u{25c6}"@)
    } else {
        None
    }
}

/// The glyph that marks a map pin with a Lucide icon name.
pub fn lucide_to_glyph(name: &str) -> (r: Option<&'static str>)
    ensures
        match lucide_glyph(unicode_lowercase(name@)) {
            Some(g) => r matches Some(x) && x@ == g,
            None => r is None,
        },
{
    let lower = to_lowercase(name);
    let v = chars_of(lower.as_str());
    if eq_lit(&v, "map-pin") || eq_lit(&v, "pin") {
        Some("\u{1f4cd}")
    } else if eq_lit(&v, "star") {
        Some("\u{2605}")
    } else if eq_lit(&v, "heart") {
        Some("\u{2665}")
    } else if eq_lit(&v, "flag") {
        Some("\u{2691}")
    } else if eq_lit(&v, "bookmark") {
        Some("\u{1f516}")
    } else if eq_lit(&v, "home") {
        Some("\u{2302}")
    } else if eq_lit(&v, "circle") {
        Some("\u{25cf}")
    } else if eq_lit(&v, "square") {
        Some("\u{25a0}")
    } else if eq_lit(&v, "diamond") {
        Some("\u{25c6}")
    } else {
        None
    }
}

} // verus!
