use vstd::prelude::*;

verus! {

/// The gap, in pixels, that is put before every item of the menu after the first row
/// began to wrap.
pub const ITEM_SPACING: u32 = 2;

/// How many rows the profile menu can hold.
pub const MAX_MENU_ROWS: usize = 4;

/// The margin, in pixels, added around and between menu items.
pub const ITEM_MARGIN: u32 = 8;

/// The line at which the first row of the menu is drawn.
pub const FIRST_ROW_Y: u32 = 30;

/// The gap between a row of the menu and the next.
pub const ROW_GAP: u32 = 8;

/// How many menu items stand in each row, in a fixed-capacity vector of the `heapless`
/// crate (room for `MAX_MENU_ROWS` rows).
#[verifier::external_body]
pub struct RowCounts {
    rows: heapless::Vec<u8, 4>,
}

/// The item counts held in a `RowCounts`, in row order.
pub uninterp spec fn row_counts(rows: RowCounts) -> Seq<u8>;

impl RowCounts {
    /// Calls `heapless::Vec::new`: an empty vector.
    #[verifier::external_body]
    fn new() -> (r: Self)
        ensures
            row_counts(r) == Seq::<u8>::empty(),
    {
        RowCounts { rows: heapless::Vec::new() }
    }

    /// Calls `heapless::Vec::push`: appends `count` where fewer than four rows are held
    /// (and answers `true`), else leaves the vector as it is (and answers `false`).
    #[verifier::external_body]
    fn push(&mut self, count: u8) -> (ok: bool)
        ensures
            ok == (row_counts(*old(self)).len() < 4),
            ok ==> row_counts(*final(self)) == row_counts(*old(self)).push(count),
            !ok ==> row_counts(*final(self)) == row_counts(*old(self)),
    {
        self.rows.push(count).is_ok()
    }

    /// Copies the counts out, in row order (an iteration over the `heapless` vector).
    #[verifier::external_body]
    pub fn to_vec(&self) -> (v: Vec<u8>)
        ensures
            v@ == row_counts(*self),
    {
        self.rows.iter().copied().collect()
    }
}

/// The state of the greedy row layout after some items.
pub struct RowsFold {
    /// The item counts of the rows already closed.
    pub rows: Seq<u8>,
    /// How many rows were closed.
    pub column: int,
    /// The width used in the open row.
    pub row_width: int,
    /// How many items stand in the open row.
    pub items: int,
    /// Whether the layout got this far without overflowing a counter or the row vector.
    pub ok: bool,
}

/// The width an item of `len` characters takes: the characters, plus the spacing once any
/// row has been closed.
pub open spec fn item_width(len: u32, char_width: u32, column: int) -> int {
    len * char_width + if column > 0 {
        ITEM_SPACING as int
    } else {
        0
    }
}

/// The row layout after the first `n` items of `lens` (character counts): an item that
/// does not fit in the open row closes it and opens the next.
pub open spec fn rows_after(max_width: u32, lens: Seq<u32>, char_width: u32, n: int) -> RowsFold
    decreases n,
{
    if n <= 0 {
        RowsFold { rows: Seq::empty(), column: 0, row_width: 0, items: 0, ok: true }
    } else {
        let f = rows_after(max_width, lens, char_width, n - 1);
        let w = item_width(lens[n - 1], char_width, f.column);
        if !f.ok || w > u32::MAX || f.row_width + w > u32::MAX {
            RowsFold { ok: false, ..f }
        } else if f.row_width + w > max_width {
            RowsFold {
                rows: f.rows.push(f.items as u8),
                column: f.column + 1,
                row_width: w,
                items: 1,
                ok: f.rows.len() < MAX_MENU_ROWS,
            }
        } else {
            RowsFold {
                rows: f.rows,
                column: f.column,
                row_width: f.row_width + w,
                items: f.items + 1,
                ok: f.items + 1 <= u8::MAX,
            }
        }
    }
}

/// The item counts of the rows for items of `lens` characters, or `None` where a width or
/// count overflows or more than `MAX_MENU_ROWS` rows are needed.
pub open spec fn arrangement(max_width: u32, lens: Seq<u32>, char_width: u32) -> Option<Seq<u8>> {
    let f = rows_after(max_width, lens, char_width, lens.len() as int);
    if f.ok && f.rows.len() < MAX_MENU_ROWS {
        Some(f.rows.push(f.items as u8))
    } else {
        None
    }
}

proof fn lemma_rows_after_bounds(max_width: u32, lens: Seq<u32>, char_width: u32, n: int)
    requires
        0 <= n <= lens.len(),
    ensures
        ({
            let f = rows_after(max_width, lens, char_width, n);
            f.ok ==> {
                &&& 0 <= f.row_width <= u32::MAX
                &&& 0 <= f.items <= u8::MAX
                &&& f.rows.len() <= MAX_MENU_ROWS
                &&& f.column == f.rows.len()
                &&& f.column <= MAX_MENU_ROWS
            }
        }),
    decreases n,
{
    if n > 0 {
        lemma_rows_after_bounds(max_width, lens, char_width, n - 1);
    }
}

proof fn lemma_failure_persists(max_width: u32, lens: Seq<u32>, char_width: u32, k: int, n: int)
    requires
        0 <= k <= n,
        !rows_after(max_width, lens, char_width, k).ok,
    ensures
        !rows_after(max_width, lens, char_width, n).ok,
    decreases n - k,
{
    if k < n {
        lemma_failure_persists(max_width, lens, char_width, k, n - 1);
    }
}

/// Lays items of `lens` characters out in rows `max_width` pixels wide; `None` where the
/// layout overflows (see `arrangement`).
pub fn arrange_rows_checked(max_width: u32, lens: &Vec<u32>, char_width: u32) -> (rows: Option<
    RowCounts,
>)
    ensures
        rows matches Some(r) ==> arrangement(max_width, lens@, char_width) == Some(row_counts(r)),
        rows is None ==> arrangement(max_width, lens@, char_width) is None,
{
    let mut rows = RowCounts::new();
    let mut column: u32 = 0;
    let mut row_width: u32 = 0;
    let mut items_in_row: u8 = 0;
    let mut i: usize = 0;
    while i < lens.len()
        invariant
            i <= lens@.len(),
            ({
                let f = rows_after(max_width, lens@, char_width, i as int);
                &&& f.ok
                &&& f.rows == row_counts(rows)
                &&& f.column == column
                &&& f.row_width == row_width
                &&& f.items == items_in_row
            }),
        decreases lens@.len() - i,
    {
        proof {
            lemma_rows_after_bounds(max_width, lens@, char_width, i as int);
        }
        proof {
            vstd::arithmetic::mul::lemma_mul_upper_bound(
                lens@[i as int] as int,
                u32::MAX as int,
                char_width as int,
                u32::MAX as int,
            );
        }
        let chars = lens[i] as u64 * char_width as u64;
        let spacing: u64 = if column > 0 {
            ITEM_SPACING as u64
        } else {
            0
        };
        let w = chars + spacing;
        if w > u32::MAX as u64 || row_width as u64 + w > u32::MAX as u64 {
            proof {
                lemma_failure_persists(max_width, lens@, char_width, i + 1, lens@.len() as int);
            }
            return None;
        }
        let w = w as u32;
        if row_width + w > max_width {
            if !rows.push(items_in_row) {
                proof {
                    lemma_failure_persists(max_width, lens@, char_width, i + 1, lens@.len() as int);
                }
                return None;
            }
            row_width = 0;
            items_in_row = 0;
            column = column + 1;
        }
        if items_in_row == u8::MAX {
            proof {
                lemma_failure_persists(max_width, lens@, char_width, i + 1, lens@.len() as int);
            }
            return None;
        }
        row_width = row_width + w;
        items_in_row = items_in_row + 1;
        i = i + 1;
    }
    proof {
        lemma_rows_after_bounds(max_width, lens@, char_width, lens@.len() as int);
    }
    if rows.push(items_in_row) {
        Some(rows)
    } else {
        None
    }
}

/// Lays items of `lens` characters out in rows of at most `max_width` pixels, greedily: an
/// item goes into the open row while it fits there, else it opens a new row.
pub fn arrange_rows(max_width: u32, lens: &Vec<u32>, char_width: u32) -> (rows: RowCounts)
    requires
        arrangement(max_width, lens@, char_width) is Some,
    ensures
        arrangement(max_width, lens@, char_width) == Some(row_counts(rows)),
{
    match arrange_rows_checked(max_width, lens, char_width) {
        Some(rows) => rows,
        None => RowCounts::new(),
    }
}

/// The sum of row counts.
pub open spec fn total_count(rows: Seq<u8>) -> int
    decreases rows.len(),
{
    if rows.len() == 0 {
        0
    } else {
        total_count(rows.drop_last()) + rows.last()
    }
}

proof fn lemma_rows_after_counts(max_width: u32, lens: Seq<u32>, char_width: u32, n: int)
    requires
        0 <= n <= lens.len(),
        rows_after(max_width, lens, char_width, n).ok,
    ensures
        total_count(rows_after(max_width, lens, char_width, n).rows) + rows_after(
            max_width,
            lens,
            char_width,
            n,
        ).items == n,
    decreases n,
{
    if n > 0 {
        let f = rows_after(max_width, lens, char_width, n - 1);
        if !f.ok {
            lemma_failure_persists(max_width, lens, char_width, n - 1, n);
        }
        lemma_rows_after_counts(max_width, lens, char_width, n - 1);
        lemma_rows_after_bounds(max_width, lens, char_width, n - 1);
        assert(f.rows.push(f.items as u8).drop_last() =~= f.rows);
    }
}

/// Every item of the menu is placed in exactly one row: the row counts add up to the
/// number of items.
pub proof fn law_every_item_placed_once(max_width: u32, lens: Seq<u32>, char_width: u32)
    requires
        arrangement(max_width, lens, char_width) is Some,
    ensures
        total_count(arrangement(max_width, lens, char_width)->0) == lens.len(),
{
    let f = rows_after(max_width, lens, char_width, lens.len() as int);
    lemma_rows_after_counts(max_width, lens, char_width, lens.len() as int);
    lemma_rows_after_bounds(max_width, lens, char_width, lens.len() as int);
    assert(f.rows.push(f.items as u8).drop_last() =~= f.rows);
}

/// Where one menu item is drawn: its index among the items, the top left corner of its
/// text, the text's width in pixels, and whether it is the selected item.
#[derive(Clone, Copy, PartialEq, Eq, Structural, Debug)]
pub struct ItemPlacement {
    pub index: usize,
    pub x: u32,
    pub y: u32,
    pub width: u32,
    pub selected: bool,
}

/// The text width of the `n` items from `start` on (fewer where the items run out), or
/// `None` where a width or the sum overflows.
pub open spec fn row_text_width(lens: Seq<u32>, char_width: u32, start: int, n: int) -> Option<int>
    decreases n,
{
    if n <= 0 {
        Some(0)
    } else {
        match row_text_width(lens, char_width, start, n - 1) {
            None => None,
            Some(acc) => if start + n - 1 >= lens.len() {
                Some(acc)
            } else {
                let w = lens[start + n - 1] * char_width;
                if w > u32::MAX || acc + w > u32::MAX {
                    None
                } else {
                    Some(acc + w)
                }
            },
        }
    }
}

/// The placements of items `e` to `n - 1` of the row that starts at item `start`, the
/// first of them at `x`; `None` where an item is missing or a coordinate overflows.
pub open spec fn place_row(
    lens: Seq<u32>,
    char_width: u32,
    selected: int,
    start: int,
    x: int,
    y: int,
    e: int,
    n: int,
) -> Option<Seq<ItemPlacement>>
    decreases n - e,
{
    if e >= n {
        Some(Seq::empty())
    } else if start + e >= lens.len() {
        None
    } else {
        let idx = start + e;
        let w = lens[idx] * char_width;
        if w > u32::MAX || w + ITEM_MARGIN > u32::MAX || x + w + ITEM_MARGIN > u32::MAX {
            None
        } else {
            let item = ItemPlacement {
                index: idx as usize,
                x: x as u32,
                y: y as u32,
                width: w as u32,
                selected: selected == idx,
            };
            match place_row(lens, char_width, selected, start, x + w + ITEM_MARGIN, y, e + 1, n) {
                None => None,
                Some(rest) => Some(seq![item] + rest),
            }
        }
    }
}

/// The placements of the items of rows `r` and after, row `r` starting at item `start`
/// and drawn at line `y`: each row is centred on the display, with `ITEM_MARGIN` after
/// each item and `ITEM_MARGIN` added to the row's width; every row after the first is
/// drawn at line `char_height + ROW_GAP`. `None` where a row is wider than the display or
/// a coordinate overflows.
pub open spec fn place_rows(
    display_width: u32,
    lens: Seq<u32>,
    char_width: u32,
    char_height: u32,
    selected: int,
    rows: Seq<u8>,
    r: int,
    start: int,
    y: int,
) -> Option<Seq<ItemPlacement>>
    decreases rows.len() - r,
{
    if r >= rows.len() || r < 0 {
        Some(Seq::empty())
    } else {
        let n = rows[r] as int;
        match row_text_width(lens, char_width, start, n) {
            None => None,
            Some(text_width) => {
                let row_width = text_width + ITEM_MARGIN;
                if row_width > u32::MAX || row_width > display_width {
                    None
                } else {
                    let x = (display_width - row_width) / 2;
                    match place_row(lens, char_width, selected, start, x, y, 0, n) {
                        None => None,
                        Some(items) => if char_height + ROW_GAP > u32::MAX {
                            None
                        } else {
                            match place_rows(
                                display_width,
                                lens,
                                char_width,
                                char_height,
                                selected,
                                rows,
                                r + 1,
                                start + n,
                                char_height + ROW_GAP,
                            ) {
                                None => None,
                                Some(rest) => Some(items + rest),
                            }
                        },
                    }
                }
            },
        }
    }
}

/// The placements of all menu items, or `None` where the rows or a coordinate overflow.
pub open spec fn menu_layout(
    display_width: u32,
    lens: Seq<u32>,
    char_width: u32,
    char_height: u32,
    selected: int,
) -> Option<Seq<ItemPlacement>> {
    match arrangement(display_width, lens, char_width) {
        None => None,
        Some(rows) => place_rows(
            display_width,
            lens,
            char_width,
            char_height,
            selected,
            rows,
            0,
            0,
            FIRST_ROW_Y as int,
        ),
    }
}

fn row_text_width_exec(lens: &Vec<u32>, char_width: u32, start: usize, n: u8) -> (w: Option<u32>)
    ensures
        w matches Some(v) ==> row_text_width(lens@, char_width, start as int, n as int) == Some(
            v as int,
        ),
        w is None ==> row_text_width(lens@, char_width, start as int, n as int) is None,
{
    let mut acc: u32 = 0;
    let mut k: u8 = 0;
    while k < n
        invariant
            k <= n,
            row_text_width(lens@, char_width, start as int, k as int) == Some(acc as int),
        decreases n - k,
    {
        proof {
            if (start as int) + (k as int) < lens@.len() {
                vstd::arithmetic::mul::lemma_mul_upper_bound(
                    lens@[start + k] as int,
                    u32::MAX as int,
                    char_width as int,
                    u32::MAX as int,
                );
            }
        }
        if start < lens.len() && (k as usize) < lens.len() - start {
            let w = lens[start + k as usize] as u64 * char_width as u64;
            if w > u32::MAX as u64 || acc as u64 + w > u32::MAX as u64 {
                proof {
                    lemma_row_text_width_failure_persists(lens@, char_width, start as int, k + 1, n as int);
                }
                return None;
            }
            acc = acc + w as u32;
        }
        k = k + 1;
    }
    Some(acc)
}

proof fn lemma_row_text_width_failure_persists(lens: Seq<u32>, char_width: u32, start: int, k: int, n: int)
    requires
        0 <= k <= n,
        row_text_width(lens, char_width, start, k) is None,
    ensures
        row_text_width(lens, char_width, start, n) is None,
    decreases n - k,
{
    if k < n {
        lemma_row_text_width_failure_persists(lens, char_width, start, k, n - 1);
    }
}

fn place_row_exec(
    lens: &Vec<u32>,
    char_width: u32,
    selected: usize,
    start: usize,
    x0: u32,
    y: u32,
    n: u8,
    out: &mut Vec<ItemPlacement>,
) -> (ok: bool)
    ensures
        ok ==> (place_row(lens@, char_width, selected as int, start as int, x0 as int, y as int, 0, n as int)
            matches Some(items) && final(out)@ == old(out)@ + items),
        !ok ==> place_row(lens@, char_width, selected as int, start as int, x0 as int, y as int, 0, n as int)
            is None,
{
    let ghost base = old(out)@;
    let mut x = x0;
    let mut e: u8 = 0;
    while e < n
        invariant
            e <= n,
            ({
                let whole = place_row(lens@, char_width, selected as int, start as int, x0 as int, y as int, 0, n as int);
                let rest = place_row(lens@, char_width, selected as int, start as int, x as int, y as int, e as int, n as int);
                &&& (rest is None ==> whole is None)
                &&& (rest matches Some(r) ==> (whole matches Some(w) && w == out@.subrange(base.len() as int, out@.len() as int) + r))
                &&& out@.subrange(0, base.len() as int) == base
                &&& base.len() <= out@.len()
            }),
        decreases n - e,
    {
        if start >= lens.len() || (e as usize) >= lens.len() - start {
            return false;
        }
        let idx = start + e as usize;
        proof {
            vstd::arithmetic::mul::lemma_mul_upper_bound(
                lens@[idx as int] as int,
                u32::MAX as int,
                char_width as int,
                u32::MAX as int,
            );
        }
        let w = lens[idx] as u64 * char_width as u64;
        if w > u32::MAX as u64 || w + ITEM_MARGIN as u64 > u32::MAX as u64 || x as u64 + w
            + ITEM_MARGIN as u64 > u32::MAX as u64 {
            return false;
        }
        let item = ItemPlacement { index: idx, x, y, width: w as u32, selected: selected == idx };
        let ghost old_out = out@;
        out.push(item);
        proof {
            assert(out@.subrange(base.len() as int, out@.len() as int) =~= old_out.subrange(
                base.len() as int,
                old_out.len() as int,
            ).push(item));
            assert(out@.subrange(0, base.len() as int) =~= old_out.subrange(0, base.len() as int));
            let r_next = place_row(lens@, char_width, selected as int, start as int, (x + w + ITEM_MARGIN) as int, y as int, e + 1, n as int);
            if let Some(r) = r_next {
                assert(old_out.subrange(base.len() as int, old_out.len() as int) + (seq![item] + r)
                    =~= old_out.subrange(base.len() as int, old_out.len() as int).push(item) + r);
            }
        }
        x = x + w as u32 + ITEM_MARGIN;
        e = e + 1;
    }
    proof {
        assert(out@ =~= base + out@.subrange(base.len() as int, out@.len() as int));
    }
    true
}

/// Where the items of the profile menu are drawn on a display `display_width` pixels wide,
/// for items of `lens` characters in a font of `char_width` by `char_height` pixels, with
/// item `selected` highlighted: the items are arranged in rows (see `arrange_rows`) and
/// each row is centred. `None` where a row is wider than the display, the rows do not fit
/// (see `arrangement`) or a coordinate overflows.
pub fn layout_profile_items(
    display_width: u32,
    lens: &Vec<u32>,
    char_width: u32,
    char_height: u32,
    selected: usize,
) -> (placements: Option<Vec<ItemPlacement>>)
    ensures
        placements matches Some(p) ==> menu_layout(display_width, lens@, char_width, char_height, selected as int) == Some(p@),
        placements is None ==> menu_layout(display_width, lens@, char_width, char_height, selected as int) is None,
{
    let rows = match arrange_rows_checked(display_width, lens, char_width) {
        Some(r) => r.to_vec(),
        None => return None,
    };
    let ghost sel = selected as int;
    let mut out: Vec<ItemPlacement> = Vec::new();
    let mut elem_start: usize = 0;
    let mut y: u32 = FIRST_ROW_Y;
    let mut r: usize = 0;
    while r < rows.len()
        invariant
            r <= rows@.len(),
            sel == selected as int,
            arrangement(display_width, lens@, char_width) == Some(rows@),
            elem_start <= r * 255,
            ({
                let whole = place_rows(display_width, lens@, char_width, char_height, sel, rows@, 0, 0, FIRST_ROW_Y as int);
                let rest = place_rows(display_width, lens@, char_width, char_height, sel, rows@, r as int, elem_start as int, y as int);
                &&& (rest is None ==> whole is None)
                &&& (rest matches Some(t) ==> whole == Some(out@ + t))
            }),
        decreases rows@.len() - r,
    {
        proof {
            lemma_arrangement_len(display_width, lens@, char_width);
        }
        let n = rows[r];
        let ghost rest_here = place_rows(display_width, lens@, char_width, char_height, sel, rows@, r as int, elem_start as int, y as int);
        assert(rows@[r as int] == n);
        let text_width = match row_text_width_exec(lens, char_width, elem_start, n) {
            Some(w) => w,
            None => {
                assert(rest_here is None);
                return None;
            },
        };
        if text_width as u64 + ITEM_MARGIN as u64 > u32::MAX as u64 || text_width + ITEM_MARGIN > display_width {
            assert(rest_here is None);
            return None;
        }
        let x = (display_width - (text_width + ITEM_MARGIN)) / 2;
        let ghost before = out@;
        if !place_row_exec(lens, char_width, selected, elem_start, x, y, n, &mut out) {
            assert(rest_here is None);
            return None;
        }
        if char_height as u64 + ROW_GAP as u64 > u32::MAX as u64 {
            assert(rest_here is None);
            return None;
        }
        proof {
            let items = out@.subrange(before.len() as int, out@.len() as int);
            assert(out@ =~= before + items);
            let rest2 = place_rows(display_width, lens@, char_width, char_height, sel, rows@, r + 1, elem_start + n, (char_height + ROW_GAP) as int);
            if let Some(t) = rest2 {
                assert(before + (items + t) =~= out@ + t);
                assert(rest_here == Some(items + t));
            } else {
                assert(rest_here is None);
            }
        }
        y = char_height + ROW_GAP;
        elem_start = elem_start + n as usize;
        r = r + 1;
    }
    Some(out)
}

proof fn lemma_arrangement_len(max_width: u32, lens: Seq<u32>, char_width: u32)
    ensures
        arrangement(max_width, lens, char_width) matches Some(rows) ==> rows.len() <= MAX_MENU_ROWS,
{
    lemma_rows_after_bounds(max_width, lens, char_width, lens.len() as int);
}

/// The pixel width of the texts of items `s` up to (not including) `e`.
pub open spec fn span_width(lens: Seq<u32>, char_width: u32, s: int, e: int) -> int
    decreases e - s,
{
    if e <= s {
        0
    } else {
        span_width(lens, char_width, s, e - 1) + lens[e - 1] * char_width
    }
}

/// The index of the first item of row `r`: the items of the rows before it.
pub open spec fn row_first(rows: Seq<u8>, r: int) -> int {
    total_count(rows.take(r))
}

proof fn lemma_span_front(lens: Seq<u32>, char_width: u32, s: int, e: int)
    requires
        s < e,
    ensures
        span_width(lens, char_width, s, e) == lens[s] * char_width + span_width(
            lens,
            char_width,
            s + 1,
            e,
        ),
    decreases e - s,
{
    assert(span_width(lens, char_width, s, s) == 0);
    assert(span_width(lens, char_width, s + 1, s + 1) == 0);
    if s + 1 < e {
        lemma_span_front(lens, char_width, s, e - 1);
        assert(span_width(lens, char_width, s + 1, e) == span_width(lens, char_width, s + 1, e - 1)
            + lens[e - 1] * char_width);
    }
}

proof fn lemma_total_count_nonneg(rows: Seq<u8>)
    ensures
        total_count(rows) >= 0,
    decreases rows.len(),
{
    if rows.len() > 0 {
        lemma_total_count_nonneg(rows.drop_last());
    }
}

proof fn lemma_span_grows(lens: Seq<u32>, char_width: u32, s: int, e: int)
    ensures
        0 <= span_width(lens, char_width, s, e),
        e > s ==> lens[e - 1] * char_width <= span_width(lens, char_width, s, e),
    decreases e - s,
{
    if e > s {
        vstd::arithmetic::mul::lemma_mul_nonnegative(lens[e - 1] as int, char_width as int);
        lemma_span_grows(lens, char_width, s, e - 1);
    }
}

proof fn lemma_row_text_width_is_span(lens: Seq<u32>, char_width: u32, s: int, n: int)
    requires
        0 <= s,
        0 <= n,
        s + n <= lens.len(),
    ensures
        span_width(lens, char_width, s, s + n) <= u32::MAX ==> row_text_width(
            lens,
            char_width,
            s,
            n,
        ) == Some(span_width(lens, char_width, s, s + n)),
        row_text_width(lens, char_width, s, n) matches Some(w) ==> w == span_width(
            lens,
            char_width,
            s,
            s + n,
        ),
    decreases n,
{
    if n > 0 {
        lemma_row_text_width_is_span(lens, char_width, s, n - 1);
        lemma_span_grows(lens, char_width, s, s + n);
        lemma_span_grows(lens, char_width, s, s + n - 1);
    }
}

proof fn lemma_row_first_steps(rows: Seq<u8>, a: int, b: int)
    requires
        0 <= a <= b <= rows.len(),
    ensures
        0 <= row_first(rows, a) <= row_first(rows, b),
        b < rows.len() ==> row_first(rows, b + 1) == row_first(rows, b) + rows[b],
        row_first(rows, rows.len() as int) == total_count(rows),
    decreases b - a,
{
    lemma_total_count_nonneg(rows.take(a));
    if b < rows.len() {
        assert(rows.take(b + 1).drop_last() =~= rows.take(b));
    }
    assert(rows.take(rows.len() as int) =~= rows);
    if a < b {
        lemma_row_first_steps(rows, a, b - 1);
        assert(rows.take(b).drop_last() =~= rows.take(b - 1));
    }
}

proof fn lemma_place_row(
    lens: Seq<u32>,
    char_width: u32,
    selected: int,
    start: int,
    x: int,
    y: int,
    e: int,
    n: int,
)
    requires
        0 <= e <= n,
        0 <= start,
        start + n <= lens.len() <= usize::MAX,
        0 <= x,
        0 <= y <= u32::MAX,
    ensures
        x + span_width(lens, char_width, start + e, start + n) + (n - e) * ITEM_MARGIN
            <= u32::MAX ==> place_row(lens, char_width, selected, start, x, y, e, n) is Some,
        place_row(lens, char_width, selected, start, x, y, e, n) matches Some(items) ==> {
            &&& items.len() == n - e
            &&& (n > e ==> items[0].x == x)
            &&& forall|k: int|
                0 <= k < items.len() ==> {
                    &&& (#[trigger] items[k]).index == start + e + k
                    &&& items[k].y == y
                    &&& items[k].width == lens[start + e + k] * char_width
                    &&& items[k].selected == (selected == start + e + k)
                }
        },
    decreases n - e,
{
    if e < n {
        let idx = start + e;
        let w = lens[idx] * char_width;
        lemma_span_front(lens, char_width, start + e, start + n);
        lemma_span_grows(lens, char_width, start + e + 1, start + n);
        vstd::arithmetic::mul::lemma_mul_nonnegative(lens[idx] as int, char_width as int);
        lemma_place_row(lens, char_width, selected, start, x + w + ITEM_MARGIN, y, e + 1, n);
        if let Some(items) = place_row(lens, char_width, selected, start, x, y, e, n) {
            let rest = place_row(lens, char_width, selected, start, x + w + ITEM_MARGIN, y, e + 1, n)->0;
            assert(items == seq![items[0]] + rest);
            assert forall|k: int| 0 < k < items.len() implies (#[trigger] items[k]) == rest[k - 1] by {}
        }
    }
}

proof fn lemma_place_rows(
    display_width: u32,
    lens: Seq<u32>,
    char_width: u32,
    char_height: u32,
    selected: int,
    rows: Seq<u8>,
    r: int,
    start: int,
    y: int,
)
    requires
        0 <= r <= rows.len(),
        start == row_first(rows, r),
        total_count(rows) == lens.len() <= usize::MAX,
        0 <= y <= u32::MAX,
    ensures
        ({
            &&& display_width <= 0x4000_0000
            &&& char_height + ROW_GAP <= u32::MAX
            &&& forall|q: int|
                r <= q < rows.len() ==> span_width(
                    lens,
                    char_width,
                    #[trigger] row_first(rows, q),
                    row_first(rows, q) + rows[q],
                ) + ITEM_MARGIN <= display_width
        }) ==> place_rows(display_width, lens, char_width, char_height, selected, rows, r, start, y)
            is Some,
        place_rows(display_width, lens, char_width, char_height, selected, rows, r, start, y)
            matches Some(t) ==> {
            &&& t.len() == lens.len() - start
            &&& forall|k: int|
                0 <= k < t.len() ==> {
                    &&& (#[trigger] t[k]).index == start + k
                    &&& t[k].width == lens[start + k] * char_width
                    &&& t[k].selected == (selected == start + k)
                }
            &&& forall|q: int|
                r <= q < rows.len() && rows[q] > 0 ==> {
                    &&& t[#[trigger] row_first(rows, q) - start].x == (display_width - (span_width(
                        lens,
                        char_width,
                        row_first(rows, q),
                        row_first(rows, q) + rows[q],
                    ) + ITEM_MARGIN)) / 2
                    &&& t[row_first(rows, q) - start].y == (if q == r {
                        y
                    } else {
                        char_height + ROW_GAP
                    })
                }
        },
    decreases rows.len() - r,
{
    lemma_row_first_steps(rows, r, r);
    lemma_row_first_steps(rows, 0, rows.len() as int);
    if r == rows.len() {
        return;
    }
    lemma_row_first_steps(rows, r + 1, rows.len() as int);
    let n = rows[r] as int;
    assert(start + n <= lens.len());
    lemma_row_text_width_is_span(lens, char_width, start, n);
    let span = span_width(lens, char_width, start, start + n);
    lemma_span_grows(lens, char_width, start, start + n);
    if char_height + ROW_GAP <= u32::MAX {
        lemma_place_rows(
            display_width,
            lens,
            char_width,
            char_height,
            selected,
            rows,
            r + 1,
            start + n,
            (char_height + ROW_GAP) as int,
        );
    }
    if span + ITEM_MARGIN <= display_width && display_width <= 0x4000_0000 {
        let x = (display_width - (span + ITEM_MARGIN)) / 2;
        lemma_place_row(lens, char_width, selected, start, x, y, 0, n);
    }
    if let Some(t) = place_rows(display_width, lens, char_width, char_height, selected, rows, r, start, y) {
        let text_width = row_text_width(lens, char_width, start, n)->0;
        let x = (display_width - (text_width + ITEM_MARGIN)) / 2;
        lemma_place_row(lens, char_width, selected, start, x, y, 0, n);
        let items = place_row(lens, char_width, selected, start, x, y, 0, n)->0;
        let rest = place_rows(
            display_width,
            lens,
            char_width,
            char_height,
            selected,
            rows,
            r + 1,
            start + n,
            (char_height + ROW_GAP) as int,
        )->0;
        assert(t == items + rest);
        assert forall|k: int| 0 <= k < t.len() implies {
            &&& (#[trigger] t[k]).index == start + k
            &&& t[k].width == lens[start + k] * char_width
            &&& t[k].selected == (selected == start + k)
        } by {
            if k < n {
                assert(t[k] == items[k]);
            } else {
                assert(t[k] == rest[k - n]);
            }
        }
        assert forall|q: int| r <= q < rows.len() && rows[q] > 0 implies {
            &&& t[#[trigger] row_first(rows, q) - start].x == (display_width - (span_width(
                lens,
                char_width,
                row_first(rows, q),
                row_first(rows, q) + rows[q],
            ) + ITEM_MARGIN)) / 2
            &&& t[row_first(rows, q) - start].y == (if q == r {
                y
            } else {
                char_height + ROW_GAP
            })
        } by {
            if q == r {
                assert(t[0] == items[0]);
            } else {
                lemma_row_first_steps(rows, r + 1, q);
                lemma_row_first_steps(rows, q, rows.len() as int);
                lemma_row_first_steps(rows, q + 1, rows.len() as int);
                assert(t[row_first(rows, q) - start] == rest[row_first(rows, q) - (start + n)]);
            }
        }
    }
}

/// Each row of the menu is centred on the display by its own items: the first item of
/// row `r` stands at half of what the display width leaves beside that row's texts plus
/// `ITEM_MARGIN`. Every item is placed once, in order, as wide as its text, and only the
/// selected one is highlighted; the first row is drawn at `FIRST_ROW_Y`, the others at
/// `char_height + ROW_GAP`. And the layout exists whenever the rows could be arranged and
/// every row's own texts plus `ITEM_MARGIN` fit the display (for displays up to 2^30
/// pixels wide, where no coordinate can overflow).
pub proof fn law_menu_rows_centred(
    display_width: u32,
    lens: Seq<u32>,
    char_width: u32,
    char_height: u32,
    selected: int,
)
    requires
        arrangement(display_width, lens, char_width) is Some,
        lens.len() <= usize::MAX,
    ensures
        ({
            let rows = arrangement(display_width, lens, char_width)->0;
            &&& display_width <= 0x4000_0000
            &&& char_height + ROW_GAP <= u32::MAX
            &&& forall|q: int|
                0 <= q < rows.len() ==> span_width(
                    lens,
                    char_width,
                    #[trigger] row_first(rows, q),
                    row_first(rows, q) + rows[q],
                ) + ITEM_MARGIN <= display_width
        }) ==> menu_layout(display_width, lens, char_width, char_height, selected) is Some,
        menu_layout(display_width, lens, char_width, char_height, selected) matches Some(p) ==> {
            let rows = arrangement(display_width, lens, char_width)->0;
            &&& p.len() == lens.len()
            &&& forall|k: int|
                0 <= k < p.len() ==> {
                    &&& (#[trigger] p[k]).index == k
                    &&& p[k].width == lens[k] * char_width
                    &&& p[k].selected == (selected == k)
                }
            &&& forall|q: int|
                0 <= q < rows.len() && rows[q] > 0 ==> {
                    &&& p[#[trigger] row_first(rows, q)].x == (display_width - (span_width(
                        lens,
                        char_width,
                        row_first(rows, q),
                        row_first(rows, q) + rows[q],
                    ) + ITEM_MARGIN)) / 2
                    &&& p[row_first(rows, q)].y == (if q == 0 {
                        FIRST_ROW_Y as int
                    } else {
                        char_height + ROW_GAP
                    })
                }
        },
{
    let rows = arrangement(display_width, lens, char_width)->0;
    law_every_item_placed_once(display_width, lens, char_width);
    assert(rows.take(0) =~= Seq::<u8>::empty());
    assert(row_first(rows, 0) == 0);
    lemma_place_rows(
        display_width,
        lens,
        char_width,
        char_height,
        selected,
        rows,
        0,
        0,
        FIRST_ROW_Y as int,
    );
}

} // verus!
