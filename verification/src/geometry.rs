//! The layout geometry builder: turns the static key-layout description
//! into a letter → 2-D point map that seeds the external gesture-prediction
//! engine.
//!
//! Coordinates are in integer layout units: the x cursor accumulates the
//! widths of the keys to the left, the y cursor advances by the row height
//! for each row.  The map is produced as the sequence of (letter, x, y)
//! entries in visit order; [`geo_lookup`] reads it with last-write-wins
//! semantics, so a letter that appears on several keys gets the position of
//! the key visited last.

use vstd::prelude::*;

use crate::keys::CapType;
use crate::machine::{lower_char, lower_char_spec};

verus! {

/// A rendered key's static descriptor: its label classification, its
/// labels, and the labels shown when the keymap exposes an AltGr level.
pub struct KeyDef {
    pub cap_type: CapType,
    pub labels: Vec<Vec<char>>,
    pub altgr_labels: Option<Vec<Vec<char>>>,
}

/// One slot of a layout row: a width (in layout units) and, unless the slot
/// is a spacer, the key rendered there.
pub struct KeySlot {
    pub width: u32,
    pub key: Option<KeyDef>,
}

/// The static key-layout description: rows of slots and the row height.
pub struct LayoutDesc {
    pub rows: Vec<Vec<KeySlot>>,
    pub row_height: u32,
}

/// A generous bound on rows and row lengths, so that the integer cursor
/// sums stay far below the u64 range.
pub const MAX_LAYOUT_SIDE: usize = 0x1000;

impl LayoutDesc {
    /// Machine bounds, and the promise the renderer relies on: a letter key
    /// that has labels has a non-empty first label.
    pub open spec fn wf(&self) -> bool {
        &&& self.rows@.len() <= MAX_LAYOUT_SIDE
        &&& forall|i: int|
            0 <= i < self.rows@.len() ==> (#[trigger] self.rows@[i])@.len() <= MAX_LAYOUT_SIDE
        &&& forall|i: int, j: int|
            0 <= i < self.rows@.len() && 0 <= j < self.rows@[i]@.len() ==> slot_labels_wf(
                #[trigger] self.rows@[i]@[j],
            )
    }
}

/// Every label set of the slot's key that is non-empty starts with a
/// non-empty label.
pub open spec fn slot_labels_wf(slot: KeySlot) -> bool {
    match slot.key {
        Some(k) => {
            &&& (k.labels@.len() > 0 ==> k.labels@[0]@.len() > 0)
            &&& (match k.altgr_labels {
                Some(a) => a@.len() > 0 ==> a@[0]@.len() > 0,
                None => true,
            })
        },
        None => true,
    }
}

/// The labels the key currently shows: the AltGr set when the keymap
/// exposes an AltGr level and the key has one, else the base set.
pub open spec fn resolved_labels(k: KeyDef, has_altgr: bool) -> Seq<Vec<char>> {
    if has_altgr && k.altgr_labels is Some {
        k.altgr_labels->0@
    } else {
        k.labels@
    }
}

/// The letter a slot contributes: the lower-cased first character of the
/// first resolved label, when the slot holds a labelled Letter key.
pub open spec fn slot_letter(slot: KeySlot, has_altgr: bool) -> Option<char> {
    match slot.key {
        Some(k) => {
            if k.cap_type == CapType::Letter && resolved_labels(k, has_altgr).len() > 0 {
                Some(lower_char_spec(resolved_labels(k, has_altgr)[0]@[0]))
            } else {
                None
            }
        },
        None => None,
    }
}

/// The x position of slot `j`: the summed widths of the slots before it.
pub open spec fn row_prefix_width(row: Seq<KeySlot>, j: int) -> int
    decreases j,
{
    if j <= 0 {
        0
    } else {
        row_prefix_width(row, j - 1) + row[j - 1].width
    }
}

/// The y position of row `i`: `i` row heights.
pub open spec fn row_y(i: int, row_height: u32) -> int
    decreases i,
{
    if i <= 0 {
        0
    } else {
        row_y(i - 1, row_height) + row_height
    }
}

/// The entries contributed by the first `j` slots of a row at height `y`.
pub open spec fn row_entries(row: Seq<KeySlot>, has_altgr: bool, y: u64, j: int) -> Seq<
    (char, u64, u64),
>
    decreases j,
{
    if j <= 0 {
        Seq::empty()
    } else {
        row_entries(row, has_altgr, y, j - 1) + (match slot_letter(row[j - 1], has_altgr) {
            Some(c) => seq![(c, row_prefix_width(row, j - 1) as u64, y)],
            None => Seq::<(char, u64, u64)>::empty(),
        })
    }
}

/// The entries contributed by the first `i` rows.
pub open spec fn geo_entries(
    rows: Seq<Vec<KeySlot>>,
    has_altgr: bool,
    row_height: u32,
    i: int,
) -> Seq<(char, u64, u64)>
    decreases i,
{
    if i <= 0 {
        Seq::empty()
    } else {
        geo_entries(rows, has_altgr, row_height, i - 1) + row_entries(
            rows[i - 1]@,
            has_altgr,
            row_y(i - 1, row_height) as u64,
            rows[i - 1]@.len() as int,
        )
    }
}

/// The geometry map of the whole layout.
pub open spec fn geo_map(layout: LayoutDesc, has_altgr: bool) -> Seq<(char, u64, u64)> {
    geo_entries(layout.rows@, has_altgr, layout.row_height, layout.rows@.len() as int)
}

/// The position recorded for `c`: that of the entry written last.
pub open spec fn geo_lookup(entries: Seq<(char, u64, u64)>, c: char) -> Option<(u64, u64)>
    decreases entries.len(),
{
    if entries.len() == 0 {
        None
    } else if entries.last().0 == c {
        Some((entries.last().1, entries.last().2))
    } else {
        geo_lookup(entries.drop_last(), c)
    }
}

proof fn lemma_row_prefix_width_bound(row: Seq<KeySlot>, j: int)
    requires
        0 <= j <= row.len(),
    ensures
        0 <= row_prefix_width(row, j) <= j * 0x1_0000_0000,
    decreases j,
{
    if j > 0 {
        lemma_row_prefix_width_bound(row, j - 1);
    }
}

proof fn lemma_row_y_bound(i: int, row_height: u32)
    requires
        0 <= i,
    ensures
        0 <= row_y(i, row_height) <= i * 0x1_0000_0000,
    decreases i,
{
    if i > 0 {
        lemma_row_y_bound(i - 1, row_height);
    }
}

/// Builds the letter → point entries for a keymap on this layout, walking
/// rows top to bottom and slots left to right, so that a duplicated letter
/// keeps the position of its last visited key under [`geo_lookup`].
pub fn build_key_to_char_point_map(layout: &LayoutDesc, has_altgr: bool) -> (r: Vec<
    (char, u64, u64),
>)
    requires
        layout.wf(),
    ensures
        r@ == geo_map(*layout, has_altgr),
{
    let mut out: Vec<(char, u64, u64)> = Vec::new();
    let mut pos_y: u64 = 0;
    let mut i: usize = 0;
    let rows_n = layout.rows.len();
    while i < rows_n
        invariant
            layout.wf(),
            rows_n == layout.rows@.len(),
            i <= rows_n,
            pos_y == row_y(i as int, layout.row_height),
            out@ == geo_entries(layout.rows@, has_altgr, layout.row_height, i as int),
        decreases rows_n - i,
    {
        let row = &layout.rows[i];
        let cols_n = row.len();
        let mut pos_x: u64 = 0;
        let mut j: usize = 0;
        while j < cols_n
            invariant
                layout.wf(),
                rows_n == layout.rows@.len(),
                i < rows_n,
                row == layout.rows@[i as int],
                cols_n == row@.len(),
                j <= cols_n,
                pos_y == row_y(i as int, layout.row_height),
                pos_x == row_prefix_width(row@, j as int),
                out@ == geo_entries(layout.rows@, has_altgr, layout.row_height, i as int)
                    + row_entries(row@, has_altgr, pos_y, j as int),
            decreases cols_n - j,
        {
            let slot = &row[j];
            match &slot.key {
                Some(k) => {
                    let labels: &Vec<Vec<char>> = if has_altgr {
                        match &k.altgr_labels {
                            Some(a) => a,
                            None => &k.labels,
                        }
                    } else {
                        &k.labels
                    };
                    if k.cap_type == CapType::Letter && labels.len() > 0 {
                        let first = &labels[0];
                        assert(first@.len() > 0) by {
                            assert(slot_labels_wf(layout.rows@[i as int]@[j as int]));
                        }
                        let c = lower_char(first[0]);
                        out.push((c, pos_x, pos_y));
                    }
                },
                None => {},
            }
            proof {
                assert(out@ == geo_entries(layout.rows@, has_altgr, layout.row_height, i as int)
                    + row_entries(row@, has_altgr, pos_y, j + 1));
                lemma_row_prefix_width_bound(row@, j + 1);
                assert(cols_n * 0x1_0000_0000 <= 0x1000 * 0x1_0000_0000);
            }
            pos_x = pos_x + slot.width as u64;
            j += 1;
        }
        proof {
            lemma_row_y_bound(i + 1, layout.row_height);
            assert(rows_n * 0x1_0000_0000 <= 0x1000 * 0x1_0000_0000);
        }
        pos_y = pos_y + layout.row_height as u64;
        i += 1;
    }
    out
}

/// Reads the geometry map: the position of the last entry recorded for `c`.
pub fn geometry_lookup(entries: &Vec<(char, u64, u64)>, c: char) -> (r: Option<(u64, u64)>)
    ensures
        r == geo_lookup(entries@, c),
{
    let mut i: usize = entries.len();
    proof {
        assert(entries@.take(i as int) =~= entries@);
    }
    while i > 0
        invariant
            i <= entries.len(),
            geo_lookup(entries@, c) == geo_lookup(entries@.take(i as int), c),
        decreases i,
    {
        i -= 1;
        if entries[i].0 == c {
            proof {
                assert(entries@.take(i + 1).last() == entries@[i as int]);
            }
            return Some((entries[i].1, entries[i].2));
        }
        proof {
            assert(entries@.take(i + 1).last() == entries@[i as int]);
            assert(entries@.take(i + 1).drop_last() =~= entries@.take(i as int));
        }
    }
    proof {
        assert(entries@.take(0).len() == 0);
    }
    None
}

/// Every letter that was ever recorded is present in the map.
pub proof fn lemma_geo_lookup_present(entries: Seq<(char, u64, u64)>, k: int)
    requires
        0 <= k < entries.len(),
    ensures
        geo_lookup(entries, entries[k].0) is Some,
    decreases entries.len(),
{
    if k < entries.len() - 1 && entries.last().0 != entries[k].0 {
        lemma_geo_lookup_present(entries.drop_last(), k);
    }
}

proof fn lemma_row_entries_contains(row: Seq<KeySlot>, has_altgr: bool, y: u64, j: int, j2: int)
    requires
        0 <= j < j2 <= row.len(),
        slot_letter(row[j], has_altgr) is Some,
    ensures
        exists|k: int|
            0 <= k < row_entries(row, has_altgr, y, j2).len() && (#[trigger] row_entries(
                row,
                has_altgr,
                y,
                j2,
            )[k]).0 == slot_letter(row[j], has_altgr)->0,
    decreases j2,
{
    let c = slot_letter(row[j], has_altgr)->0;
    if j2 == j + 1 {
        let prev = row_entries(row, has_altgr, y, j);
        assert(row_entries(row, has_altgr, y, j2)[prev.len() as int].0 == c);
    } else {
        lemma_row_entries_contains(row, has_altgr, y, j, j2 - 1);
        let prev = row_entries(row, has_altgr, y, j2 - 1);
        let k = choose|k: int| 0 <= k < prev.len() && (#[trigger] prev[k]).0 == c;
        assert(row_entries(row, has_altgr, y, j2)[k].0 == c);
    }
}

proof fn lemma_geo_entries_contains(
    rows: Seq<Vec<KeySlot>>,
    has_altgr: bool,
    row_height: u32,
    i: int,
    j: int,
    i2: int,
)
    requires
        0 <= i < i2 <= rows.len(),
        0 <= j < rows[i]@.len(),
        slot_letter(rows[i]@[j], has_altgr) is Some,
    ensures
        exists|k: int|
            0 <= k < geo_entries(rows, has_altgr, row_height, i2).len() && (#[trigger] geo_entries(
                rows,
                has_altgr,
                row_height,
                i2,
            )[k]).0 == slot_letter(rows[i]@[j], has_altgr)->0,
    decreases i2,
{
    let c = slot_letter(rows[i]@[j], has_altgr)->0;
    if i2 == i + 1 {
        let prev = geo_entries(rows, has_altgr, row_height, i);
        let row = rows[i]@;
        lemma_row_entries_contains(row, has_altgr, row_y(i, row_height) as u64, j, row.len() as int);
        let re = row_entries(row, has_altgr, row_y(i, row_height) as u64, row.len() as int);
        let k = choose|k: int| 0 <= k < re.len() && (#[trigger] re[k]).0 == c;
        assert(geo_entries(rows, has_altgr, row_height, i2)[prev.len() + k].0 == c);
    } else {
        lemma_geo_entries_contains(rows, has_altgr, row_height, i, j, i2 - 1);
        let prev = geo_entries(rows, has_altgr, row_height, i2 - 1);
        let k = choose|k: int| 0 <= k < prev.len() && (#[trigger] prev[k]).0 == c;
        assert(geo_entries(rows, has_altgr, row_height, i2)[k].0 == c);
    }
}

/// Looking a letter up in a concatenation reads the later part first.
proof fn lemma_geo_lookup_concat(a: Seq<(char, u64, u64)>, b: Seq<(char, u64, u64)>, c: char)
    ensures
        geo_lookup(a + b, c) == (match geo_lookup(b, c) {
            Some(p) => Some(p),
            None => geo_lookup(a, c),
        }),
    decreases b.len(),
{
    if b.len() == 0 {
        assert(a + b =~= a);
    } else {
        assert((a + b).last() == b.last());
        if b.last().0 != c {
            assert((a + b).drop_last() =~= a + b.drop_last());
            lemma_geo_lookup_concat(a, b.drop_last(), c);
        }
    }
}

/// A row whose first `j2` slots never show letter `c` contributes no entry
/// for `c`.
proof fn lemma_row_entries_absent(row: Seq<KeySlot>, has_altgr: bool, y: u64, j2: int, c: char)
    requires
        0 <= j2 <= row.len(),
        forall|j: int| 0 <= j < j2 ==> slot_letter(#[trigger] row[j], has_altgr) != Some(c),
    ensures
        geo_lookup(row_entries(row, has_altgr, y, j2), c) is None,
    decreases j2,
{
    if j2 > 0 {
        lemma_row_entries_absent(row, has_altgr, y, j2 - 1, c);
        let prev = row_entries(row, has_altgr, y, j2 - 1);
        match slot_letter(row[j2 - 1], has_altgr) {
            Some(c2) => {
                assert(c2 != c);
                let tail = seq![(c2, row_prefix_width(row, j2 - 1) as u64, y)];
                assert(tail.last().0 == c2);
                assert(geo_lookup(tail.drop_last(), c) is None);
                assert(geo_lookup(tail, c) is None);
                lemma_geo_lookup_concat(prev, tail, c);
            },
            None => {
                assert(row_entries(row, has_altgr, y, j2) =~= prev);
            },
        }
    }
}

/// Within one row, the entry of slot `j` survives to the end of the row
/// when no later slot of the row shows the same letter.
proof fn lemma_row_entries_last(row: Seq<KeySlot>, has_altgr: bool, y: u64, j: int, j2: int)
    requires
        0 <= j < j2 <= row.len(),
        slot_letter(row[j], has_altgr) is Some,
        forall|jl: int|
            j < jl < row.len() ==> slot_letter(#[trigger] row[jl], has_altgr) != slot_letter(
                row[j],
                has_altgr,
            ),
    ensures
        geo_lookup(row_entries(row, has_altgr, y, j2), slot_letter(row[j], has_altgr)->0) == Some(
            (row_prefix_width(row, j) as u64, y),
        ),
    decreases j2,
{
    let c = slot_letter(row[j], has_altgr)->0;
    if j2 == j + 1 {
        let prev = row_entries(row, has_altgr, y, j);
        let tail = seq![(c, row_prefix_width(row, j) as u64, y)];
        assert(row_entries(row, has_altgr, y, j2) == prev + tail);
        assert((prev + tail).last() == tail[0]);
    } else {
        lemma_row_entries_last(row, has_altgr, y, j, j2 - 1);
        let prev = row_entries(row, has_altgr, y, j2 - 1);
        match slot_letter(row[j2 - 1], has_altgr) {
            Some(c2) => {
                assert(slot_letter(row[j2 - 1], has_altgr) != slot_letter(row[j], has_altgr));
                assert(c2 != c);
                let tail = seq![(c2, row_prefix_width(row, j2 - 1) as u64, y)];
                assert(tail.last().0 == c2);
                assert(geo_lookup(tail.drop_last(), c) is None);
                assert(geo_lookup(tail, c) is None);
                lemma_geo_lookup_concat(prev, tail, c);
            },
            None => {
                assert(row_entries(row, has_altgr, y, j2) =~= prev);
            },
        }
    }
}

/// The geometry map records, for the letter of slot `(i, j)`, exactly that
/// slot's position when no later-visited slot shows the same letter: when
/// duplicates exist, the last visit wins.
pub proof fn lemma_geo_map_last_visit_wins(layout: LayoutDesc, has_altgr: bool, i: int, j: int)
    requires
        0 <= i < layout.rows@.len(),
        0 <= j < layout.rows@[i]@.len(),
        slot_letter(layout.rows@[i]@[j], has_altgr) is Some,
        forall|jl: int|
            j < jl < layout.rows@[i]@.len() ==> slot_letter(
                #[trigger] layout.rows@[i]@[jl],
                has_altgr,
            ) != slot_letter(layout.rows@[i]@[j], has_altgr),
        forall|il: int, jl: int|
            i < il < layout.rows@.len() && 0 <= jl < layout.rows@[il]@.len() ==> slot_letter(
                #[trigger] layout.rows@[il]@[jl],
                has_altgr,
            ) != slot_letter(layout.rows@[i]@[j], has_altgr),
    ensures
        geo_lookup(geo_map(layout, has_altgr), slot_letter(layout.rows@[i]@[j], has_altgr)->0)
            == Some(
            (
                row_prefix_width(layout.rows@[i]@, j) as u64,
                row_y(i, layout.row_height) as u64,
            ),
        ),
{
    let rows = layout.rows@;
    let rh = layout.row_height;
    let c = slot_letter(rows[i]@[j], has_altgr)->0;
    let pos = (row_prefix_width(rows[i]@, j) as u64, row_y(i, rh) as u64);
    assert forall|i2: int| i < i2 <= rows.len() implies geo_lookup(
        geo_entries(rows, has_altgr, rh, i2),
        c,
    ) == Some(pos) by {
        lemma_geo_entries_last_helper(layout, has_altgr, i, j, i2);
    }
}

proof fn lemma_geo_entries_last_helper(
    layout: LayoutDesc,
    has_altgr: bool,
    i: int,
    j: int,
    i2: int,
)
    requires
        0 <= i < layout.rows@.len(),
        0 <= j < layout.rows@[i]@.len(),
        i < i2 <= layout.rows@.len(),
        slot_letter(layout.rows@[i]@[j], has_altgr) is Some,
        forall|jl: int|
            j < jl < layout.rows@[i]@.len() ==> slot_letter(
                #[trigger] layout.rows@[i]@[jl],
                has_altgr,
            ) != slot_letter(layout.rows@[i]@[j], has_altgr),
        forall|il: int, jl: int|
            i < il < layout.rows@.len() && 0 <= jl < layout.rows@[il]@.len() ==> slot_letter(
                #[trigger] layout.rows@[il]@[jl],
                has_altgr,
            ) != slot_letter(layout.rows@[i]@[j], has_altgr),
    ensures
        geo_lookup(
            geo_entries(layout.rows@, has_altgr, layout.row_height, i2),
            slot_letter(layout.rows@[i]@[j], has_altgr)->0,
        ) == Some(
            (
                row_prefix_width(layout.rows@[i]@, j) as u64,
                row_y(i, layout.row_height) as u64,
            ),
        ),
    decreases i2,
{
    let rows = layout.rows@;
    let rh = layout.row_height;
    let c = slot_letter(rows[i]@[j], has_altgr)->0;
    let prev = geo_entries(rows, has_altgr, rh, i2 - 1);
    let re = row_entries(rows[i2 - 1]@, has_altgr, row_y(i2 - 1, rh) as u64, rows[i2 - 1]@.len() as int);
    if i2 == i + 1 {
        lemma_row_entries_last(
            rows[i]@,
            has_altgr,
            row_y(i, rh) as u64,
            j,
            rows[i]@.len() as int,
        );
        lemma_geo_lookup_concat(prev, re, c);
    } else {
        lemma_geo_entries_last_helper(layout, has_altgr, i, j, i2 - 1);
        assert forall|jl: int| 0 <= jl < rows[i2 - 1]@.len() implies slot_letter(
            #[trigger] rows[i2 - 1]@[jl],
            has_altgr,
        ) != Some(c) by {
            assert(slot_letter(rows[i2 - 1]@[jl], has_altgr) != slot_letter(
                rows[i]@[j],
                has_altgr,
            ));
        }
        lemma_row_entries_absent(
            rows[i2 - 1]@,
            has_altgr,
            row_y(i2 - 1, rh) as u64,
            rows[i2 - 1]@.len() as int,
            c,
        );
        lemma_geo_lookup_concat(prev, re, c);
    }
}

/// The geometry map holds an entry for every distinct lowercase letter that
/// appears on a Letter key of the layout: looking up the letter of any
/// letter-bearing slot succeeds.
pub proof fn lemma_geo_map_covers_letters(layout: LayoutDesc, has_altgr: bool, i: int, j: int)
    requires
        0 <= i < layout.rows@.len(),
        0 <= j < layout.rows@[i]@.len(),
        slot_letter(layout.rows@[i]@[j], has_altgr) is Some,
    ensures
        geo_lookup(geo_map(layout, has_altgr), slot_letter(layout.rows@[i]@[j], has_altgr)->0)
            is Some,
{
    let c = slot_letter(layout.rows@[i]@[j], has_altgr)->0;
    lemma_geo_entries_contains(
        layout.rows@,
        has_altgr,
        layout.row_height,
        i,
        j,
        layout.rows@.len() as int,
    );
    let entries = geo_map(layout, has_altgr);
    let k = choose|k: int| 0 <= k < entries.len() && (#[trigger] entries[k]).0 == c;
    lemma_geo_lookup_present(entries, k);
}

} // verus!
