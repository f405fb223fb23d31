use vstd::math::max;
use vstd::math::min;
use vstd::prelude::*;
use vstd::string::StringSliceAdditionalSpecFns;
use vstd::utf8::encode_utf8;

verus! {

/// The display width a table cell asks for: its byte length, capped at the
/// largest `u16` value.
pub open spec fn cell_width(s: Seq<char>) -> int {
    min(encode_utf8(s).len() as int, 0xffff)
}

/// The width of column `i` after folding the first `k` rows, starting
/// from zero.
pub open spec fn column_width(rows: Seq<Vec<String>>, k: int, i: int) -> int
    decreases k,
{
    if k <= 0 {
        0
    } else {
        max(column_width(rows, k - 1, i), cell_width(rows[k - 1]@[i]@))
    }
}

/// Fold one row of cells into running column widths: each column becomes
/// the larger of its running width and the cell's width.
pub fn calc_widths_row(acc: Vec<u16>, row: &Vec<String>) -> (r: Vec<u16>)
    requires
        acc@.len() == row@.len(),
    ensures
        r@.len() == acc@.len(),
        forall|i: int|
            0 <= i < r@.len() ==> r@[i] == max(acc@[i] as int, cell_width(row@[i]@)),
{
    let n: usize = row.len();
    let mut r: Vec<u16> = Vec::new();
    let mut i: usize = 0;
    while i < n
        invariant
            n == row@.len(),
            n == acc@.len(),
            i <= n,
            r@.len() == i,
            forall|j: int| 0 <= j < i ==> r@[j] == max(acc@[j] as int, cell_width(row@[j]@)),
        decreases n - i,
    {
        let cell: &str = row[i].as_str();
        let bytes: &[u8] = cell.as_bytes();
        let len: usize = bytes.len();
        proof {
            assert(bytes@ == cell.spec_bytes());
            assert(len == encode_utf8(row@[i as int]@).len());
        }
        let w: u16 = if len > 0xffff {
            0xffff
        } else {
            len as u16
        };
        let cur: u16 = acc[i];
        let next: u16 = if cur > w {
            cur
        } else {
            w
        };
        proof {
            assert(w as int == cell_width(row@[i as int]@));
            assert(next as int == max(acc@[i as int] as int, cell_width(row@[i as int]@)));
        }
        r.push(next);
        i = i + 1;
    }
    r
}

/// Column widths for a single row: each column exactly as wide as its cell.
pub fn calc_widths_single(row: &Vec<String>) -> (r: Vec<u16>)
    ensures
        r@.len() == row@.len(),
        forall|i: int| 0 <= i < r@.len() ==> r@[i] == max(0, cell_width(row@[i]@)),
{
    let mut zero: Vec<u16> = Vec::new();
    let mut i: usize = 0;
    let n: usize = row.len();
    while i < n
        invariant
            i <= n,
            zero@.len() == i,
            forall|j: int| 0 <= j < i ==> zero@[j] == 0,
        decreases n - i,
    {
        zero.push(0);
        i = i + 1;
    }
    calc_widths_row(zero, row)
}

/// Column widths over any number of rows, all of the same arity: each
/// column exactly as wide as its widest cell, the fold of `max` over the
/// rows starting from zero.
pub fn calc_widths(rows: &Vec<Vec<String>>, arity: usize) -> (r: Vec<u16>)
    requires
        forall|i: int| 0 <= i < rows@.len() ==> #[trigger] rows@[i]@.len() == arity,
    ensures
        r@.len() == arity,
        forall|i: int|
            0 <= i < arity ==> r@[i] == column_width(rows@, rows@.len() as int, i),
{
    let mut acc: Vec<u16> = Vec::new();
    let mut i: usize = 0;
    while i < arity
        invariant
            i <= arity,
            acc@.len() == i,
            forall|j: int| 0 <= j < i ==> acc@[j] == 0,
        decreases arity - i,
    {
        acc.push(0);
        i = i + 1;
    }
    let mut k: usize = 0;
    let n: usize = rows.len();
    while k < n
        invariant
            n == rows@.len(),
            k <= n,
            acc@.len() == arity,
            forall|i2: int| 0 <= i2 < rows@.len() ==> #[trigger] rows@[i2]@.len() == arity,
            forall|i2: int|
                0 <= i2 < arity ==> acc@[i2] == column_width(rows@, k as int, i2),
        decreases n - k,
    {
        acc = calc_widths_row(acc, &rows[k]);
        k = k + 1;
    }
    acc
}

} // verus!
