use crate::common::AdriveOpenFilePartInfo;
use vstd::prelude::*;

verus! {

/// Number of parts of `part_size` bytes needed to cover `size` bytes: `ceil(size / part_size)`.
pub open spec fn parts_needed(size: int, part_size: int) -> int {
    (size + part_size - 1) / part_size
}

/// First byte of part `n` (parts are numbered from 1).
pub open spec fn part_offset(n: int, part_size: int) -> int {
    (n - 1) * part_size
}

/// Number of bytes of part `n`: `part_size` for every part but the last, which holds the rest.
pub open spec fn part_length(n: int, size: int, part_size: int) -> int {
    if n == parts_needed(size, part_size) {
        size - part_offset(n, part_size)
    } else {
        part_size
    }
}

/// `ceil(size / part_size)` through the quotient and remainder that exec code computes.
proof fn lemma_parts_needed_by_quotient(size: int, part_size: int)
    requires
        size >= 0,
        part_size > 0,
    ensures
        parts_needed(size, part_size) == size / part_size + if size % part_size == 0 { 0int } else { 1int },
        size / part_size >= 0,
        size == part_size * (size / part_size) + size % part_size,
        0 <= size % part_size < part_size,
{
    let q = size / part_size;
    let r = size % part_size;
    vstd::arithmetic::div_mod::lemma_fundamental_div_mod(size, part_size);
    assert(q >= 0) by (nonlinear_arith)
        requires size == part_size * q + r, 0 <= r < part_size, size >= 0, part_size > 0;
    if r == 0 {
        assert(size + part_size - 1 == q * part_size + (part_size - 1)) by (nonlinear_arith)
            requires size == part_size * q + r, r == 0;
        vstd::arithmetic::div_mod::lemma_fundamental_div_mod_converse(
            size + part_size - 1, part_size, q, part_size - 1);
    } else {
        assert(size + part_size - 1 == (q + 1) * part_size + (r - 1)) by (nonlinear_arith)
            requires size == part_size * q + r;
        vstd::arithmetic::div_mod::lemma_fundamental_div_mod_converse(
            size + part_size - 1, part_size, q + 1, r - 1);
    }
}

pub(crate) proof fn lemma_parts_needed_bounds(size: int, part_size: int)
    requires
        size >= 0,
        part_size > 0,
    ensures
        parts_needed(size, part_size) >= 0,
        parts_needed(size, part_size) * part_size >= size,
        size > 0 ==> parts_needed(size, part_size) >= 1,
        size > 0 ==> (parts_needed(size, part_size) - 1) * part_size < size,
        size == 0 ==> parts_needed(size, part_size) == 0,
        parts_needed(size, part_size) <= size,
{
    lemma_parts_needed_by_quotient(size, part_size);
    let c = parts_needed(size, part_size);
    let q = size / part_size;
    let r = size % part_size;
    assert(c * part_size >= size) by (nonlinear_arith)
        requires size == part_size * q + r, 0 <= r < part_size, r == 0 ==> c == q, r != 0 ==> c == q + 1;
    if size > 0 {
        assert(c >= 1 && (c - 1) * part_size < size) by (nonlinear_arith)
            requires size == part_size * q + r, 0 <= r < part_size, r == 0 ==> c == q,
                r != 0 ==> c == q + 1, q >= 0, size > 0, part_size > 0;
    }
    assert(c <= size) by (nonlinear_arith)
        requires size == part_size * q + r, 0 <= r < part_size, r == 0 ==> c == q,
            r != 0 ==> c == q + 1, q >= 0, size >= 0, part_size >= 1;
}

/// The parts of a file tile it exactly: there are `ceil(size / part_size)` of them, every
/// part but the last has `part_size` bytes, the last has `size - part_size * (count - 1)`
/// bytes, each part starts where the previous one ends, the first starts at byte 0 and the
/// last ends at byte `size`, and no part is empty.
pub proof fn lemma_parts_tile_file(size: int, part_size: int)
    requires
        size >= 0,
        part_size > 0,
    ensures
        ({
            let c = parts_needed(size, part_size);
            &&& c == (size + part_size - 1) / part_size
            &&& size == 0 <==> c == 0
            &&& forall|n: int| 1 <= n < c ==> #[trigger] part_length(n, size, part_size) == part_size
            &&& c >= 1 ==> part_length(c, size, part_size) == size - part_size * (c - 1)
            &&& forall|n: int| 1 <= n <= c ==> 0 < #[trigger] part_length(n, size, part_size) <= part_size
            &&& c >= 1 ==> part_offset(1, part_size) == 0
            &&& forall|n: int| 1 <= n < c ==> #[trigger] part_offset(n, part_size) + part_length(n, size, part_size)
                == part_offset(n + 1, part_size)
            &&& c >= 1 ==> part_offset(c, part_size) + part_length(c, size, part_size) == size
        }),
{
    lemma_parts_needed_bounds(size, part_size);
    let c = parts_needed(size, part_size);
    assert forall|n: int| 1 <= n < c implies #[trigger] part_offset(n, part_size) + part_length(n, size, part_size)
        == part_offset(n + 1, part_size) by {
        assert((n - 1) * part_size + part_size == n * part_size) by (nonlinear_arith);
    }
    if c >= 1 {
        assert(part_size * (c - 1) == (c - 1) * part_size) by (nonlinear_arith);
        assert(size - (c - 1) * part_size <= part_size) by (nonlinear_arith)
            requires c * part_size >= size;
    }
}

/// Number of parts needed for a file of `size` bytes, cut into parts of `part_size` bytes.
pub fn part_count(size: i64, part_size: i64) -> (r: i64)
    requires
        size >= 0,
        part_size > 0,
    ensures
        r == parts_needed(size as int, part_size as int),
{
    proof {
        lemma_parts_needed_by_quotient(size as int, part_size as int);
        lemma_parts_needed_bounds(size as int, part_size as int);
    }
    let q = size / part_size;
    let r = size % part_size;
    if r == 0 {
        q
    } else {
        q + 1
    }
}

/// The part list announced when a file is created: part numbers `1..=part_count(size, part_size)`.
pub fn part_info_list(size: i64, part_size: i64) -> (r: Vec<AdriveOpenFilePartInfo>)
    requires
        size >= 0,
        part_size > 0,
    ensures
        r@.len() == parts_needed(size as int, part_size as int),
        forall|i: int| 0 <= i < r@.len() ==> #[trigger] r@[i].part_number == i + 1,
{
    let count = part_count(size, part_size);
    proof {
        lemma_parts_needed_bounds(size as int, part_size as int);
    }
    let mut parts: Vec<AdriveOpenFilePartInfo> = Vec::new();
    let mut n: i64 = 0;
    while n < count
        invariant
            0 <= n <= count,
            count == parts_needed(size as int, part_size as int),
            count <= size,
            size >= 0,
            part_size > 0,
            parts@.len() == n,
            forall|i: int| 0 <= i < parts@.len() ==> #[trigger] parts@[i].part_number == i + 1,
        decreases count - n,
    {
        parts.push(AdriveOpenFilePartInfo { part_number: n + 1 });
        n = n + 1;
    }
    parts
}

/// Byte range `(skip, read_len)` of part `part_number` of a file of `size` bytes.
pub fn part_range(part_number: i64, size: i64, part_size: i64) -> (r: (i64, i64))
    requires
        size >= 0,
        part_size > 0,
        1 <= part_number <= parts_needed(size as int, part_size as int),
    ensures
        r.0 == part_offset(part_number as int, part_size as int),
        r.1 == part_length(part_number as int, size as int, part_size as int),
{
    proof {
        lemma_parts_needed_bounds(size as int, part_size as int);
        let c = parts_needed(size as int, part_size as int);
        assert((part_number - 1) * part_size <= (c - 1) * part_size) by (nonlinear_arith)
            requires part_number <= c, part_size > 0;
        assert((part_number - 1) * part_size >= 0) by (nonlinear_arith)
            requires part_number >= 1, part_size > 0;
    }
    let count = part_count(size, part_size);
    let skip = (part_number - 1) * part_size;
    let read_len = if part_number == count {
        size - skip
    } else {
        part_size
    };
    (skip, read_len)
}

} // verus!
