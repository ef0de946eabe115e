use vstd::prelude::*;

verus! {

/// Absolute value of an integer.
pub open spec fn abs(a: int) -> int {
    if a < 0 { -a } else { a }
}

/// Quotient of `a` by `b` rounded toward zero, as Rust's `/` computes it.
pub open spec fn trunc_div(a: int, b: int) -> int {
    if (a < 0) == (b < 0) { abs(a) / abs(b) } else { -(abs(a) / abs(b)) }
}

/// The number of pages that `item_count` items take at `limit` per page:
/// the truncated quotient, plus one when the division leaves a remainder.
pub open spec fn pages_for(item_count: int, limit: int) -> int {
    trunc_div(item_count, limit) + if abs(item_count) % abs(limit) != 0 { 1int } else { 0int }
}

/// A position in a paginated list: the page shown (counted from 1) and the
/// number of pages.
#[derive(Debug, Copy, Clone)]
pub struct Page {
    pub current: i32,
    pub total: i32,
}

impl Page {
    /// A page at `current`, raised to 1 when it is below 1.
    pub fn new(current: i32, total: i32) -> (r: Self)
        ensures
            r.current == if current < 1 { 1 } else { current },
            r.total == total,
    {
        Self { current: if current < 1 { 1 } else { current }, total: total }
    }

    /// Sets and returns the number of pages that `item_count` items fill at
    /// `limit` items per page.
    pub fn calc_total(&mut self, item_count: i32, limit: i32) -> (t: i32)
        requires
            limit != 0,
            !(item_count == i32::MIN && limit == -1),
        ensures
            t == pages_for(item_count as int, limit as int),
            final(self).total == t,
            final(self).current == old(self).current,
    {
        let a: i64 = item_count as i64;
        let b: i64 = limit as i64;
        let abs_a: i64 = if a < 0 { -a } else { a };
        let abs_b: i64 = if b < 0 { -b } else { b };
        let quot: i64 = abs_a / abs_b;
        let rem: i64 = abs_a % abs_b;
        proof {
            assert(quot <= abs_a) by (nonlinear_arith)
                requires abs_b >= 1, abs_a >= 0, quot == abs_a / abs_b;
            assert(abs_b >= 2 ==> 2 * quot <= abs_a) by (nonlinear_arith)
                requires abs_b >= 1, abs_a >= 0, quot == abs_a / abs_b;
            assert(abs_b == 1 ==> rem == 0) by (nonlinear_arith)
                requires abs_b >= 1, abs_a >= 0, rem == abs_a % abs_b;
        }
        let signed: i64 = if (a < 0) == (b < 0) { quot } else { -quot };
        let t: i64 = if rem != 0 { signed + 1 } else { signed };
        let t: i32 = t as i32;
        self.total = t;
        t
    }

    /// The bounds of the items shown on this page at `limit` per page: from
    /// `(current - 1) * limit` up to, not including, `current * limit`.
    pub fn range(self, limit: i32) -> (r: (i32, i32))
        requires
            self.current > i32::MIN,
            i32::MIN <= (self.current - 1) * limit <= i32::MAX,
            i32::MIN <= self.current * limit <= i32::MAX,
        ensures
            r.0 == (self.current - 1) * limit,
            r.1 == self.current * limit,
    {
        ((self.current - 1) * limit, self.current * limit)
    }
}

impl Default for Page {
    /// The first of one page.
    fn default() -> (r: Self)
        ensures
            r.current == 1,
            r.total == 1,
    {
        Page::new(1, 1)
    }
}

} // verus!
