//! A framework agnostic pagination library: given a total number of items
//! and a page size, it computes, for any page offset, which slice of the
//! item space belongs to that page.
//!
//! The whole computation is pure integer arithmetic. `page_at` is the
//! mathematical description of one page; `Pages::with_offset` is the
//! executable function proved to return exactly that page, with all
//! intermediate arithmetic clamped so it can never overflow or underflow.

use vstd::prelude::*;

verus! {

/// Defines the properties of a page.
#[derive(Clone, Debug, PartialEq, Eq, Structural)]
pub struct Page {
    /// The current page offset.
    pub offset: usize,
    /// The total number of items that exist on this page offset.
    pub length: usize,
    /// The index of the first item on this page.
    pub start: usize,
    /// The index of the last item on this page.
    pub end: usize,
}

/// The page at `offset` when `length` items are split into pages of at
/// most `limit` items each.
///
/// The first `limit * offset` items belong to earlier pages, so this page
/// starts where those end, clamped to `length`; it extends for at most
/// `limit` further items, again clamped to `length`. A page that would lie
/// at or beyond the end of the items (or any page when `limit == 0`) is
/// empty and reports `start == end == 0`; a non-empty page reports the
/// inclusive index range of its items.
pub open spec fn page_at(length: usize, limit: usize, offset: usize) -> Page {
    let raw_start: int = offset * limit;
    let start: int = if raw_start < length { raw_start } else { length as int };
    let end_excl: int = if start + limit < length { start + limit } else { length as int };
    let count: int = end_excl - start;
    if count == 0 {
        Page { offset, length: 0, start: 0, end: 0 }
    } else {
        Page { offset, length: count as usize, start: start as usize, end: (end_excl - 1) as usize }
    }
}

impl Page {
    /// When a page does not contain any items it is considered to be empty.
    pub fn is_empty(&self) -> (empty: bool)
        ensures
            empty == (self.length == 0),
    {
        self.length == 0
    }
}

impl Default for Page {
    /// Creates an empty page with no items.
    fn default() -> (page: Self)
        ensures
            page == (Page { offset: 0, length: 0, start: 0, end: 0 }),
    {
        Page { offset: 0usize, length: 0usize, start: 0usize, end: 0usize }
    }
}

/// Defines the pages to facilitate pagination.
#[derive(Clone, Debug, PartialEq, Eq, Structural)]
pub struct Pages {
    /// Current page offset: the next page produced by `next`.
    offset: usize,
    /// Total number of items.
    length: usize,
    /// Maximum number of items per page.
    limit: usize,
}

impl Pages {
    /// The cursor: the offset of the next page the sequence will produce.
    pub closed spec fn spec_offset(&self) -> usize {
        self.offset
    }

    /// The total number of items being paginated.
    pub closed spec fn spec_length(&self) -> usize {
        self.length
    }

    /// The maximum number of items per page.
    pub closed spec fn spec_limit(&self) -> usize {
        self.limit
    }

    /// Defines a new pagination.
    ///
    /// ### Arguments
    ///
    /// * `length` - the total number of items to paginate.
    /// * `limit` - the maximum number of items that can exist on a single page.
    pub fn new(length: usize, limit: usize) -> (pages: Pages)
        ensures
            pages.spec_offset() == 0,
            pages.spec_length() == length,
            pages.spec_limit() == limit,
    {
        Pages { offset: 0, length, limit }
    }

    /// Gets a specific page.
    ///
    /// A pure function of the stored `length` and `limit` and the given
    /// `offset`: it neither reads nor changes the cursor, and two calls
    /// with the same offset return equal pages. Every intermediate step
    /// is clamped, so any offset — far beyond the last page included —
    /// yields a well-defined (then empty) page.
    ///
    /// ### Arguments
    ///
    /// * `offset` - the offset of the page you want to retrieve.
    pub fn with_offset(&self, offset: usize) -> (page: Page)
        ensures
            page == page_at(self.spec_length(), self.spec_limit(), offset),
    {
        let raw_start: usize = match offset.checked_mul(self.limit) {
            Some(product) => product,
            None => usize::MAX,
        };
        let start: usize = if raw_start < self.length {
            raw_start
        } else {
            self.length
        };
        let end: usize = match start.checked_add(self.limit) {
            Some(sum) => if sum < self.length {
                sum
            } else {
                self.length
            },
            None => self.length,
        };
        let count: usize = end - start;
        if count == 0 {
            Page { offset, length: 0, start: 0, end: 0 }
        } else {
            Page { offset, length: count, start, end: end - 1 }
        }
    }

    /// Gets the current page offset.
    pub fn offset(&self) -> (offset: usize)
        ensures
            offset == self.spec_offset(),
    {
        self.offset
    }

    /// Gets the total number of items.
    pub fn length(&self) -> (length: usize)
        ensures
            length == self.spec_length(),
    {
        self.length
    }

    /// Gets the maximum number of items per page.
    pub fn limit(&self) -> (limit: usize)
        ensures
            limit == self.spec_limit(),
    {
        self.limit
    }

    /// Gets the total number of pages: the number of items divided by the
    /// page size, rounded up. A page size of zero would make the page
    /// count meaningless (no number of pages exhausts the items), so it
    /// is excluded here.
    pub fn page_count(&self) -> (count: usize)
        requires
            self.spec_limit() > 0,
        ensures
            count == (self.spec_length() + self.spec_limit() - 1) / (self.spec_limit() as int),
    {
        if self.length == 0 {
            proof {
                vstd::arithmetic::div_mod::lemma_basic_div(
                    self.limit - 1,
                    self.limit as int,
                );
            }
            0
        } else {
            proof {
                vstd::arithmetic::div_mod::lemma_div_nonincreasing(
                    self.length - 1,
                    self.limit as int,
                );
                vstd::arithmetic::div_mod::lemma_div_plus_one(
                    self.length - 1,
                    self.limit as int,
                );
            }
            (self.length - 1) / self.limit + 1
        }
    }

    /// Produces the next page of the sequence and advances the cursor.
    ///
    /// The cursor moves forward by one on every call, whether or not the
    /// page it pointed at holds any items; an empty page is reported as
    /// `None`, the signal that the sequence is exhausted. The sequence
    /// does not restart: once exhausted it stays exhausted, and a fresh
    /// `Pages` (or a clone taken before iterating) is needed to traverse
    /// the pages again.
    pub fn next(&mut self) -> (next_page: Option<Page>)
        requires
            old(self).spec_offset() < usize::MAX,
        ensures
            final(self).spec_length() == old(self).spec_length(),
            final(self).spec_limit() == old(self).spec_limit(),
            final(self).spec_offset() == old(self).spec_offset() + 1,
            next_page == (if page_at(
                old(self).spec_length(),
                old(self).spec_limit(),
                old(self).spec_offset(),
            ).length == 0 {
                None::<Page>
            } else {
                Some(
                    page_at(
                        old(self).spec_length(),
                        old(self).spec_limit(),
                        old(self).spec_offset(),
                    ),
                )
            }),
    {
        let page: Page = self.with_offset(self.offset);
        self.offset += 1;
        if page.is_empty() {
            None
        } else {
            Some(page)
        }
    }
}

/// A page is empty exactly when it lies at or beyond the end of the
/// items, or when the page size is zero. In particular every offset from
/// `page_count` upward yields an empty page, and no offset below it does.
pub proof fn lemma_page_empty_iff_exhausted(length: usize, limit: usize, offset: usize)
    ensures
        page_at(length, limit, offset).length == 0 <==> (offset * limit >= length || limit == 0),
{
}

/// A non-empty page starts exactly where the `offset` earlier pages end,
/// covers the inclusive index range `start ..= start + count - 1`, and
/// never holds more than `limit` items.
pub proof fn lemma_nonempty_page_shape(length: usize, limit: usize, offset: usize)
    requires
        page_at(length, limit, offset).length > 0,
    ensures
        offset * limit < length,
        page_at(length, limit, offset).start == offset * limit,
        page_at(length, limit, offset).end == page_at(length, limit, offset).start + page_at(
            length,
            limit,
            offset,
        ).length - 1,
        page_at(length, limit, offset).length <= limit,
{
}

/// Consecutive non-empty pages tile the item space without a gap or an
/// overlap: the page after a non-empty page starts on the index right
/// after that page's last item.
pub proof fn lemma_consecutive_pages_tile(
    length: usize,
    limit: usize,
    offset: usize,
    next_offset: usize,
)
    requires
        next_offset == offset + 1,
        page_at(length, limit, offset).length > 0,
        page_at(length, limit, next_offset).length > 0,
    ensures
        page_at(length, limit, next_offset).start == page_at(length, limit, offset).end + 1,
{
    assert(next_offset * limit == offset * limit + limit) by (nonlinear_arith)
        requires
            next_offset == offset + 1,
    ;
}

} // verus!
