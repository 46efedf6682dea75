//! Normalisation of listing queries: which cached classroom view a query
//! asks for, sort orders, and page windows.

use crate::keys::{
    classroom_key, classroom_with_keys_and_reservations_key, classroom_with_keys_key,
    classroom_with_reservations_key, framed,
};
use vstd::prelude::*;
use vstd::string::StrSliceExecFns;

verus! {

/// Default number of items on a page.
pub const DEFAULT_PAGE_SIZE: u64 = 20;

/// Largest page of reservations an administrator can ask for.
pub const MAX_RESERVATION_PAGE_SIZE: u64 = 100;

/// Largest page of key-transaction logs one can ask for.
pub const MAX_KEY_LOG_PAGE_SIZE: u64 = 200;

/// Which details a classroom lookup includes.
#[derive(Debug, Clone, Copy, PartialEq, Eq, Structural)]
pub enum ClassroomDetail {
    Plain,
    WithKeys,
    WithReservations,
    WithKeysAndReservations,
}

/// The query of a classroom lookup.
pub struct GetClassroomQuery {
    pub with_keys: Option<bool>,
    pub with_reservations: Option<bool>,
}

/// The suffix of the cache key of a classroom view.
pub open spec fn detail_suffix(d: ClassroomDetail) -> Seq<char> {
    match d {
        ClassroomDetail::Plain => ""@,
        ClassroomDetail::WithKeys => "_keys"@,
        ClassroomDetail::WithReservations => "_reservations"@,
        ClassroomDetail::WithKeysAndReservations => "_keys_reservations"@,
    }
}

impl GetClassroomQuery {
    /// The view asked for: keys and reservations each where the flag is set
    /// to true; an absent flag counts as false.
    pub open spec fn detail_spec(&self) -> ClassroomDetail {
        match (self.with_keys, self.with_reservations) {
            (Some(true), Some(true)) => ClassroomDetail::WithKeysAndReservations,
            (Some(true), _) => ClassroomDetail::WithKeys,
            (_, Some(true)) => ClassroomDetail::WithReservations,
            _ => ClassroomDetail::Plain,
        }
    }

    /// The view asked for.
    pub fn detail(&self) -> (r: ClassroomDetail)
        ensures
            r == self.detail_spec(),
    {
        match (self.with_keys, self.with_reservations) {
            (Some(true), Some(true)) => ClassroomDetail::WithKeysAndReservations,
            (Some(true), _) => ClassroomDetail::WithKeys,
            (_, Some(true)) => ClassroomDetail::WithReservations,
            _ => ClassroomDetail::Plain,
        }
    }

    /// The cache key under which the view of classroom `id` that this query
    /// asks for is kept.
    pub fn cache_key(&self, id: &str) -> (r: String)
        ensures
            r@ == framed("classroom_"@, id@, detail_suffix(self.detail_spec())),
    {
        match self.detail() {
            ClassroomDetail::Plain => classroom_key(id),
            ClassroomDetail::WithKeys => classroom_with_keys_key(id),
            ClassroomDetail::WithReservations => classroom_with_reservations_key(id),
            ClassroomDetail::WithKeysAndReservations => classroom_with_keys_and_reservations_key(id),
        }
    }
}

/// Order of a listing by time.
#[derive(Debug, Clone, Copy, PartialEq, Eq, Structural)]
pub enum SortOrder {
    Asc,
    Desc,
}

/// Why a listing query was refused.
#[derive(Debug, Clone, Copy, PartialEq, Eq, Structural)]
pub enum ListingError {
    /// `sort` is neither `asc` nor `desc`.
    InvalidSort,
}

/// The order a strict `sort` parameter asks for: `asc`, `desc`, or newest
/// first when absent; anything else is refused.
pub open spec fn strict_sort(sort: Option<Seq<char>>) -> Result<SortOrder, ListingError> {
    match sort {
        None => Ok(SortOrder::Desc),
        Some(s) => if s == "asc"@ {
            Ok(SortOrder::Asc)
        } else if s == "desc"@ {
            Ok(SortOrder::Desc)
        } else {
            Err(ListingError::InvalidSort)
        },
    }
}

/// The view of an optional string.
pub open spec fn opt_view(s: Option<String>) -> Option<Seq<char>> {
    match s {
        Some(v) => Some(v@),
        None => None,
    }
}

/// Reads a strict `sort` parameter.
pub fn parse_sort(sort: &Option<String>) -> (r: Result<SortOrder, ListingError>)
    ensures
        r == strict_sort(opt_view(*sort)),
{
    match sort {
        None => Ok(SortOrder::Desc),
        Some(s) => {
            if *s == String::from_str("asc") {
                Ok(SortOrder::Asc)
            } else if *s == String::from_str("desc") {
                Ok(SortOrder::Desc)
            } else {
                Err(ListingError::InvalidSort)
            }
        },
    }
}

/// `c` equals the lower-case ASCII letter or symbol `lower`, ignoring ASCII
/// case.
pub open spec fn char_eq_ignore_case(c: char, lower: char) -> bool {
    c == lower || ('A' <= c <= 'Z' && c as u32 + 32 == lower as u32)
}

/// `s` spells `desc` in any mix of ASCII case.
pub open spec fn is_desc_any_case(s: Seq<char>) -> bool {
    &&& s.len() == 4
    &&& char_eq_ignore_case(s[0], 'd')
    &&& char_eq_ignore_case(s[1], 'e')
    &&& char_eq_ignore_case(s[2], 's')
    &&& char_eq_ignore_case(s[3], 'c')
}

fn char_matches(c: char, lower: char) -> (r: bool)
    ensures
        r == char_eq_ignore_case(c, lower),
{
    c == lower || ('A' <= c && c <= 'Z' && (c as u32) + 32 == lower as u32)
}

/// The order a lenient `sort` parameter asks for: newest first when absent
/// or `desc` in any case, oldest first otherwise.
pub open spec fn lenient_sort(sort: Option<Seq<char>>) -> SortOrder {
    match sort {
        None => SortOrder::Desc,
        Some(s) => if is_desc_any_case(s) {
            SortOrder::Desc
        } else {
            SortOrder::Asc
        },
    }
}

/// Reads a lenient `sort` parameter.
pub fn parse_sort_lenient(sort: &Option<String>) -> (r: SortOrder)
    ensures
        r == lenient_sort(opt_view(*sort)),
{
    match sort {
        None => SortOrder::Desc,
        Some(s) => {
            let s = s.as_str();
            if s.unicode_len() == 4 && char_matches(s.get_char(0), 'd') && char_matches(
                s.get_char(1),
                'e',
            ) && char_matches(s.get_char(2), 's') && char_matches(s.get_char(3), 'c') {
                SortOrder::Desc
            } else {
                SortOrder::Asc
            }
        },
    }
}

/// A page of a listing: its number (from 1) and its size.
#[derive(Debug, Clone, Copy, PartialEq, Eq, Structural)]
pub struct PageWindow {
    pub page: u64,
    pub page_size: u64,
}

/// The window that optional `page` and `page_size` parameters ask for:
/// page 1 and twenty items by default, the page at least 1 and the size
/// between 1 and `max_size`.
pub open spec fn window_spec(page: Option<u64>, page_size: Option<u64>, max_size: u64) -> PageWindow {
    let p = match page {
        Some(p) => p,
        None => 1,
    };
    let s = match page_size {
        Some(s) => s,
        None => DEFAULT_PAGE_SIZE,
    };
    PageWindow {
        page: if p < 1 {
            1
        } else {
            p
        },
        page_size: if s < 1 {
            1
        } else if s > max_size {
            max_size
        } else {
            s
        },
    }
}

fn window(page: Option<u64>, page_size: Option<u64>, max_size: u64) -> (r: PageWindow)
    requires
        1 <= max_size,
    ensures
        r == window_spec(page, page_size, max_size),
{
    let p: u64 = match page {
        Some(p) => p,
        None => 1,
    };
    let s: u64 = match page_size {
        Some(s) => s,
        None => DEFAULT_PAGE_SIZE,
    };
    PageWindow {
        page: if p < 1 {
            1
        } else {
            p
        },
        page_size: if s < 1 {
            1
        } else if s > max_size {
            max_size
        } else {
            s
        },
    }
}

impl PageWindow {
    /// The zero-based index of the page, as the store's paginator counts.
    pub fn index(&self) -> (r: u64)
        requires
            self.page >= 1,
        ensures
            r == self.page - 1,
    {
        self.page - 1
    }
}

/// An administrator's listing of reservations.
pub struct AdminListQuery {
    pub status: Option<String>,
    pub classroom_id: Option<String>,
    pub user_id: Option<String>,
    pub from: Option<String>,
    pub to: Option<String>,
    pub sort: Option<String>,
    pub page: Option<u64>,
    pub page_size: Option<u64>,
}

impl AdminListQuery {
    /// The order asked for (`asc` or `desc`, newest first by default).
    pub fn sort_order(&self) -> (r: Result<SortOrder, ListingError>)
        ensures
            r == strict_sort(opt_view(self.sort)),
    {
        parse_sort(&self.sort)
    }

    /// The page asked for, with at most a hundred items.
    pub fn page_window(&self) -> (r: PageWindow)
        ensures
            r == window_spec(self.page, self.page_size, MAX_RESERVATION_PAGE_SIZE),
    {
        window(self.page, self.page_size, MAX_RESERVATION_PAGE_SIZE)
    }
}

/// A user's listing of their own reservations.
pub struct SelfListQuery {
    pub status: Option<String>,
    pub classroom_id: Option<String>,
    pub from: Option<String>,
    pub to: Option<String>,
    pub sort: Option<String>,
}

impl SelfListQuery {
    /// The order asked for (`asc` or `desc`, newest first by default).
    pub fn sort_order(&self) -> (r: Result<SortOrder, ListingError>)
        ensures
            r == strict_sort(opt_view(self.sort)),
    {
        parse_sort(&self.sort)
    }
}

/// A listing of key-transaction logs.
pub struct KeyLogListQuery {
    pub reservation_id: Option<String>,
    pub returned: Option<bool>,
    pub page: Option<u64>,
    pub page_size: Option<u64>,
    pub sort: Option<String>,
}

impl KeyLogListQuery {
    /// The order asked for: newest first unless `sort` is present and is
    /// not `desc` in any case.
    pub fn sort_order(&self) -> (r: SortOrder)
        ensures
            r == lenient_sort(opt_view(self.sort)),
    {
        parse_sort_lenient(&self.sort)
    }

    /// The page asked for, with at most two hundred items.
    pub fn page_window(&self) -> (r: PageWindow)
        ensures
            r == window_spec(self.page, self.page_size, MAX_KEY_LOG_PAGE_SIZE),
    {
        window(self.page, self.page_size, MAX_KEY_LOG_PAGE_SIZE)
    }
}

/// One page of an administrator's reservation listing.
pub struct PagedReservations<T> {
    pub page: u64,
    pub page_size: u64,
    pub total: u64,
    pub items: Vec<T>,
}

impl<T> PagedReservations<T> {
    /// The page `window` of a listing of `total` items, holding `items`.
    pub fn new(window: PageWindow, total: u64, items: Vec<T>) -> (r: Self)
        ensures
            r.page == window.page,
            r.page_size == window.page_size,
            r.total == total,
            r.items == items,
    {
        PagedReservations { page: window.page, page_size: window.page_size, total, items }
    }
}

} // verus!
