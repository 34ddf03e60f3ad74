//! The parameters of the paginated streams.

use vstd::prelude::*;

verus! {

/// How many results to skip and how many to return.
#[derive(Debug)]
pub struct Pagination {
    pub skip: Option<usize>,
    pub limit: Option<usize>,
}

/// The number of results returned where the caller names none.
pub const DEFAULT_LIMIT: usize = 10;

/// The largest number of results returned at once.
pub const MAX_LIMIT: usize = 100;

/// The pagination with its defaults filled in: nothing skipped where no
/// skip is given, the default limit where no limit is given, and never more
/// than the largest limit.
pub open spec fn with_defaults(p: Pagination) -> Pagination {
    Pagination {
        skip: Some(
            match p.skip {
                Some(n) => n,
                None => 0,
            },
        ),
        limit: Some(
            match p.limit {
                Some(n) => if n < MAX_LIMIT {
                    n
                } else {
                    MAX_LIMIT
                },
                None => DEFAULT_LIMIT,
            },
        ),
    }
}

impl Pagination {
    /// Fills in the defaults.
    pub fn initialize_defaults(&mut self)
        ensures
            *final(self) == with_defaults(*old(self)),
    {
        if self.skip.is_none() {
            self.skip = Some(0);
        }
        let limit = match self.limit {
            Some(n) => if n < MAX_LIMIT {
                n
            } else {
                MAX_LIMIT
            },
            None => DEFAULT_LIMIT,
        };
        self.limit = Some(limit);
    }
}

/// The parameters of the stream of calendars.
#[derive(Debug)]
pub struct CalendarStreamQuery {
    pub pagination: Pagination,
    pub tags: Option<Vec<String>>,
    pub admin: Option<String>,
}

impl CalendarStreamQuery {
    /// Fills in the defaults of the pagination and leaves the filters alone.
    pub fn initialize_defaults(&mut self)
        ensures
            final(self).pagination == with_defaults(old(self).pagination),
            final(self).tags == old(self).tags,
            final(self).admin == old(self).admin,
    {
        self.pagination.initialize_defaults();
    }
}

/// The parameters of the stream of events.
#[derive(Debug)]
pub struct EventStreamQuery {
    pub pagination: Pagination,
    pub tags: Option<Vec<String>>,
    pub calendar: Option<String>,
    pub start_date: Option<i64>,
    pub end_date: Option<i64>,
    pub status: Option<String>,
    pub location: Option<String>,
    pub author: Option<String>,
    pub timezone: Option<String>,
    pub rsvp_access: Option<String>,
}

impl EventStreamQuery {
    /// Fills in the defaults of the pagination and leaves the filters alone.
    pub fn initialize_defaults(&mut self)
        ensures
            final(self).pagination == with_defaults(old(self).pagination),
            final(self).tags == old(self).tags,
            final(self).calendar == old(self).calendar,
            final(self).start_date == old(self).start_date,
            final(self).end_date == old(self).end_date,
            final(self).status == old(self).status,
            final(self).location == old(self).location,
            final(self).author == old(self).author,
            final(self).timezone == old(self).timezone,
            final(self).rsvp_access == old(self).rsvp_access,
    {
        self.pagination.initialize_defaults();
    }
}

} // verus!
