use vstd::prelude::*;

verus! {

/// Nanoseconds in one second.
pub const NANOS_PER_SEC: u32 = 1_000_000_000;

/// Seconds in one day.
pub const SECS_PER_DAY: i64 = 86_400;

/// The most tags the store may hold.
pub const MAX_TAGS: usize = 7;

/// Session lengths are counted in steps of this many minutes.
pub const DURATION_STEP: u32 = 15;

/// An instant in UTC: whole seconds since 1970-01-01 00:00:00 and the
/// nanoseconds past that second.
#[derive(Clone, Copy, Debug, PartialEq, Eq, Structural)]
pub struct Timestamp {
    pub secs: i64,
    pub nanos: u32,
}

impl Timestamp {
    pub open spec fn wf(self) -> bool {
        self.nanos < NANOS_PER_SEC
    }

    /// The instant as a count of nanoseconds since the epoch.
    pub open spec fn total_nanos(self) -> int {
        self.secs as int * NANOS_PER_SEC as int + self.nanos as int
    }

    /// Index of the UTC calendar day holding this instant (day 0 is 1970-01-01).
    pub open spec fn day(self) -> int {
        self.secs as int / SECS_PER_DAY as int
    }
}

/// A work bucket with a weekly quota in hours.
#[derive(Clone, Debug)]
pub struct Category {
    pub name: String,
    pub category_weekly_quota: u32,
}

/// A label that sessions may carry.
#[derive(Clone, Debug)]
pub struct Tag {
    pub name: String,
}

/// A timed piece of work in one category.
#[derive(Clone, Debug)]
pub struct Session {
    pub id: String,
    pub title: String,
    pub category: String,
    pub tags: Vec<String>,
    pub start: Timestamp,
    pub end: Option<Timestamp>,
    /// Length in minutes.
    pub duration: u32,
}

/// Everything the tool keeps: categories, tags, sessions and the optional
/// total weekly quota in hours.
#[derive(Clone, Debug)]
pub struct MetronData {
    pub categories: Vec<Category>,
    pub tags: Vec<Tag>,
    pub sessions: Vec<Session>,
    pub total_weekly_quota: Option<u32>,
}

impl MetronData {
    /// An empty store.
    pub fn new() -> (r: Self)
        ensures
            r.categories@.len() == 0,
            r.tags@.len() == 0,
            r.sessions@.len() == 0,
            r.total_weekly_quota is None,
    {
        MetronData {
            categories: Vec::new(),
            tags: Vec::new(),
            sessions: Vec::new(),
            total_weekly_quota: None,
        }
    }

    /// Sets the total weekly quota in hours; the categories are not checked
    /// against it.
    pub fn set_total_weekly_quota(&mut self, hours: u32)
        ensures
            final(self).total_weekly_quota == Some(hours),
            final(self).categories == old(self).categories,
            final(self).tags == old(self).tags,
            final(self).sessions == old(self).sessions,
    {
        self.total_weekly_quota = Some(hours);
    }

    /// The sum of the category quotas stays within the total, where one is set.
    pub open spec fn quota_ok(self) -> bool {
        self.total_weekly_quota matches Some(t) ==> quota_sum(self.categories@) <= t
    }

    /// No two categories share a name.
    pub open spec fn unique_category_names(self) -> bool {
        forall|i: int, j: int|
            0 <= i < j < self.categories@.len() ==> self.categories@[i].name@
                != self.categories@[j].name@
    }

    /// The tag count stays within the cap.
    pub open spec fn tags_ok(self) -> bool {
        self.tags@.len() <= MAX_TAGS
    }
}

/// Errors of the store's operations.
#[derive(Clone, Debug, PartialEq, Eq)]
pub enum MetronError {
    CategoryNotFound,
    TagNotFound,
    SessionNotFound,
    QuotaExceeded,
    InvalidDuration,
    TagLimitExceeded,
    DuplicateName,
    StorageError(String),
}

/// Sum of the weekly quotas of `cats`, in hours.
pub open spec fn quota_sum(cats: Seq<Category>) -> int
    decreases cats.len(),
{
    if cats.len() == 0 {
        0
    } else {
        quota_sum(cats.drop_last()) + cats.last().category_weekly_quota
    }
}

/// Sum of the weekly quotas of all categories of `cats` but the one at index `i`.
pub open spec fn quota_sum_except_at(cats: Seq<Category>, i: int) -> int
    decreases cats.len(),
{
    if cats.len() == 0 {
        0
    } else {
        quota_sum_except_at(cats.drop_last(), i) + if i == cats.len() - 1 {
            0
        } else {
            cats.last().category_weekly_quota as int
        }
    }
}

/// `i` is the first category named `name`.
pub open spec fn is_first_named(cats: Seq<Category>, name: Seq<char>, i: int) -> bool {
    &&& 0 <= i < cats.len()
    &&& cats[i].name@ == name
    &&& forall|j: int| 0 <= j < i ==> #[trigger] cats[j].name@ != name
}

pub open spec fn has_category(cats: Seq<Category>, name: Seq<char>) -> bool {
    exists|i: int| 0 <= i < cats.len() && #[trigger] cats[i].name@ == name
}

pub open spec fn has_tag(tags: Seq<Tag>, name: Seq<char>) -> bool {
    exists|i: int| 0 <= i < tags.len() && #[trigger] tags[i].name@ == name
}

/// Whether some session names `name` as its category.
pub open spec fn category_in_use(sessions: Seq<Session>, name: Seq<char>) -> bool {
    exists|i: int| 0 <= i < sessions.len() && #[trigger] sessions[i].category@ == name
}

/// Whether some session carries the tag `name`.
pub open spec fn tag_in_use(sessions: Seq<Session>, name: Seq<char>) -> bool {
    exists|i: int, k: int|
        0 <= i < sessions.len() && 0 <= k < sessions[i].tags@.len() && #[trigger] sessions[i].tags@[k]@
            == name
}

} // verus!
