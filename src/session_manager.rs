use vstd::prelude::*;
use crate::category_manager::{find_category, DeleteOutcome};
use crate::models::{
    has_category, has_tag, MetronData, MetronError, Session, Timestamp, DURATION_STEP,
    NANOS_PER_SEC,
};
use crate::tag_manager::find_tag;

verus! {

/// Nanoseconds in one minute.
pub const NANOS_PER_MINUTE: i128 = 60_000_000_000;

/// Characters of a session id shown in listings.
pub const SHORT_ID_LEN: usize = 8;

/// A length that a session may be started with: a positive multiple of 15.
pub open spec fn valid_duration(minutes: u32) -> bool {
    minutes != 0 && minutes % DURATION_STEP == 0
}

/// Every name in `names` is a tag of `tags`.
pub open spec fn all_tags_exist(names: Seq<String>, tags: Seq<crate::models::Tag>) -> bool {
    forall|k: int| 0 <= k < names.len() ==> has_tag(tags, #[trigger] names[k]@)
}

/// Whole minutes from `start` to `now`, truncated; none where `now` is not
/// later, and at most `u32::MAX`.
pub open spec fn elapsed_minutes(start: Timestamp, now: Timestamp) -> int {
    let d = now.total_nanos() - start.total_nanos();
    if d <= 0 {
        0
    } else if d / NANOS_PER_MINUTE as int > u32::MAX as int {
        u32::MAX as int
    } else {
        d / NANOS_PER_MINUTE as int
    }
}

/// `minutes` rounded down to a multiple of 15.
pub open spec fn round_down_to_step(minutes: int) -> int {
    minutes / DURATION_STEP as int * DURATION_STEP as int
}

pub open spec fn is_prefix_of(p: Seq<char>, s: Seq<char>) -> bool {
    p.len() <= s.len() && s.subrange(0, p.len() as int) == p
}

pub open spec fn has_exact_id(sessions: Seq<Session>, id: Seq<char>) -> bool {
    exists|j: int| 0 <= j < sessions.len() && #[trigger] sessions[j].id@ == id
}

/// `i` is the first session whose id is exactly `id`.
pub open spec fn is_first_exact(sessions: Seq<Session>, id: Seq<char>, i: int) -> bool {
    &&& 0 <= i < sessions.len()
    &&& sessions[i].id@ == id
    &&& forall|j: int| 0 <= j < i ==> #[trigger] sessions[j].id@ != id
}

/// `i` is the first session whose id starts with `id`.
pub open spec fn is_first_prefix(sessions: Seq<Session>, id: Seq<char>, i: int) -> bool {
    &&& 0 <= i < sessions.len()
    &&& is_prefix_of(id, sessions[i].id@)
    &&& forall|j: int| 0 <= j < i ==> !is_prefix_of(id, #[trigger] sessions[j].id@)
}

/// The session that `id` names for deletion: the first exact match, or else
/// the first whose id starts with `id`.
pub open spec fn is_deletion_target(sessions: Seq<Session>, id: Seq<char>, i: int) -> bool {
    if has_exact_id(sessions, id) {
        is_first_exact(sessions, id, i)
    } else {
        is_first_prefix(sessions, id, i)
    }
}

/// Relies on uuid's `Uuid::new_v4` and its `Display`: a random version-4
/// UUID in hyphenated form. Nothing is promised of the value.
#[verifier::external_body]
fn new_session_id() -> (r: String) {
    uuid::Uuid::new_v4().to_string()
}

/// Whether `p` is a prefix of `s`.
pub fn starts_with(s: &str, p: &str) -> (r: bool)
    ensures
        r == is_prefix_of(p@, s@),
{
    let n = p.unicode_len();
    if n > s.unicode_len() {
        return false;
    }
    let mut k: usize = 0;
    while k < n
        invariant
            n == p@.len(),
            n <= s@.len(),
            k <= n,
            forall|j: int| 0 <= j < k ==> s@[j] == p@[j],
        decreases n - k,
    {
        if s.get_char(k) != p.get_char(k) {
            assert(s@.subrange(0, n as int)[k as int] != p@[k as int]);
            return false;
        }
        k += 1;
    }
    assert(s@.subrange(0, n as int) =~= p@);
    true
}

/// Index of the first session whose id is exactly `id`.
pub fn find_session_exact(sessions: &Vec<Session>, id: &String) -> (r: Option<usize>)
    ensures
        r is None <==> !has_exact_id(sessions@, id@),
        r matches Some(i) ==> is_first_exact(sessions@, id@, i as int),
{
    let mut i: usize = 0;
    while i < sessions.len()
        invariant
            i <= sessions@.len(),
            forall|j: int| 0 <= j < i ==> #[trigger] sessions@[j].id@ != id@,
        decreases sessions.len() - i,
    {
        if sessions[i].id == *id {
            return Some(i);
        }
        i += 1;
    }
    None
}

/// Index of the first session whose id starts with `id`.
pub fn find_session_prefix(sessions: &Vec<Session>, id: &String) -> (r: Option<usize>)
    ensures
        r is None <==> forall|j: int| 0 <= j < sessions@.len() ==> !is_prefix_of(id@, #[trigger] sessions@[j].id@),
        r matches Some(i) ==> is_first_prefix(sessions@, id@, i as int),
{
    let mut i: usize = 0;
    while i < sessions.len()
        invariant
            i <= sessions@.len(),
            forall|j: int| 0 <= j < i ==> !is_prefix_of(id@, #[trigger] sessions@[j].id@),
        decreases sessions.len() - i,
    {
        if starts_with(sessions[i].id.as_str(), id.as_str()) {
            return Some(i);
        }
        i += 1;
    }
    None
}

/// `candidate` where it has at least eight characters and no session has it
/// as its id; otherwise `candidate` padded with `0` until it is longer than
/// every stored id and than seven characters.
pub fn fresh_id(sessions: &Vec<Session>, candidate: String) -> (r: String)
    ensures
        r@.len() >= SHORT_ID_LEN,
        !has_exact_id(sessions@, r@),
        candidate@.len() >= SHORT_ID_LEN && !has_exact_id(sessions@, candidate@) ==> r == candidate,
        r@.len() >= candidate@.len() && r@.subrange(0, candidate@.len() as int) == candidate@,
{
    if candidate.as_str().unicode_len() >= SHORT_ID_LEN && find_session_exact(sessions, &candidate).is_none() {
        assert(candidate@.subrange(0, candidate@.len() as int) =~= candidate@);
        return candidate;
    }
    let mut longest: usize = SHORT_ID_LEN - 1;
    let mut i: usize = 0;
    while i < sessions.len()
        invariant
            i <= sessions@.len(),
            longest >= SHORT_ID_LEN - 1,
            forall|j: int| 0 <= j < i ==> #[trigger] sessions@[j].id@.len() <= longest,
        decreases sessions.len() - i,
    {
        let n = sessions[i].id.as_str().unicode_len();
        if n > longest {
            longest = n;
        }
        i += 1;
    }
    let mut r = candidate;
    assert(r@.subrange(0, candidate@.len() as int) =~= candidate@);
    while r.as_str().unicode_len() <= longest
        invariant
            longest >= SHORT_ID_LEN - 1,
            forall|j: int| 0 <= j < sessions@.len() ==> #[trigger] sessions@[j].id@.len() <= longest,
            r@.len() >= candidate@.len(),
            r@.subrange(0, candidate@.len() as int) == candidate@,
        decreases longest + 1 - r@.len(),
    {
        let ghost before = r@;
        proof {
            reveal_strlit("0");
        }
        r.append("0");
        assert(r@.len() == before.len() + 1);
        assert(r@.subrange(0, candidate@.len() as int) =~= before.subrange(0, candidate@.len() as int));
    }
    assert forall|j: int| 0 <= j < sessions@.len() implies #[trigger] sessions@[j].id@ != r@ by {
        assert(sessions@[j].id@.len() <= longest);
    }
    r
}

/// Whole minutes from `start` to `now`, as `elapsed_minutes` states.
pub fn minutes_between(start: Timestamp, now: Timestamp) -> (r: u32)
    ensures
        r == elapsed_minutes(start, now),
{
    let secs: i128 = now.secs as i128 - start.secs as i128;
    assert(-0x1_0000_0000_0000_0000 <= secs <= 0x1_0000_0000_0000_0000);
    let scaled: i128 = secs * (NANOS_PER_SEC as i128);
    assert(-0x1_0000_0000_0000_0000_0000_0000 <= secs * 1_000_000_000
        <= 0x1_0000_0000_0000_0000_0000_0000) by (nonlinear_arith)
        requires
            -0x1_0000_0000_0000_0000 <= secs <= 0x1_0000_0000_0000_0000,
    ;
    let d: i128 = scaled + (now.nanos as i128 - start.nanos as i128);
    assert(d == now.total_nanos() - start.total_nanos()) by (nonlinear_arith)
        requires
            secs == now.secs - start.secs,
            scaled == secs * 1_000_000_000,
            d == scaled + (now.nanos - start.nanos),
    ;
    if d <= 0 {
        0
    } else {
        let m: i128 = d / NANOS_PER_MINUTE;
        if m > u32::MAX as i128 {
            u32::MAX
        } else {
            m as u32
        }
    }
}

/// A session's row in a listing.
pub struct SessionRow {
    pub short_id: String,
    pub title: String,
    pub category: String,
    pub tags: Vec<String>,
    pub start: Timestamp,
    pub duration: u32,
}

/// What ending a session recorded.
#[derive(Clone, Copy, Debug, PartialEq, Eq, Structural)]
pub struct SessionEnd {
    /// Whole minutes since the start.
    pub elapsed: u32,
    /// The stored length: `elapsed` rounded down to a multiple of 15.
    pub recorded: u32,
}

/// A copy of a list of names.
pub fn copy_names(names: &Vec<String>) -> (r: Vec<String>)
    ensures
        r@ == names@,
{
    let mut out: Vec<String> = Vec::new();
    let mut k: usize = 0;
    while k < names.len()
        invariant
            k <= names@.len(),
            out@ == names@.subrange(0, k as int),
        decreases names.len() - k,
    {
        out.push(names[k].clone());
        k += 1;
        assert(out@ =~= names@.subrange(0, k as int));
    }
    assert(out@ =~= names@);
    out
}

/// Starts, ends, lists and deletes sessions.
pub struct SessionManager {
    pub data: MetronData,
}

impl SessionManager {
    pub fn new(data: MetronData) -> (r: Self)
        ensures
            r.data == data,
    {
        SessionManager { data }
    }

    /// Hands the store back.
    pub fn into_data(self) -> (r: MetronData)
        ensures
            r == self.data,
    {
        self.data
    }

    /// Starts a session at the current time under a fresh random id.
    pub fn start_session(
        &mut self,
        title: String,
        category: String,
        tags: Vec<String>,
        duration: u32,
    ) -> (r: Result<(), MetronError>)
        ensures
            !valid_duration(duration) ==> r == Err::<(), MetronError>(MetronError::InvalidDuration),
            valid_duration(duration) && !has_category(old(self).data.categories@, category@) ==> r
                == Err::<(), MetronError>(MetronError::CategoryNotFound),
            valid_duration(duration) && has_category(old(self).data.categories@, category@)
                && !all_tags_exist(tags@, old(self).data.tags@) ==> r == Err::<(), MetronError>(
                MetronError::TagNotFound,
            ),
            r is Ok <==> valid_duration(duration) && has_category(old(self).data.categories@, category@)
                && all_tags_exist(tags@, old(self).data.tags@),
            r is Err ==> final(self).data == old(self).data,
            r is Ok ==> final(self).data.sessions@.len() == old(self).data.sessions@.len() + 1
                && final(self).data.sessions@.drop_last() == old(self).data.sessions@,
            r is Ok ==> ({
                let s = final(self).data.sessions@.last();
                &&& s.title == title
                &&& s.category == category
                &&& s.tags == tags
                &&& s.duration == duration
                &&& s.start.wf() && s.start.in_range()
                &&& s.end == Some(Timestamp { secs: (s.start.secs + duration * 60) as i64, nanos: s.start.nanos })
                &&& s.id@.len() >= SHORT_ID_LEN
                &&& !has_exact_id(old(self).data.sessions@, s.id@)
            }),
            final(self).data.categories == old(self).data.categories,
            final(self).data.tags == old(self).data.tags,
            final(self).data.total_weekly_quota == old(self).data.total_weekly_quota,
    {
        let now = Timestamp::now();
        let id = fresh_id(&self.data.sessions, new_session_id());
        self.start_session_at(title, category, tags, duration, id, now)
    }

    /// Starts a session with the given id at `now`, planned to last
    /// `duration` minutes.
    pub fn start_session_at(
        &mut self,
        title: String,
        category: String,
        tags: Vec<String>,
        duration: u32,
        id: String,
        now: Timestamp,
    ) -> (r: Result<(), MetronError>)
        requires
            now.in_range(),
        ensures
            !valid_duration(duration) ==> r == Err::<(), MetronError>(MetronError::InvalidDuration),
            valid_duration(duration) && !has_category(old(self).data.categories@, category@) ==> r
                == Err::<(), MetronError>(MetronError::CategoryNotFound),
            valid_duration(duration) && has_category(old(self).data.categories@, category@)
                && !all_tags_exist(tags@, old(self).data.tags@) ==> r == Err::<(), MetronError>(
                MetronError::TagNotFound,
            ),
            r is Ok <==> valid_duration(duration) && has_category(old(self).data.categories@, category@)
                && all_tags_exist(tags@, old(self).data.tags@),
            r is Err ==> final(self).data == old(self).data,
            r is Ok ==> final(self).data.sessions@ == old(self).data.sessions@.push(
                (Session {
                    id: id,
                    title: title,
                    category: category,
                    tags: tags,
                    start: now,
                    end: Some(Timestamp { secs: (now.secs + duration * 60) as i64, nanos: now.nanos }),
                    duration: duration,
                }),
            ),
            final(self).data.categories == old(self).data.categories,
            final(self).data.tags == old(self).data.tags,
            final(self).data.total_weekly_quota == old(self).data.total_weekly_quota,
    {
        if duration == 0 || duration % DURATION_STEP != 0 {
            return Err(MetronError::InvalidDuration);
        }
        if find_category(&self.data.categories, &category).is_none() {
            return Err(MetronError::CategoryNotFound);
        }
        let mut k: usize = 0;
        while k < tags.len()
            invariant
                k <= tags@.len(),
                valid_duration(duration),
                has_category(self.data.categories@, category@),
                forall|j: int| 0 <= j < k ==> has_tag(self.data.tags@, #[trigger] tags@[j]@),
            decreases tags.len() - k,
        {
            if find_tag(&self.data.tags, &tags[k]).is_none() {
                return Err(MetronError::TagNotFound);
            }
            k += 1;
        }
        let end = Timestamp { secs: now.secs + duration as i64 * 60, nanos: now.nanos };
        let session = Session {
            id,
            title,
            category,
            tags,
            start: now,
            end: Some(end),
            duration,
        };
        self.data.sessions.push(session);
        Ok(())
    }

    /// Ends the session whose id is exactly `id` at the current time.
    pub fn end_session(&mut self, id: String) -> (r: Result<SessionEnd, MetronError>)
        ensures
            r is Err <==> !has_exact_id(old(self).data.sessions@, id@),
            r is Err ==> r == Err::<SessionEnd, MetronError>(MetronError::SessionNotFound)
                && final(self).data == old(self).data,
            r matches Ok(e) ==> exists|i: int, now: Timestamp|
                now.wf() && now.in_range() && is_first_exact(old(self).data.sessions@, id@, i)
                    && e.elapsed == elapsed_minutes(old(self).data.sessions@[i].start, now)
                    && e.recorded == round_down_to_step(e.elapsed as int) && final(self).data.sessions@
                    == old(self).data.sessions@.update(
                    i,
                    (Session { end: Some(now), duration: e.recorded, ..old(self).data.sessions@[i] }),
                ),
            final(self).data.categories == old(self).data.categories,
            final(self).data.tags == old(self).data.tags,
            final(self).data.total_weekly_quota == old(self).data.total_weekly_quota,
    {
        let now = Timestamp::now();
        let r = self.end_session_at(id, now);
        assert(r matches Ok(e) ==> exists|i: int, t: Timestamp|
            t.wf() && t.in_range() && is_first_exact(old(self).data.sessions@, id@, i)
                && e.elapsed == elapsed_minutes(old(self).data.sessions@[i].start, t)
                && e.recorded == round_down_to_step(e.elapsed as int) && self.data.sessions@
                == old(self).data.sessions@.update(
                i,
                (Session { end: Some(t), duration: e.recorded, ..old(self).data.sessions@[i] }),
            )) by {
            if let Ok(e) = r {
                let i = choose|i: int|
                    is_first_exact(old(self).data.sessions@, id@, i) && e.elapsed == elapsed_minutes(
                        old(self).data.sessions@[i].start,
                        now,
                    ) && e.recorded == round_down_to_step(e.elapsed as int) && self.data.sessions@
                        == old(self).data.sessions@.update(
                        i,
                        (Session { end: Some(now), duration: e.recorded, ..old(self).data.sessions@[i] }),
                    );
                assert(now.wf() && now.in_range());
            }
        }
        r
    }

    /// Ends the session whose id is exactly `id` at `now`: its end becomes
    /// `now` and its length the whole minutes since its start, rounded down
    /// to a multiple of 15.
    pub fn end_session_at(&mut self, id: String, now: Timestamp) -> (r: Result<
        SessionEnd,
        MetronError,
    >)
        ensures
            r is Err <==> !has_exact_id(old(self).data.sessions@, id@),
            r is Err ==> r == Err::<SessionEnd, MetronError>(MetronError::SessionNotFound)
                && final(self).data == old(self).data,
            r matches Ok(e) ==> exists|i: int|
                is_first_exact(old(self).data.sessions@, id@, i) && e.elapsed == elapsed_minutes(
                    old(self).data.sessions@[i].start,
                    now,
                ) && e.recorded == round_down_to_step(e.elapsed as int) && final(self).data.sessions@
                    == old(self).data.sessions@.update(
                    i,
                    (Session { end: Some(now), duration: e.recorded, ..old(self).data.sessions@[i] }),
                ),
            final(self).data.categories == old(self).data.categories,
            final(self).data.tags == old(self).data.tags,
            final(self).data.total_weekly_quota == old(self).data.total_weekly_quota,
    {
        match find_session_exact(&self.data.sessions, &id) {
            None => Err(MetronError::SessionNotFound),
            Some(i) => {
                let ghost old_sessions = self.data.sessions@;
                let mut s = self.data.sessions.remove(i);
                let elapsed = minutes_between(s.start, now);
                let recorded = elapsed / DURATION_STEP * DURATION_STEP;
                s.end = Some(now);
                s.duration = recorded;
                self.data.sessions.insert(i, s);
                assert(self.data.sessions@ =~= old_sessions.update(
                    i as int,
                    (Session { end: Some(now), duration: recorded, ..old_sessions[i as int] }),
                ));
                Ok(SessionEnd { elapsed, recorded })
            },
        }
    }

    /// The sessions in stored order, each with the first eight characters of
    /// its id.
    pub fn list_sessions(&self) -> (r: Vec<SessionRow>)
        ensures
            r@.len() == self.data.sessions@.len(),
            forall|i: int|
                0 <= i < r@.len() ==> {
                    let s = #[trigger] self.data.sessions@[i];
                    let row = r@[i];
                    &&& row.short_id@ == s.id@.subrange(
                        0,
                        if s.id@.len() < SHORT_ID_LEN {
                            s.id@.len() as int
                        } else {
                            SHORT_ID_LEN as int
                        },
                    )
                    &&& row.title == s.title
                    &&& row.category == s.category
                    &&& row.tags@ == s.tags@
                    &&& row.start == s.start
                    &&& row.duration == s.duration
                },
    {
        let mut rows: Vec<SessionRow> = Vec::new();
        let mut i: usize = 0;
        while i < self.data.sessions.len()
            invariant
                i <= self.data.sessions@.len(),
                rows@.len() == i,
                forall|j: int|
                    0 <= j < i ==> {
                        let s = #[trigger] self.data.sessions@[j];
                        let row = rows@[j];
                        &&& row.short_id@ == s.id@.subrange(
                            0,
                            if s.id@.len() < SHORT_ID_LEN {
                                s.id@.len() as int
                            } else {
                                SHORT_ID_LEN as int
                            },
                        )
                        &&& row.title == s.title
                        &&& row.category == s.category
                        &&& row.tags@ == s.tags@
                        &&& row.start == s.start
                        &&& row.duration == s.duration
                    },
            decreases self.data.sessions.len() - i,
        {
            let s = &self.data.sessions[i];
            let id = s.id.as_str();
            let len = id.unicode_len();
            let cut = if len < SHORT_ID_LEN {
                len
            } else {
                SHORT_ID_LEN
            };
            let short_id = id.substring_char(0, cut).to_owned();
            rows.push(
                SessionRow {
                    short_id,
                    title: s.title.clone(),
                    category: s.category.clone(),
                    tags: copy_names(&s.tags),
                    start: s.start,
                    duration: s.duration,
                },
            );
            i += 1;
        }
        rows
    }

    /// The session that a deletion of `id` would remove: the first whose id
    /// is exactly `id`, or else the first whose id starts with `id`.
    pub fn find_session_for_delete(&self, id: &String) -> (r: Option<usize>)
        ensures
            r is None <==> forall|j: int|
                0 <= j < self.data.sessions@.len() ==> !is_prefix_of(id@, #[trigger] self.data.sessions@[j].id@),
            r matches Some(i) ==> is_deletion_target(self.data.sessions@, id@, i as int),
    {
        match find_session_exact(&self.data.sessions, id) {
            Some(i) => {
                assert(is_prefix_of(id@, self.data.sessions@[i as int].id@)) by {
                    assert(self.data.sessions@[i as int].id@.subrange(0, id@.len() as int) =~= id@);
                }
                Some(i)
            },
            None => find_session_prefix(&self.data.sessions, id),
        }
    }

    /// Removes the session that `id` names (see `find_session_for_delete`),
    /// only if `confirmed`.
    pub fn delete_session(&mut self, id: String, confirmed: bool) -> (r: Result<
        DeleteOutcome,
        MetronError,
    >)
        ensures
            r == Err::<DeleteOutcome, MetronError>(MetronError::SessionNotFound) <==> forall|j: int|
                0 <= j < old(self).data.sessions@.len() ==> !is_prefix_of(id@, #[trigger] old(self).data.sessions@[j].id@),
            r is Ok ==> (r == Ok::<DeleteOutcome, MetronError>(DeleteOutcome::Deleted) <==> confirmed),
            (exists|j: int|
                0 <= j < old(self).data.sessions@.len() && is_prefix_of(id@, #[trigger] old(self).data.sessions@[j].id@))
                ==> r == (if confirmed {
                Ok::<DeleteOutcome, MetronError>(DeleteOutcome::Deleted)
            } else {
                Ok::<DeleteOutcome, MetronError>(DeleteOutcome::Cancelled)
            }),
            r != Ok::<DeleteOutcome, MetronError>(DeleteOutcome::Deleted) ==> final(self).data == old(self).data,
            r == Ok::<DeleteOutcome, MetronError>(DeleteOutcome::Deleted) ==> exists|i: int|
                is_deletion_target(old(self).data.sessions@, id@, i) && final(self).data.sessions@
                    == old(self).data.sessions@.remove(i),
            final(self).data.categories == old(self).data.categories,
            final(self).data.tags == old(self).data.tags,
            final(self).data.total_weekly_quota == old(self).data.total_weekly_quota,
    {
        match self.find_session_for_delete(&id) {
            None => Err(MetronError::SessionNotFound),
            Some(i) => {
                if !confirmed {
                    return Ok(DeleteOutcome::Cancelled);
                }
                self.data.sessions.remove(i);
                Ok(DeleteOutcome::Deleted)
            },
        }
    }
}

} // verus!
