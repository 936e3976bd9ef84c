use vstd::prelude::*;
use crate::models::{Category, MetronData, Session, Timestamp};
use crate::period::{in_period, is_in_period, lower_of, parse_period, period_named, Period};
use crate::tag_manager::contains_name;

verus! {

/// Largest minutes a session can hold.
const MAX_MINUTES: u128 = 0xffff_ffff;

/// Which sessions an analysis takes in: those started within `period` as
/// seen at `now`, and, where `category` is given, only that category's.
pub struct Selection {
    pub period: Period,
    pub category: Option<String>,
    pub now: Timestamp,
}

pub open spec fn selected(s: Session, w: Selection) -> bool {
    &&& in_period(s.start, w.period, w.now)
    &&& (w.category matches Some(c) ==> s.category@ == c@)
}

/// Number of sessions of `ss` that `w` takes in.
pub open spec fn matched_count(ss: Seq<Session>, w: Selection) -> int
    decreases ss.len(),
{
    if ss.len() == 0 {
        0
    } else {
        matched_count(ss.drop_last(), w) + if selected(ss.last(), w) {
            1int
        } else {
            0int
        }
    }
}

/// Minutes of the sessions of `ss` that `w` takes in.
pub open spec fn matched_minutes(ss: Seq<Session>, w: Selection) -> int
    decreases ss.len(),
{
    if ss.len() == 0 {
        0
    } else {
        matched_minutes(ss.drop_last(), w) + if selected(ss.last(), w) {
            ss.last().duration as int
        } else {
            0int
        }
    }
}

/// Categories of the sessions taken in, in order of first appearance.
pub open spec fn group_names(ss: Seq<Session>, w: Selection) -> Seq<Seq<char>>
    decreases ss.len(),
{
    if ss.len() == 0 {
        Seq::empty()
    } else {
        let r = group_names(ss.drop_last(), w);
        let s = ss.last();
        if selected(s, w) && !r.contains(s.category@) {
            r.push(s.category@)
        } else {
            r
        }
    }
}

/// Minutes of the sessions taken in that belong to category `c`.
pub open spec fn category_minutes(ss: Seq<Session>, w: Selection, c: Seq<char>) -> int
    decreases ss.len(),
{
    if ss.len() == 0 {
        0
    } else {
        category_minutes(ss.drop_last(), w, c) + if selected(ss.last(), w) && ss.last().category@
            == c {
            ss.last().duration as int
        } else {
            0int
        }
    }
}

/// Number of sessions taken in that belong to category `c`.
pub open spec fn category_count(ss: Seq<Session>, w: Selection, c: Seq<char>) -> int
    decreases ss.len(),
{
    if ss.len() == 0 {
        0
    } else {
        category_count(ss.drop_last(), w, c) + if selected(ss.last(), w) && ss.last().category@
            == c {
            1int
        } else {
            0int
        }
    }
}

/// Whether session `s` carries tag `t`.
pub open spec fn carries(s: Session, t: Seq<char>) -> bool {
    exists|k: int| 0 <= k < s.tags@.len() && #[trigger] s.tags@[k]@ == t
}

/// `acc` followed by the names of `names` not yet in it, in order.
pub open spec fn add_names(acc: Seq<Seq<char>>, names: Seq<String>) -> Seq<Seq<char>>
    decreases names.len(),
{
    if names.len() == 0 {
        acc
    } else {
        let r = add_names(acc, names.drop_last());
        if r.contains(names.last()@) {
            r
        } else {
            r.push(names.last()@)
        }
    }
}

/// Tags of the sessions taken in of category `c`, in order of first appearance.
pub open spec fn tag_names(ss: Seq<Session>, w: Selection, c: Seq<char>) -> Seq<Seq<char>>
    decreases ss.len(),
{
    if ss.len() == 0 {
        Seq::empty()
    } else {
        let r = tag_names(ss.drop_last(), w, c);
        let s = ss.last();
        if selected(s, w) && s.category@ == c {
            add_names(r, s.tags@)
        } else {
            r
        }
    }
}

/// Minutes of the sessions taken in of category `c` that carry tag `t`.
pub open spec fn tag_minutes(ss: Seq<Session>, w: Selection, c: Seq<char>, t: Seq<char>) -> int
    decreases ss.len(),
{
    if ss.len() == 0 {
        0
    } else {
        let s = ss.last();
        tag_minutes(ss.drop_last(), w, c, t) + if selected(s, w) && s.category@ == c && carries(
            s,
            t,
        ) {
            s.duration as int
        } else {
            0int
        }
    }
}

/// Weekly quota in hours of the first category named `c`; 0 where none is.
pub open spec fn quota_of(cats: Seq<Category>, c: Seq<char>) -> int
    decreases cats.len(),
{
    if cats.len() == 0 {
        0
    } else if cats[0].name@ == c {
        cats[0].category_weekly_quota as int
    } else {
        quota_of(cats.subrange(1, cats.len() as int), c)
    }
}

/// Minutes that count as work: up to the quota, or all where the quota is 0.
pub open spec fn work_minutes(total: int, quota_hours: int) -> int {
    let q = quota_hours * 60;
    if q > 0 && total > q {
        q
    } else {
        total
    }
}

/// Minutes beyond a non-zero quota.
pub open spec fn overtime_minutes(total: int, quota_hours: int) -> int {
    let q = quota_hours * 60;
    if q > 0 && total > q {
        total - q
    } else {
        0
    }
}

/// Work minutes summed over the categories `names`.
pub open spec fn total_work(names: Seq<Seq<char>>, ss: Seq<Session>, w: Selection, cats: Seq<Category>) -> int
    decreases names.len(),
{
    if names.len() == 0 {
        0
    } else {
        total_work(names.drop_last(), ss, w, cats) + work_minutes(
            category_minutes(ss, w, names.last()),
            quota_of(cats, names.last()),
        )
    }
}

/// Overtime minutes summed over the categories `names`.
pub open spec fn total_overtime(names: Seq<Seq<char>>, ss: Seq<Session>, w: Selection, cats: Seq<Category>) -> int
    decreases names.len(),
{
    if names.len() == 0 {
        0
    } else {
        total_overtime(names.drop_last(), ss, w, cats) + overtime_minutes(
            category_minutes(ss, w, names.last()),
            quota_of(cats, names.last()),
        )
    }
}

/// Category minutes summed over the categories `names`.
pub open spec fn sum_category_minutes(names: Seq<Seq<char>>, ss: Seq<Session>, w: Selection) -> int
    decreases names.len(),
{
    if names.len() == 0 {
        0
    } else {
        sum_category_minutes(names.drop_last(), ss, w) + category_minutes(ss, w, names.last())
    }
}

pub open spec fn distinct(names: Seq<Seq<char>>) -> bool {
    forall|i: int, j: int| 0 <= i < j < names.len() ==> names[i] != names[j]
}

proof fn lemma_sum_empty(names: Seq<Seq<char>>, ss: Seq<Session>, w: Selection)
    requires
        ss.len() == 0,
    ensures
        sum_category_minutes(names, ss, w) == 0,
    decreases names.len(),
{
    if names.len() > 0 {
        lemma_sum_empty(names.drop_last(), ss, w);
    }
}

proof fn lemma_sum_step(names: Seq<Seq<char>>, ss: Seq<Session>, w: Selection)
    requires
        ss.len() > 0,
        distinct(names),
    ensures
        sum_category_minutes(names, ss, w) == sum_category_minutes(names, ss.drop_last(), w) + if selected(ss.last(), w)
            && names.contains(ss.last().category@) {
            ss.last().duration as int
        } else {
            0int
        },
    decreases names.len(),
{
    if names.len() > 0 {
        let q = names.drop_last();
        let x = names.last();
        assert(distinct(q));
        lemma_sum_step(q, ss, w);
        let c = ss.last().category@;
        if q.contains(c) {
            let k = choose|k: int| 0 <= k < q.len() && q[k] == c;
            assert(names[k] == c);
            assert(x != c);
            assert(names.contains(c));
        }
        if x == c {
            assert(names[names.len() - 1] == c);
            assert(names.contains(c));
        }
        if names.contains(c) {
            let k = choose|k: int| 0 <= k < names.len() && names[k] == c;
            if k < names.len() - 1 {
                assert(q[k] == c);
            }
        }
    }
}

/// The minutes of distinct categories add up to at most the minutes of all
/// sessions taken in.
proof fn lemma_sum_bounded(names: Seq<Seq<char>>, ss: Seq<Session>, w: Selection)
    requires
        distinct(names),
    ensures
        sum_category_minutes(names, ss, w) <= matched_minutes(ss, w),
    decreases ss.len(),
{
    if ss.len() == 0 {
        lemma_sum_empty(names, ss, w);
    } else {
        lemma_sum_step(names, ss, w);
        lemma_sum_bounded(names, ss.drop_last(), w);
    }
}

proof fn lemma_matched_minutes_bound(ss: Seq<Session>, w: Selection)
    ensures
        0 <= matched_minutes(ss, w) <= ss.len() * MAX_MINUTES,
    decreases ss.len(),
{
    if ss.len() > 0 {
        lemma_matched_minutes_bound(ss.drop_last(), w);
    }
}

proof fn lemma_group_names_distinct(ss: Seq<Session>, w: Selection)
    ensures
        distinct(group_names(ss, w)),
    decreases ss.len(),
{
    if ss.len() > 0 {
        lemma_group_names_distinct(ss.drop_last(), w);
        let r = group_names(ss.drop_last(), w);
        let c = ss.last().category@;
        if selected(ss.last(), w) && !r.contains(c) {
            let g = r.push(c);
            assert forall|i: int, j: int| 0 <= i < j < g.len() implies g[i] != g[j] by {
                if j == r.len() {
                    assert(r[i] == g[i]);
                    if g[i] == g[j] {
                        assert(r.contains(c));
                    }
                }
            }
        }
    }
}

/// Per-tag minutes of one category.
pub struct TagTime {
    pub tag: String,
    pub minutes: u128,
}

/// What one category's sessions in the window add up to.
pub struct CategoryTime {
    pub category: String,
    /// The category's weekly quota in hours; 0 where it has none.
    pub weekly_quota: u32,
    pub sessions: usize,
    pub total_minutes: u128,
    pub work_minutes: u128,
    pub overtime_minutes: u128,
    pub tags: Vec<TagTime>,
}

/// The figures of an analysis, for display.
pub struct AnalysisReport {
    pub period: Period,
    pub category_filter: Option<String>,
    pub categories: Vec<CategoryTime>,
    pub total_work_minutes: u128,
    pub total_overtime_minutes: u128,
    pub session_count: usize,
}

/// The outcome of an analysis.
pub enum Analysis {
    /// The store holds no session at all.
    NoSessions,
    /// No session lies in the window and the filter.
    NoMatches,
    Report(AnalysisReport),
}

/// The sessions `w` takes in, one flag per session.
fn selection_flags(ss: &Vec<Session>, w: &Selection) -> (r: Vec<bool>)
    ensures
        r@.len() == ss@.len(),
        forall|i: int| 0 <= i < ss@.len() ==> r@[i] == selected(#[trigger] ss@[i], *w),
{
    let mut flags: Vec<bool> = Vec::new();
    let mut i: usize = 0;
    while i < ss.len()
        invariant
            i <= ss@.len(),
            flags@.len() == i,
            forall|j: int| 0 <= j < i ==> flags@[j] == selected(#[trigger] ss@[j], *w),
        decreases ss.len() - i,
    {
        let s = &ss[i];
        let keep = is_in_period(s.start, w.period, w.now) && match &w.category {
            Some(c) => s.category == *c,
            None => true,
        };
        flags.push(keep);
        i += 1;
    }
    flags
}

/// Number of sessions taken in.
fn count_matched(ss: &Vec<Session>, flags: &Vec<bool>, Ghost(w): Ghost<Selection>) -> (r: usize)
    requires
        flags@.len() == ss@.len(),
        forall|i: int| 0 <= i < ss@.len() ==> flags@[i] == selected(#[trigger] ss@[i], w),
    ensures
        r == matched_count(ss@, w),
{
    let mut n: usize = 0;
    let mut i: usize = 0;
    while i < ss.len()
        invariant
            i <= ss@.len(),
            flags@.len() == ss@.len(),
            forall|i: int| 0 <= i < ss@.len() ==> flags@[i] == selected(#[trigger] ss@[i], w),
            n == matched_count(ss@.subrange(0, i as int), w),
            n <= i,
        decreases ss.len() - i,
    {
        assert(ss@.subrange(0, i + 1).drop_last() =~= ss@.subrange(0, i as int));
        if flags[i] {
            n += 1;
        }
        i += 1;
    }
    assert(ss@.subrange(0, ss@.len() as int) =~= ss@);
    n
}

/// Categories of the sessions taken in, in order of first appearance.
fn collect_group_names(ss: &Vec<Session>, flags: &Vec<bool>, Ghost(w): Ghost<Selection>) -> (r: Vec<String>)
    requires
        flags@.len() == ss@.len(),
        forall|i: int| 0 <= i < ss@.len() ==> flags@[i] == selected(#[trigger] ss@[i], w),
    ensures
        r@.len() == group_names(ss@, w).len(),
        forall|j: int| 0 <= j < r@.len() ==> #[trigger] r@[j]@ == group_names(ss@, w)[j],
{
    let mut names: Vec<String> = Vec::new();
    let mut i: usize = 0;
    while i < ss.len()
        invariant
            i <= ss@.len(),
            flags@.len() == ss@.len(),
            forall|i: int| 0 <= i < ss@.len() ==> flags@[i] == selected(#[trigger] ss@[i], w),
            names@.len() == group_names(ss@.subrange(0, i as int), w).len(),
            forall|j: int| 0 <= j < names@.len() ==> #[trigger] names@[j]@ == group_names(ss@.subrange(0, i as int), w)[j],
        decreases ss.len() - i,
    {
        let ghost g = group_names(ss@.subrange(0, i as int), w);
        assert(ss@.subrange(0, i + 1).drop_last() =~= ss@.subrange(0, i as int));
        let c = &ss[i].category;
        let present = contains_name(&names, c);
        assert(present == g.contains(c@)) by {
            if present {
                let k = choose|k: int| 0 <= k < names@.len() && #[trigger] names@[k]@ == c@;
                assert(g[k] == c@);
            }
            if g.contains(c@) {
                let k = choose|k: int| 0 <= k < g.len() && g[k] == c@;
                assert(names@[k]@ == c@);
            }
        }
        if flags[i] && !present {
            names.push(c.clone());
        }
        i += 1;
    }
    assert(ss@.subrange(0, ss@.len() as int) =~= ss@);
    names
}

/// Sessions taken in of category `c` and their minutes.
fn category_figures(ss: &Vec<Session>, flags: &Vec<bool>, c: &String, Ghost(w): Ghost<Selection>) -> (r: (usize, u128))
    requires
        flags@.len() == ss@.len(),
        forall|i: int| 0 <= i < ss@.len() ==> flags@[i] == selected(#[trigger] ss@[i], w),
    ensures
        r.0 == category_count(ss@, w, c@),
        r.1 == category_minutes(ss@, w, c@),
{
    let mut n: usize = 0;
    let mut minutes: u128 = 0;
    let mut i: usize = 0;
    while i < ss.len()
        invariant
            i <= ss@.len(),
            flags@.len() == ss@.len(),
            forall|i: int| 0 <= i < ss@.len() ==> flags@[i] == selected(#[trigger] ss@[i], w),
            n == category_count(ss@.subrange(0, i as int), w, c@),
            minutes == category_minutes(ss@.subrange(0, i as int), w, c@),
            n <= i,
            minutes <= i * MAX_MINUTES,
        decreases ss.len() - i,
    {
        assert(ss@.subrange(0, i + 1).drop_last() =~= ss@.subrange(0, i as int));
        if flags[i] && ss[i].category == *c {
            n += 1;
            minutes += ss[i].duration as u128;
        }
        i += 1;
    }
    assert(ss@.subrange(0, ss@.len() as int) =~= ss@);
    (n, minutes)
}

/// `acc` followed by the names of `names` not yet in it.
fn push_new_names(acc: &mut Vec<String>, names: &Vec<String>)
    ensures
        final(acc)@.len() == add_names(old(acc)@.map_values(|s: String| s@), names@).len(),
        forall|j: int| 0 <= j < final(acc)@.len() ==> #[trigger] final(acc)@[j]@ == add_names(
            old(acc)@.map_values(|s: String| s@),
            names@,
        )[j],
{
    let ghost start = old(acc)@.map_values(|s: String| s@);
    let mut k: usize = 0;
    while k < names.len()
        invariant
            k <= names@.len(),
            start == old(acc)@.map_values(|s: String| s@),
            acc@.len() == add_names(start, names@.subrange(0, k as int)).len(),
            forall|j: int| 0 <= j < acc@.len() ==> #[trigger] acc@[j]@ == add_names(start, names@.subrange(0, k as int))[j],
        decreases names.len() - k,
    {
        let ghost g = add_names(start, names@.subrange(0, k as int));
        assert(names@.subrange(0, k + 1).drop_last() =~= names@.subrange(0, k as int));
        let t = &names[k];
        let present = contains_name(acc, t);
        assert(present == g.contains(t@)) by {
            if present {
                let i = choose|i: int| 0 <= i < acc@.len() && #[trigger] acc@[i]@ == t@;
                assert(g[i] == t@);
            }
            if g.contains(t@) {
                let i = choose|i: int| 0 <= i < g.len() && g[i] == t@;
                assert(acc@[i]@ == t@);
            }
        }
        if !present {
            acc.push(t.clone());
        }
        k += 1;
    }
    assert(names@.subrange(0, names@.len() as int) =~= names@);
}

/// Tags of the sessions taken in of category `c`, in order of first appearance.
fn collect_tag_names(ss: &Vec<Session>, flags: &Vec<bool>, c: &String, Ghost(w): Ghost<Selection>) -> (r: Vec<String>)
    requires
        flags@.len() == ss@.len(),
        forall|i: int| 0 <= i < ss@.len() ==> flags@[i] == selected(#[trigger] ss@[i], w),
    ensures
        r@.len() == tag_names(ss@, w, c@).len(),
        forall|j: int| 0 <= j < r@.len() ==> #[trigger] r@[j]@ == tag_names(ss@, w, c@)[j],
{
    let mut names: Vec<String> = Vec::new();
    let mut i: usize = 0;
    while i < ss.len()
        invariant
            i <= ss@.len(),
            flags@.len() == ss@.len(),
            forall|i: int| 0 <= i < ss@.len() ==> flags@[i] == selected(#[trigger] ss@[i], w),
            names@.len() == tag_names(ss@.subrange(0, i as int), w, c@).len(),
            forall|j: int| 0 <= j < names@.len() ==> #[trigger] names@[j]@ == tag_names(ss@.subrange(0, i as int), w, c@)[j],
        decreases ss.len() - i,
    {
        let ghost g = tag_names(ss@.subrange(0, i as int), w, c@);
        assert(ss@.subrange(0, i + 1).drop_last() =~= ss@.subrange(0, i as int));
        if flags[i] && ss[i].category == *c {
            assert(names@.map_values(|s: String| s@) =~= g);
            push_new_names(&mut names, &ss[i].tags);
        }
        i += 1;
    }
    assert(ss@.subrange(0, ss@.len() as int) =~= ss@);
    names
}

/// Minutes of the sessions taken in of category `c` that carry tag `t`.
fn tag_figure(ss: &Vec<Session>, flags: &Vec<bool>, c: &String, t: &String, Ghost(w): Ghost<Selection>) -> (r: u128)
    requires
        flags@.len() == ss@.len(),
        forall|i: int| 0 <= i < ss@.len() ==> flags@[i] == selected(#[trigger] ss@[i], w),
    ensures
        r == tag_minutes(ss@, w, c@, t@),
{
    let mut minutes: u128 = 0;
    let mut i: usize = 0;
    while i < ss.len()
        invariant
            i <= ss@.len(),
            flags@.len() == ss@.len(),
            forall|i: int| 0 <= i < ss@.len() ==> flags@[i] == selected(#[trigger] ss@[i], w),
            minutes == tag_minutes(ss@.subrange(0, i as int), w, c@, t@),
            minutes <= i * MAX_MINUTES,
        decreases ss.len() - i,
    {
        assert(ss@.subrange(0, i + 1).drop_last() =~= ss@.subrange(0, i as int));
        if flags[i] && ss[i].category == *c && contains_name(&ss[i].tags, t) {
            minutes += ss[i].duration as u128;
        }
        i += 1;
    }
    assert(ss@.subrange(0, ss@.len() as int) =~= ss@);
    minutes
}

/// Weekly quota in hours of the first category named `c`; 0 where none is.
pub fn quota_for(cats: &Vec<Category>, c: &String) -> (r: u32)
    ensures
        r == quota_of(cats@, c@),
{
    let mut i: usize = 0;
    assert(cats@.subrange(0, cats@.len() as int) =~= cats@);
    while i < cats.len()
        invariant
            i <= cats@.len(),
            quota_of(cats@, c@) == quota_of(cats@.subrange(i as int, cats@.len() as int), c@),
        decreases cats.len() - i,
    {
        let ghost rest = cats@.subrange(i as int, cats@.len() as int);
        if cats[i].name == *c {
            return cats[i].category_weekly_quota;
        }
        assert(rest.subrange(1, rest.len() as int) =~= cats@.subrange(i + 1, cats@.len() as int));
        i += 1;
    }
    0
}

/// What an analysis of `data` for `period` and `category_filter` at `now`
/// returns: the empty cases, or the figures of every category taken in.
pub open spec fn analysis_of(
    data: MetronData,
    period: Period,
    category_filter: Option<String>,
    now: Timestamp,
    r: Analysis,
) -> bool {
    let ss = data.sessions@;
    let cats = data.categories@;
    let w = Selection { period, category: category_filter, now };
    let names = group_names(ss, w);
    &&& ss.len() == 0 <==> r is NoSessions
    &&& ss.len() > 0 && matched_count(ss, w) == 0 <==> r is NoMatches
    &&& r matches Analysis::Report(rep) ==> {
        &&& rep.period == period
        &&& rep.category_filter == category_filter
        &&& rep.session_count == matched_count(ss, w)
        &&& rep.categories@.len() == names.len()
        &&& rep.total_work_minutes == total_work(names, ss, w, cats)
        &&& rep.total_overtime_minutes == total_overtime(names, ss, w, cats)
        &&& forall|j: int| 0 <= j < names.len() ==> {
            let g = #[trigger] rep.categories@[j];
            let c = names[j];
            let tn = tag_names(ss, w, c);
            &&& g.category@ == c
            &&& g.weekly_quota == quota_of(cats, c)
            &&& g.sessions == category_count(ss, w, c)
            &&& g.total_minutes == category_minutes(ss, w, c)
            &&& g.work_minutes == work_minutes(category_minutes(ss, w, c), quota_of(cats, c))
            &&& g.overtime_minutes == overtime_minutes(category_minutes(ss, w, c), quota_of(cats, c))
            &&& g.tags@.len() == tn.len()
            &&& forall|k: int| 0 <= k < tn.len() ==> {
                let tt = #[trigger] g.tags@[k];
                tt.tag@ == tn[k] && tt.minutes == tag_minutes(ss, w, c, tn[k])
            }
        }
    }

}

/// Reports time worked against the quotas.
pub struct AnalysisManager {
    pub data: MetronData,
}

impl AnalysisManager {
    pub fn new(data: MetronData) -> (r: Self)
        ensures
            r.data == data,
    {
        AnalysisManager { data }
    }

    /// Hands the store back.
    pub fn into_data(self) -> (r: MetronData)
        ensures
            r == self.data,
    {
        self.data
    }

    /// Analysis for the period named `period` (any case; an unknown name
    /// means the week) at the current time.
    pub fn generate_analysis(&self, period: String, category_filter: Option<String>) -> (r: Analysis)
        ensures
            self.data.sessions@.len() == 0 <==> r is NoSessions,
            exists|now: Timestamp|
                now.wf() && now.in_range() && analysis_of(
                    self.data,
                    match period_named(lower_of(period@)) {
                        Some(p) => p,
                        None => Period::Week,
                    },
                    category_filter,
                    now,
                    r,
                ),
            r matches Analysis::Report(rep) ==> rep.category_filter == category_filter && rep.period
                == match period_named(lower_of(period@)) {
                Some(p) => p,
                None => Period::Week,
            },
    {
        let (p, _known) = parse_period(period.as_str());
        let now = Timestamp::now();
        self.analyze_at(p, category_filter, now)
    }

    /// Analysis of the sessions that start within `period` as seen at `now`
    /// and, where `category_filter` is given, belong to that category.
    pub fn analyze_at(&self, period: Period, category_filter: Option<String>, now: Timestamp) -> (r: Analysis)
        ensures
            analysis_of(self.data, period, category_filter, now, r),
    {
        if self.data.sessions.len() == 0 {
            return Analysis::NoSessions;
        }
        let ss = &self.data.sessions;
        let cats = &self.data.categories;
        let w = Selection { period, category: category_filter, now };
        let flags = selection_flags(ss, &w);
        let count = count_matched(ss, &flags, Ghost(w));
        if count == 0 {
            return Analysis::NoMatches;
        }
        let names = collect_group_names(ss, &flags, Ghost(w));
        let ghost gn = group_names(ss@, w);
        proof {
            lemma_group_names_distinct(ss@, w);
            lemma_matched_minutes_bound(ss@, w);
        }
        let n_sessions = ss.len();
        let mut groups: Vec<CategoryTime> = Vec::new();
        let mut total_work_m: u128 = 0;
        let mut total_over_m: u128 = 0;
        let mut j: usize = 0;
        while j < names.len()
            invariant
                j <= names@.len(),
                names@.len() == gn.len(),
                forall|i: int| 0 <= i < names@.len() ==> #[trigger] names@[i]@ == gn[i],
                distinct(gn),
                n_sessions == ss@.len(),
                flags@.len() == ss@.len(),
                forall|i: int| 0 <= i < ss@.len() ==> flags@[i] == selected(#[trigger] ss@[i], w),
                0 <= matched_minutes(ss@, w) <= ss@.len() * MAX_MINUTES,
                groups@.len() == j,
                total_work_m == total_work(gn.subrange(0, j as int), ss@, w, cats@),
                total_over_m == total_overtime(gn.subrange(0, j as int), ss@, w, cats@),
                total_work_m <= sum_category_minutes(gn.subrange(0, j as int), ss@, w),
                total_over_m <= sum_category_minutes(gn.subrange(0, j as int), ss@, w),
                forall|i: int| 0 <= i < j ==> {
                    let g = #[trigger] groups@[i];
                    let c = gn[i];
                    let tn = tag_names(ss@, w, c);
                    &&& g.category@ == c
                    &&& g.weekly_quota == quota_of(cats@, c)
                    &&& g.sessions == category_count(ss@, w, c)
                    &&& g.total_minutes == category_minutes(ss@, w, c)
                    &&& g.work_minutes == work_minutes(category_minutes(ss@, w, c), quota_of(cats@, c))
                    &&& g.overtime_minutes == overtime_minutes(category_minutes(ss@, w, c), quota_of(cats@, c))
                    &&& g.tags@.len() == tn.len()
                    &&& forall|k: int| 0 <= k < tn.len() ==> {
                        let tt = #[trigger] g.tags@[k];
                        tt.tag@ == tn[k] && tt.minutes == tag_minutes(ss@, w, c, tn[k])
                    }
                },
            decreases names.len() - j,
        {
            let c = &names[j];
            let (n, total) = category_figures(ss, &flags, c, Ghost(w));
            let quota = quota_for(cats, c);
            let quota_minutes: u128 = quota as u128 * 60;
            let work: u128 = if quota_minutes > 0 && total > quota_minutes {
                quota_minutes
            } else {
                total
            };
            let over: u128 = if quota_minutes > 0 && total > quota_minutes {
                total - quota_minutes
            } else {
                0
            };
            let tag_list = collect_tag_names(ss, &flags, c, Ghost(w));
            let mut tags: Vec<TagTime> = Vec::new();
            let mut k: usize = 0;
            while k < tag_list.len()
                invariant
                    k <= tag_list@.len(),
                    tag_list@.len() == tag_names(ss@, w, c@).len(),
                    forall|i: int| 0 <= i < tag_list@.len() ==> #[trigger] tag_list@[i]@ == tag_names(ss@, w, c@)[i],
                    flags@.len() == ss@.len(),
                    forall|i: int| 0 <= i < ss@.len() ==> flags@[i] == selected(#[trigger] ss@[i], w),
                    tags@.len() == k,
                    forall|i: int| 0 <= i < k ==> {
                        let tt = #[trigger] tags@[i];
                        tt.tag@ == tag_names(ss@, w, c@)[i] && tt.minutes == tag_minutes(ss@, w, c@, tag_names(ss@, w, c@)[i])
                    },
                decreases tag_list.len() - k,
            {
                let t = &tag_list[k];
                let minutes = tag_figure(ss, &flags, c, t, Ghost(w));
                tags.push(TagTime { tag: t.clone(), minutes });
                k += 1;
            }
            let ghost prefix = gn.subrange(0, j as int);
            let ghost next = gn.subrange(0, j + 1);
            assert(next.drop_last() =~= prefix);
            assert(distinct(next));
            proof {
                lemma_sum_bounded(next, ss@, w);
            }
            assert(total_work_m + work <= ss@.len() * MAX_MINUTES);
            assert(ss@.len() * MAX_MINUTES <= 0xffff_ffff_ffff_ffff * 0xffff_ffff) by (nonlinear_arith)
                requires
                    ss@.len() == n_sessions,
                    n_sessions <= 0xffff_ffff_ffff_ffff,
            ;
            total_work_m = total_work_m + work;
            total_over_m = total_over_m + over;
            groups.push(
                CategoryTime {
                    category: c.clone(),
                    weekly_quota: quota,
                    sessions: n,
                    total_minutes: total,
                    work_minutes: work,
                    overtime_minutes: over,
                    tags,
                },
            );
            j += 1;
        }
        assert(gn.subrange(0, gn.len() as int) =~= gn);
        Analysis::Report(
            AnalysisReport {
                period,
                category_filter: w.category,
                categories: groups,
                total_work_minutes: total_work_m,
                total_overtime_minutes: total_over_m,
                session_count: count,
            },
        )
    }
}

} // verus!
