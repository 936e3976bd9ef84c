use metron::analysis_manager::{Analysis, AnalysisManager};
use metron::category_manager::{CategoryManager, DeleteOutcome};
use metron::commands::{CategoryCommands, Commands, SessionCommands};
use metron::models::{Category, MetronData, MetronError, Session, Tag, Timestamp};
use metron::period::{parse_period, Period};
use metron::session_manager::{fresh_id, SessionManager};
use metron::tag_manager::TagManager;

/// Wednesday 2024-01-17 12:00:00 UTC.
const WEDNESDAY_NOON: i64 = 1_705_492_800;
/// Monday 2024-01-15 00:00:00 UTC.
const MONDAY_MIDNIGHT: i64 = 1_705_276_800;

fn at(secs: i64) -> Timestamp {
    Timestamp { secs, nanos: 0 }
}

fn session(id: &str, category: &str, tags: &[&str], start: Timestamp, duration: u32) -> Session {
    Session {
        id: id.to_string(),
        title: format!("work on {}", id),
        category: category.to_string(),
        tags: tags.iter().map(|t| t.to_string()).collect(),
        start,
        end: None,
        duration,
    }
}

fn store_with(categories: &[(&str, u32)], tags: &[&str], total: Option<u32>) -> MetronData {
    let mut data = MetronData::new();
    for (name, quota) in categories {
        data.categories.push(Category { name: name.to_string(), category_weekly_quota: *quota });
    }
    for t in tags {
        data.tags.push(Tag { name: t.to_string() });
    }
    data.total_weekly_quota = total;
    data
}

fn quota_sum(data: &MetronData) -> u32 {
    data.categories.iter().map(|c| c.category_weekly_quota).sum()
}

#[test]
fn category_quota_scenario() {
    let mut m = CategoryManager::new(store_with(&[("work", 10)], &[], Some(20)));
    assert_eq!(m.create_category("play".to_string(), 15), Err(MetronError::QuotaExceeded));
    assert_eq!(m.data.categories.len(), 1);
    assert_eq!(m.create_category("play".to_string(), 10), Ok(()));
    assert_eq!(m.data.categories.len(), 2);
    assert_eq!(quota_sum(&m.data), 20);
}

#[test]
fn category_quota_never_exceeded_over_a_sequence() {
    let mut m = CategoryManager::new(store_with(&[], &[], Some(40)));
    let steps: Vec<(bool, &str, u32)> = vec![
        (true, "a", 10),
        (true, "b", 20),
        (true, "c", 15),
        (false, "a", 25),
        (false, "b", 5),
        (true, "c", 15),
        (false, "a", 36),
        (false, "a", 35),
    ];
    for (create, name, quota) in steps {
        let before_names: Vec<String> = m.data.categories.iter().map(|c| c.name.clone()).collect();
        let before_quotas: Vec<u32> = m.data.categories.iter().map(|c| c.category_weekly_quota).collect();
        let r = if create {
            m.create_category(name.to_string(), quota)
        } else {
            m.update_category(name.to_string(), quota)
        };
        assert!(quota_sum(&m.data) <= 40);
        if r == Err(MetronError::QuotaExceeded) {
            let names: Vec<String> = m.data.categories.iter().map(|c| c.name.clone()).collect();
            let quotas: Vec<u32> = m.data.categories.iter().map(|c| c.category_weekly_quota).collect();
            assert_eq!(names, before_names);
            assert_eq!(quotas, before_quotas);
        }
    }
    assert_eq!(quota_sum(&m.data), 30);
}

#[test]
fn category_update_checks_other_quotas() {
    let mut m = CategoryManager::new(store_with(&[("work", 10), ("play", 5)], &[], Some(20)));
    assert_eq!(m.update_category("work".to_string(), 16), Err(MetronError::QuotaExceeded));
    assert_eq!(m.data.categories[0].category_weekly_quota, 10);
    assert_eq!(m.update_category("work".to_string(), 15), Ok(()));
    assert_eq!(m.data.categories[0].category_weekly_quota, 15);
    assert_eq!(m.update_category("rest".to_string(), 1), Err(MetronError::CategoryNotFound));
}

#[test]
fn category_without_total_quota_is_unbounded() {
    let mut m = CategoryManager::new(store_with(&[("work", 100)], &[], None));
    assert_eq!(m.create_category("play".to_string(), 1000), Ok(()));
    assert_eq!(m.update_category("play".to_string(), 4000), Ok(()));
    let listing = m.list_categories();
    assert_eq!(listing.total_used, 4100);
    assert_eq!(listing.total_quota, None);
    assert_eq!(listing.categories.len(), 2);
}

#[test]
fn category_duplicate_name_is_refused() {
    let mut m = CategoryManager::new(store_with(&[("work", 1)], &[], None));
    assert_eq!(m.create_category("work".to_string(), 2), Err(MetronError::DuplicateName));
    assert_eq!(m.data.categories.len(), 1);
}

#[test]
fn eighth_tag_is_refused() {
    let mut m = TagManager::new(MetronData::new());
    for i in 0..7 {
        assert_eq!(m.create_tag(format!("t{}", i)), Ok(()));
    }
    assert_eq!(m.create_tag("t7".to_string()), Err(MetronError::TagLimitExceeded));
    assert_eq!(m.data.tags.len(), 7);
    assert_eq!(m.create_tag("t0".to_string()), Err(MetronError::DuplicateName));
    let listing = m.list_tags();
    assert_eq!(listing.count, 7);
    assert_eq!(listing.limit, 7);
    assert_eq!(listing.tags[0].name, "t0");
}

#[test]
fn start_refuses_bad_durations() {
    let mut m = SessionManager::new(store_with(&[("work", 10)], &[], None));
    for d in [0u32, 10, 23, 1, 44] {
        let r = m.start_session_at("t".to_string(), "work".to_string(), vec![], d, "id".to_string(), at(0));
        assert_eq!(r, Err(MetronError::InvalidDuration));
    }
    assert!(m.data.sessions.is_empty());
}

#[test]
fn start_checks_category_and_tags() {
    let mut m = SessionManager::new(store_with(&[("work", 10)], &["deep"], None));
    let r = m.start_session_at("t".to_string(), "play".to_string(), vec![], 15, "a".to_string(), at(0));
    assert_eq!(r, Err(MetronError::CategoryNotFound));
    let r = m.start_session_at(
        "t".to_string(),
        "work".to_string(),
        vec!["deep".to_string(), "shallow".to_string()],
        15,
        "a".to_string(),
        at(0),
    );
    assert_eq!(r, Err(MetronError::TagNotFound));
    assert!(m.data.sessions.is_empty());
}

#[test]
fn start_records_planned_end() {
    let mut m = SessionManager::new(store_with(&[("work", 10)], &["deep"], None));
    let r = m.start_session_at(
        "write".to_string(),
        "work".to_string(),
        vec!["deep".to_string()],
        45,
        "abc".to_string(),
        at(1000),
    );
    assert_eq!(r, Ok(()));
    let s = &m.data.sessions[0];
    assert_eq!(s.id, "abc");
    assert_eq!(s.duration, 45);
    assert_eq!(s.start, at(1000));
    assert_eq!(s.end, Some(at(1000 + 45 * 60)));
}

#[test]
fn start_with_clock_gives_fresh_ids() {
    let mut m = SessionManager::new(store_with(&[("work", 10)], &[], None));
    assert_eq!(m.start_session("a".to_string(), "work".to_string(), vec![], 15), Ok(()));
    assert_eq!(m.start_session("b".to_string(), "work".to_string(), vec![], 30), Ok(()));
    let s0 = &m.data.sessions[0];
    let s1 = &m.data.sessions[1];
    assert_eq!(s0.id.len(), 36);
    assert_ne!(s0.id, s1.id);
    assert!(s0.start.secs > 1_600_000_000);
}

fn ended_after(minutes: i64, extra_secs: i64) -> u32 {
    let mut data = store_with(&[("work", 10)], &[], None);
    data.sessions.push(session("s1", "work", &[], at(5000), 60));
    let mut m = SessionManager::new(data);
    let now = at(5000 + minutes * 60 + extra_secs);
    let r = m.end_session_at("s1".to_string(), now).unwrap();
    assert_eq!(m.data.sessions[0].end, Some(now));
    assert_eq!(m.data.sessions[0].duration, r.recorded);
    r.recorded
}

#[test]
fn end_rounds_down_to_quarter_hours() {
    assert_eq!(ended_after(22, 0), 15);
    assert_eq!(ended_after(45, 0), 45);
    assert_eq!(ended_after(14, 0), 0);
    assert_eq!(ended_after(30, 0), 30);
    assert_eq!(ended_after(29, 59), 15);
}

#[test]
fn end_before_start_records_nothing() {
    assert_eq!(ended_after(-10, 0), 0);
}

#[test]
fn end_needs_exact_id() {
    let mut data = store_with(&[("work", 10)], &[], None);
    data.sessions.push(session("abcdef", "work", &[], at(0), 60));
    let mut m = SessionManager::new(data);
    assert_eq!(m.end_session_at("abc".to_string(), at(600)), Err(MetronError::SessionNotFound));
    assert_eq!(m.data.sessions[0].duration, 60);
}

#[test]
fn delete_session_by_exact_then_prefix() {
    let mut data = store_with(&[("work", 10)], &[], None);
    data.sessions.push(session("abc123", "work", &[], at(0), 15));
    data.sessions.push(session("abc", "work", &[], at(0), 15));
    data.sessions.push(session("xyz", "work", &[], at(0), 15));
    let mut m = SessionManager::new(data);
    assert_eq!(m.find_session_for_delete(&"abc".to_string()), Some(1));
    assert_eq!(m.find_session_for_delete(&"xy".to_string()), Some(2));
    assert_eq!(m.find_session_for_delete(&"q".to_string()), None);
    assert_eq!(m.delete_session("abc".to_string(), false), Ok(DeleteOutcome::Cancelled));
    assert_eq!(m.data.sessions.len(), 3);
    assert_eq!(m.delete_session("abc".to_string(), true), Ok(DeleteOutcome::Deleted));
    assert_eq!(m.data.sessions.len(), 2);
    assert_eq!(m.data.sessions[0].id, "abc123");
    assert_eq!(m.delete_session("ab".to_string(), true), Ok(DeleteOutcome::Deleted));
    assert_eq!(m.data.sessions[0].id, "xyz");
    assert_eq!(m.delete_session("nope".to_string(), true), Err(MetronError::SessionNotFound));
}

#[test]
fn list_sessions_shortens_ids() {
    let mut data = store_with(&[("work", 10)], &["deep"], None);
    data.sessions.push(session("0123456789", "work", &["deep"], at(7), 30));
    data.sessions.push(session("abc", "work", &[], at(8), 15));
    let m = SessionManager::new(data);
    let rows = m.list_sessions();
    assert_eq!(rows.len(), 2);
    assert_eq!(rows[0].short_id, "01234567");
    assert_eq!(rows[0].tags, vec!["deep".to_string()]);
    assert_eq!(rows[1].short_id, "abc");
    assert_eq!(rows[1].duration, 15);
}

#[test]
fn declined_category_delete_changes_nothing() {
    let mut data = store_with(&[("work", 10), ("play", 5)], &[], None);
    data.sessions.push(session("s1", "work", &[], at(0), 15));
    let mut m = CategoryManager::new(data);
    assert!(m.category_needs_confirmation(&"work".to_string()));
    assert!(!m.category_needs_confirmation(&"play".to_string()));
    assert_eq!(m.delete_category("work".to_string(), false), Ok(DeleteOutcome::Cancelled));
    assert_eq!(m.data.categories.len(), 2);
    assert_eq!(m.delete_category("work".to_string(), true), Ok(DeleteOutcome::Deleted));
    assert_eq!(m.data.categories.len(), 1);
    assert_eq!(m.data.categories[0].name, "play");
    assert_eq!(m.data.sessions[0].category, "work");
    assert_eq!(m.delete_category("play".to_string(), false), Ok(DeleteOutcome::Deleted));
    assert_eq!(m.delete_category("play".to_string(), true), Err(MetronError::CategoryNotFound));
}

#[test]
fn declined_tag_delete_changes_nothing() {
    let mut data = store_with(&[("work", 10)], &["deep", "email"], None);
    data.sessions.push(session("s1", "work", &["deep"], at(0), 15));
    let mut m = TagManager::new(data);
    assert!(m.tag_needs_confirmation(&"deep".to_string()));
    assert_eq!(m.delete_tag("deep".to_string(), false), Ok(DeleteOutcome::Cancelled));
    assert_eq!(m.data.tags.len(), 2);
    assert_eq!(m.delete_tag("deep".to_string(), true), Ok(DeleteOutcome::Deleted));
    assert_eq!(m.data.tags.len(), 1);
    assert_eq!(m.data.sessions[0].tags, vec!["deep".to_string()]);
    assert_eq!(m.delete_tag("missing".to_string(), true), Err(MetronError::TagNotFound));
}

fn report(data: MetronData, period: Period, filter: Option<&str>, now: Timestamp) -> Analysis {
    AnalysisManager::new(data).analyze_at(period, filter.map(|f| f.to_string()), now)
}

#[test]
fn week_starts_monday_midnight() {
    let mut data = store_with(&[("work", 10)], &[], None);
    data.sessions.push(session("mon", "work", &[], at(MONDAY_MIDNIGHT), 15));
    data.sessions.push(session("sun", "work", &[], at(MONDAY_MIDNIGHT - 3600), 30));
    data.sessions.push(session("wed", "work", &[], at(WEDNESDAY_NOON), 60));
    data.sessions.push(session("later", "work", &[], at(WEDNESDAY_NOON + 1), 120));
    match report(data, Period::Week, None, at(WEDNESDAY_NOON)) {
        Analysis::Report(r) => {
            assert_eq!(r.session_count, 2);
            assert_eq!(r.categories.len(), 1);
            assert_eq!(r.categories[0].total_minutes, 75);
        }
        _ => panic!("expected a report"),
    }
}

#[test]
fn analysis_work_and_overtime() {
    let mut data = store_with(&[("work", 2)], &["deep", "email"], None);
    data.sessions.push(session("a", "work", &["deep"], at(WEDNESDAY_NOON - 7200), 60));
    data.sessions.push(session("b", "work", &["deep", "email"], at(WEDNESDAY_NOON - 3600), 90));
    match report(data, Period::Week, None, at(WEDNESDAY_NOON)) {
        Analysis::Report(r) => {
            let g = &r.categories[0];
            assert_eq!(g.category, "work");
            assert_eq!(g.weekly_quota, 2);
            assert_eq!(g.sessions, 2);
            assert_eq!(g.total_minutes, 150);
            assert_eq!(g.work_minutes, 120);
            assert_eq!(g.overtime_minutes, 30);
            assert_eq!(g.tags.len(), 2);
            assert_eq!(g.tags[0].tag, "deep");
            assert_eq!(g.tags[0].minutes, 150);
            assert_eq!(g.tags[1].tag, "email");
            assert_eq!(g.tags[1].minutes, 90);
            assert_eq!(r.total_work_minutes, 120);
            assert_eq!(r.total_overtime_minutes, 30);
            assert_eq!(r.session_count, 2);
        }
        _ => panic!("expected a report"),
    }
}

#[test]
fn analysis_without_quota_counts_all_as_work() {
    let mut data = store_with(&[("work", 0)], &[], None);
    data.sessions.push(session("a", "work", &[], at(WEDNESDAY_NOON), 600));
    data.sessions.push(session("b", "gone", &[], at(WEDNESDAY_NOON), 45));
    match report(data, Period::Day, None, at(WEDNESDAY_NOON + 60)) {
        Analysis::Report(r) => {
            assert_eq!(r.categories.len(), 2);
            assert_eq!(r.categories[0].work_minutes, 600);
            assert_eq!(r.categories[0].overtime_minutes, 0);
            assert_eq!(r.categories[1].category, "gone");
            assert_eq!(r.categories[1].weekly_quota, 0);
            assert_eq!(r.total_work_minutes, 645);
            assert_eq!(r.total_overtime_minutes, 0);
        }
        _ => panic!("expected a report"),
    }
}

#[test]
fn analysis_empty_cases() {
    let data = store_with(&[("work", 1)], &[], None);
    assert!(matches!(report(data, Period::Week, None, at(WEDNESDAY_NOON)), Analysis::NoSessions));
    let mut data = store_with(&[("work", 1)], &[], None);
    data.sessions.push(session("a", "work", &[], at(WEDNESDAY_NOON), 15));
    assert!(matches!(
        report(data, Period::Week, Some("play"), at(WEDNESDAY_NOON)),
        Analysis::NoMatches
    ));
}

#[test]
fn analysis_category_filter() {
    let mut data = store_with(&[("work", 1), ("play", 1)], &[], None);
    data.sessions.push(session("a", "work", &[], at(WEDNESDAY_NOON), 15));
    data.sessions.push(session("b", "play", &[], at(WEDNESDAY_NOON), 30));
    match report(data, Period::Week, Some("play"), at(WEDNESDAY_NOON)) {
        Analysis::Report(r) => {
            assert_eq!(r.categories.len(), 1);
            assert_eq!(r.categories[0].category, "play");
            assert_eq!(r.category_filter, Some("play".to_string()));
            assert_eq!(r.session_count, 1);
        }
        _ => panic!("expected a report"),
    }
}

#[test]
fn analysis_month_and_year() {
    let mut data = store_with(&[("work", 1)], &[], None);
    // 2024-01-01 00:00 UTC, 2023-12-31 23:59 UTC, 2023-06-01 00:00 UTC.
    data.sessions.push(session("jan", "work", &[], at(1_704_067_200), 15));
    data.sessions.push(session("dec", "work", &[], at(1_704_067_140), 30));
    data.sessions.push(session("jun", "work", &[], at(1_685_577_600), 45));
    let month = report(data.clone(), Period::Month, None, at(WEDNESDAY_NOON));
    match month {
        Analysis::Report(r) => assert_eq!(r.categories[0].total_minutes, 15),
        _ => panic!("expected a report"),
    }
    let year = report(data, Period::Year, None, at(1_701_388_800));
    match year {
        Analysis::Report(r) => assert_eq!(r.categories[0].total_minutes, 75),
        _ => panic!("expected a report"),
    }
}

#[test]
fn period_names_in_any_case() {
    assert_eq!(parse_period("WEEK"), (Period::Week, true));
    assert_eq!(parse_period("Daily"), (Period::Day, true));
    assert_eq!(parse_period("MONTHLY"), (Period::Month, true));
    assert_eq!(parse_period("year"), (Period::Year, true));
    assert_eq!(parse_period("fortnight"), (Period::Week, false));
}

#[test]
fn generate_analysis_reads_period_name() {
    let mut data = store_with(&[("work", 1)], &[], None);
    data.sessions.push(session("old", "work", &[], at(0), 15));
    let m = AnalysisManager::new(data);
    assert!(matches!(m.generate_analysis("YEAR".to_string(), None), Analysis::NoMatches));
    let m = AnalysisManager::new(MetronData::new());
    assert!(matches!(m.generate_analysis("week".to_string(), None), Analysis::NoSessions));
}

#[test]
fn timestamp_from_parts_holds_leap_second() {
    assert_eq!(Timestamp::from_parts(5, 1_500_000_000), Timestamp { secs: 5, nanos: 999_999_999 });
    assert_eq!(Timestamp::from_parts(5, 7), Timestamp { secs: 5, nanos: 7 });
    assert!(Timestamp::now().secs > 1_600_000_000);
}

#[test]
fn set_quota_and_mutating_commands() {
    let mut data = MetronData::new();
    data.set_total_weekly_quota(30);
    assert_eq!(data.total_weekly_quota, Some(30));
    assert!(!Commands::Category(CategoryCommands::List).mutates());
    assert!(Commands::Session(SessionCommands::End { id: "x".to_string() }).mutates());
    assert!(Commands::SetQuota { hours: 3 }.mutates());
}

#[test]
fn fresh_id_avoids_stored_and_short_ids() {
    let sessions = vec![session("abcdefgh", "work", &[], at(0), 15), session("abcdefgh0", "work", &[], at(0), 15)];
    assert_eq!(fresh_id(&sessions, "12345678".to_string()), "12345678");
    let r = fresh_id(&sessions, "abcdefgh".to_string());
    assert_eq!(r, "abcdefgh00");
    assert!(sessions.iter().all(|s| s.id != r));
    assert_eq!(fresh_id(&Vec::new(), "ab".to_string()), "ab000000");
}

#[test]
fn update_keeps_quota_with_duplicate_names() {
    let mut m = CategoryManager::new(store_with(&[("a", 5), ("a", 10)], &[], Some(20)));
    assert_eq!(m.update_category("a".to_string(), 11), Err(MetronError::QuotaExceeded));
    assert_eq!(m.update_category("a".to_string(), 10), Ok(()));
    assert_eq!(m.data.categories[0].category_weekly_quota, 10);
    assert_eq!(m.data.categories[1].category_weekly_quota, 10);
    assert!(quota_sum(&m.data) <= 20);
}
