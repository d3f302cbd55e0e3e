use testaustime::models::{CodingActivity, CodingTimeSteps, UserIdentity};
use testaustime::stats::{
    activity_summary, coding_time_steps, friends_with_time, group_by_language,
    group_by_language_in, total_in_window, user_time_since, LanguageTime, MONTH_NS, WEEK_NS,
};

const DAY: i128 = 86_400_000_000_000;

fn act(user_id: i32, start_time: i128, duration: i32, language: Option<&str>) -> CodingActivity {
    CodingActivity {
        id: 0,
        user_id,
        start_time,
        duration,
        project_name: None,
        language: language.map(String::from),
        editor_name: None,
        hostname: None,
        hidden: false,
    }
}

fn lt(language: &str, time: i32) -> LanguageTime {
    LanguageTime { language: language.to_string(), time }
}

#[test]
fn windows_are_a_week_and_thirty_days() {
    assert_eq!(WEEK_NS, 7 * DAY);
    assert_eq!(MONTH_NS, 30 * DAY);
}

#[test]
fn languages_grouped_in_order_of_first_use() {
    let acts = vec![
        act(1, 0, 10, Some("rust")),
        act(1, 0, 5, None),
        act(1, 0, 7, Some("rust")),
        act(1, 0, 1, Some("go")),
        act(1, 0, 2, None),
    ];
    assert_eq!(group_by_language(&acts), vec![lt("rust", 17), lt("none", 7), lt("go", 1)]);
    assert_eq!(group_by_language(&vec![]), vec![]);
}

#[test]
fn window_keeps_recent_activities() {
    let now = 100 * DAY;
    let acts = vec![
        act(1, now - 2 * DAY, 10, Some("rust")),
        act(1, now - 8 * DAY, 20, Some("rust")),
        act(1, now - 40 * DAY, 40, Some("go")),
        act(1, now - WEEK_NS, 80, Some("c")),
    ];
    assert_eq!(group_by_language_in(&acts, now, Some(WEEK_NS)), vec![lt("rust", 10)]);
    assert_eq!(total_in_window(&acts, now, Some(WEEK_NS)), 10);
    assert_eq!(total_in_window(&acts, now, Some(MONTH_NS)), 110);
    assert_eq!(total_in_window(&acts, now, None), 150);
}

#[test]
fn summary_over_three_periods() {
    let now = 100 * DAY;
    let acts = vec![
        act(1, now - DAY, 100, Some("rust")),
        act(1, now - 10 * DAY, 50, Some("python")),
        act(1, now - 60 * DAY, 25, Some("rust")),
    ];
    let s = activity_summary(&acts, now);
    assert_eq!(s.last_week.total, 100);
    assert_eq!(s.last_week.languages, vec![lt("rust", 100)]);
    assert_eq!(s.last_month.total, 150);
    assert_eq!(s.last_month.languages, vec![lt("rust", 100), lt("python", 50)]);
    assert_eq!(s.all_time.total, 175);
    assert_eq!(s.all_time.languages, vec![lt("rust", 125), lt("python", 50)]);
    for period in [&s.last_week, &s.last_month, &s.all_time] {
        assert_eq!(period.total, period.languages.iter().map(|l| l.time).sum::<i32>());
    }
    assert!(s.last_week.total <= s.last_month.total && s.last_month.total <= s.all_time.total);
}

#[test]
fn time_of_one_user_since() {
    let acts = vec![act(1, 10, 5, None), act(2, 10, 7, None), act(1, 20, 3, None)];
    assert_eq!(user_time_since(&acts, 1, None), 8);
    assert_eq!(user_time_since(&acts, 1, Some(20)), 3);
    assert_eq!(user_time_since(&acts, 1, Some(21)), 0);
    assert_eq!(user_time_since(&acts, 3, None), 0);
}

#[test]
fn coding_time_steps_of_a_user() {
    let now = 100 * DAY;
    let acts = vec![
        act(1, now - DAY, 1, None),
        act(1, now - 20 * DAY, 2, None),
        act(1, now - 50 * DAY, 4, None),
        act(2, now, 8, None),
        act(1, now - WEEK_NS, 16, None),
    ];
    assert_eq!(
        coding_time_steps(&acts, 1, now),
        CodingTimeSteps { all_time: 23, past_month: 19, past_week: 17 }
    );
}

#[test]
fn friends_listed_with_their_times() {
    let now = 100 * DAY;
    let friend = |id: i32, name: &str| UserIdentity {
        id,
        auth_token: String::new(),
        friend_code: String::new(),
        username: name.to_string(),
        registration_time: 0,
        is_public: false,
        email: None,
    };
    let acts = vec![act(2, now - DAY, 5, None), act(3, now - 10 * DAY, 9, None)];
    let r = friends_with_time(vec![friend(2, "b"), friend(3, "c")], &acts, now);
    assert_eq!(r.len(), 2);
    assert_eq!(r[0].user.username, "b");
    assert_eq!(r[0].coding_time, CodingTimeSteps { all_time: 5, past_month: 5, past_week: 5 });
    assert_eq!(r[1].user.username, "c");
    assert_eq!(r[1].coding_time, CodingTimeSteps { all_time: 9, past_month: 9, past_week: 0 });
}
