use resume_compiler::contributions::{
    cache_is_fresh, cached_items, convert_items, extract_repo_name, format_date, get_status,
    make_cache_record, to_pull_request, GithubItem, PullRequestInfo,
};

fn item(state: &str, merged: Option<&str>) -> GithubItem {
    GithubItem {
        title: "Fix the widget".to_string(),
        html_url: "https://github.com/acme/widgets/pull/7".to_string(),
        state: state.to_string(),
        created_at: "2024-03-09T08:30:00Z".to_string(),
        pull_request: merged.map(|m| PullRequestInfo { merged_at: Some(m.to_string()) }),
        repository_url: "https://api.github.com/repos/acme/widgets".to_string(),
    }
}

#[test]
fn strips_the_api_prefix_from_repository_addresses() {
    assert_eq!(extract_repo_name("https://api.github.com/repos/acme/widgets"), "acme/widgets");
    assert_eq!(extract_repo_name("https://example.com/acme/widgets"), "https://example.com/acme/widgets");
    assert_eq!(extract_repo_name(""), "");
}

#[test]
fn formats_iso_dates_for_display() {
    assert_eq!(format_date("2024-03-09T08:30:00Z"), "Mar 9, 2024");
    assert_eq!(format_date("2024-10-30"), "Oct 30, 2024");
    assert_eq!(format_date("2023-01-05"), "Jan 5, 2023");
    assert_eq!(format_date("2023-12-25T00:00:00Z"), "Dec 25, 2023");
}

#[test]
fn leaves_unrecognized_dates_as_their_date_part() {
    assert_eq!(format_date("hello"), "hello");
    assert_eq!(format_date("2024-03"), "2024-03");
    assert_eq!(format_date("2024-03-09-extra"), "2024-03-09-extra");
    assert_eq!(format_date("oddT12:00"), "odd");
    assert_eq!(format_date("2024-13-40"), "13 40, 2024");
}

#[test]
fn merged_pull_requests_report_merged() {
    assert_eq!(get_status(&item("closed", Some("2024-03-10T00:00:00Z"))), "merged");
    assert_eq!(get_status(&item("open", None)), "open");
    let mut unmerged = item("closed", None);
    unmerged.pull_request = Some(PullRequestInfo { merged_at: None });
    assert_eq!(get_status(&unmerged), "closed");
}

#[test]
fn builds_display_records() {
    let pr = to_pull_request(&item("closed", Some("2024-03-10T00:00:00Z")));
    assert_eq!(pr.title, "Fix the widget");
    assert_eq!(pr.url, "https://github.com/acme/widgets/pull/7");
    assert_eq!(pr.repo, "acme/widgets");
    assert_eq!(pr.repo_url, "https://github.com/acme/widgets");
    assert_eq!(pr.status, "merged");
    assert_eq!(pr.date, "Mar 9, 2024");
}

#[test]
fn converts_items_in_order() {
    let mut second = item("open", None);
    second.title = "Add a knob".to_string();
    let items = vec![item("closed", Some("2024-03-10T00:00:00Z")), second];
    let prs = convert_items(&items);
    assert_eq!(prs.len(), 2);
    assert_eq!(prs[0].title, "Fix the widget");
    assert_eq!(prs[1].title, "Add a knob");
}

#[test]
fn cache_freshness_follows_the_build_timestamp() {
    assert!(cache_is_fresh("abc1234", "abc1234"));
    assert!(!cache_is_fresh("abc1234", "def5678"));
    assert!(!cache_is_fresh("", "abc1234"));
}

#[test]
fn cached_items_survive_only_under_the_same_timestamp() {
    let items = convert_items(&vec![item("open", None)]);
    let record = make_cache_record("abc1234", items);
    assert_eq!(record.version, "abc1234");
    let hit = cached_items(record, "abc1234");
    assert!(hit.is_some());
    assert_eq!(hit.unwrap()[0].title, "Fix the widget");

    let stale = make_cache_record("abc1234", vec![]);
    assert!(cached_items(stale, "def5678").is_none());
}
