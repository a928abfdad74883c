use repo_visibility::paginate::{FetchError, Page, PageInfo, Paginator, Progress, TransportError};
use repo_visibility::repo::{RepositoryRecord, Visibility};

fn records(prefix: &str, n: usize) -> Vec<RepositoryRecord> {
    let mut v = Vec::new();
    for i in 0..n {
        v.push(RepositoryRecord::new(format!("{}{}", prefix, i), Visibility::Public, None));
    }
    v
}

fn page(prefix: &str, n: usize, next: Option<&str>) -> Page {
    Page {
        nodes: records(prefix, n),
        page_info: PageInfo { has_next_page: next.is_some(), end_cursor: next.map(|c| c.to_string()) },
    }
}

/// Drives a listing over the given outcomes, recording each query issued.
fn drive(outcomes: Vec<Result<Page, TransportError>>, queries: &mut Vec<String>) -> Progress {
    let mut state = Progress::More(Paginator::new("octo".to_string(), 100, 50));
    for o in outcomes {
        state = match state {
            Progress::More(p) => {
                queries.push(p.query());
                p.receive(o)
            },
            finished => return finished,
        };
    }
    state
}

fn names(v: &[RepositoryRecord]) -> Vec<String> {
    v.iter().map(|r| r.name.clone()).collect()
}

#[test]
fn three_pages_give_every_record_in_order() {
    let mut qs = Vec::new();
    let out = drive(
        vec![Ok(page("a", 100, Some("c1"))), Ok(page("b", 100, Some("c2"))), Ok(page("c", 37, None))],
        &mut qs,
    );
    match out {
        Progress::Done(v) => {
            assert_eq!(v.len(), 237);
            let mut expected = names(&records("a", 100));
            expected.extend(names(&records("b", 100)));
            expected.extend(names(&records("c", 37)));
            assert_eq!(names(&v), expected);
        },
        _ => panic!("listing did not finish"),
    }
}

#[test]
fn failed_second_page_fails_the_listing() {
    let mut qs = Vec::new();
    let err = TransportError::Connection("reset".to_string());
    let out = drive(vec![Ok(page("a", 100, Some("c1"))), Err(err.clone()), Ok(page("c", 3, None))], &mut qs);
    match out {
        Progress::Failed(e) => assert_eq!(e, FetchError::Transport(err)),
        _ => panic!("listing did not fail"),
    }
    assert_eq!(qs.len(), 2);
}

#[test]
fn each_query_carries_the_previous_end_cursor() {
    let mut qs = Vec::new();
    let _ = drive(
        vec![Ok(page("a", 2, Some("c1"))), Ok(page("b", 2, Some("c2"))), Ok(page("c", 1, None))],
        &mut qs,
    );
    assert_eq!(qs.len(), 3);
    assert!(!qs[0].contains("after:"));
    assert!(qs[1].contains("first: 100, after: \"c1\")"));
    assert!(!qs[1].contains("c2"));
    assert!(qs[2].contains("first: 100, after: \"c2\")"));
    assert!(!qs[2].contains("c1"));
}

#[test]
fn listing_twice_gives_the_same_records() {
    let make = || vec![Ok(page("a", 3, Some("c1"))), Ok(page("b", 2, None))];
    let mut q1 = Vec::new();
    let mut q2 = Vec::new();
    let (Progress::Done(first), Progress::Done(second)) = (drive(make(), &mut q1), drive(make(), &mut q2)) else {
        panic!("listing did not finish");
    };
    assert_eq!(names(&first), names(&second));
    assert_eq!(q1, q2);
}

#[test]
fn empty_listing_is_done_and_empty() {
    let mut qs = Vec::new();
    match drive(vec![Ok(page("a", 0, None))], &mut qs) {
        Progress::Done(v) => assert!(v.is_empty()),
        _ => panic!("listing did not finish"),
    }
}

#[test]
fn next_page_without_cursor_fails() {
    let mut qs = Vec::new();
    let bad = Page { nodes: records("a", 1), page_info: PageInfo { has_next_page: true, end_cursor: None } };
    match drive(vec![Ok(bad)], &mut qs) {
        Progress::Failed(e) => assert_eq!(e, FetchError::MissingCursor),
        _ => panic!("listing did not fail"),
    }
}

#[test]
fn endless_listing_stops_at_the_page_limit() {
    let mut p = Paginator::new("octo".to_string(), 10, 3);
    let mut count = 0;
    loop {
        count += 1;
        match p.receive(Ok(page("x", 1, Some("more")))) {
            Progress::More(next) => p = next,
            Progress::Failed(e) => {
                assert_eq!(e, FetchError::PageLimit(3));
                break;
            },
            Progress::Done(_) => panic!("an endless listing finished"),
        }
    }
    assert_eq!(count, 3);
}

#[test]
fn status_and_decode_errors_pass_through() {
    for err in [TransportError::Status(502), TransportError::Decode("missing field".to_string())] {
        let p = Paginator::new("octo".to_string(), 100, 5);
        match p.receive(Err(err.clone())) {
            Progress::Failed(e) => assert_eq!(e, FetchError::Transport(err)),
            _ => panic!("listing did not fail"),
        }
    }
}
