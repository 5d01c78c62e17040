use s3_cleanup::cleanup::{Cleanup, DEFAULT_PAGE_SIZE};
use s3_cleanup::deletion::DeletionTask;
use s3_cleanup::store::{ListPage, ListRequest, StoreError};

/// A store double that lists `keys` in pages of at most `max_keys`, with the
/// index of the next key as its cursor.
fn answer(keys: &[String], req: &ListRequest) -> ListPage {
    let start: usize = match &req.continuation_token {
        Some(t) => t.parse().unwrap(),
        None => 0,
    };
    let end = std::cmp::min(start + req.max_keys as usize, keys.len());
    let page: Vec<String> = keys[start..end].to_vec();
    ListPage {
        key_count: page.len() as i32,
        keys: page,
        next_token: if end < keys.len() { Some(end.to_string()) } else { None },
    }
}

fn bucket_keys(n: usize) -> Vec<String> {
    (0..n).map(|i| format!("object-{i}")).collect()
}

/// Runs a whole cleanup against the double; returns the requests sent and
/// the tasks handed out.
fn run(keys: &[String], page_size: i32) -> (Vec<Option<String>>, Vec<DeletionTask>) {
    let mut c = Cleanup::new("bucket".to_string(), page_size);
    let mut tokens = vec![];
    let mut tasks = vec![];
    while let Some(req) = c.next_request() {
        assert_eq!(req.bucket, "bucket");
        assert_eq!(req.max_keys, page_size);
        tokens.push(req.continuation_token.clone());
        if let Some(t) = c.on_listing(Ok(answer(keys, &req))).ok().unwrap() {
            tasks.push(t);
        }
        assert!(tokens.len() <= keys.len() + 1);
    }
    (tokens, tasks)
}

fn drain(task: &mut DeletionTask) -> Vec<String> {
    let mut out = vec![];
    while let Some(d) = task.next_delete() {
        out.push(d.key);
        task.record_outcome(&Ok(()));
    }
    out
}

#[test]
fn forty_five_keys_in_pages_of_twenty() {
    let keys = bucket_keys(45);
    let (tokens, mut tasks) = run(&keys, 20);
    assert_eq!(tokens, vec![None, Some("20".to_string()), Some("40".to_string())]);
    assert_eq!(tasks.len(), 3);
    let sizes: Vec<usize> = tasks.iter().map(|t| t.len()).collect();
    assert_eq!(sizes, vec![20, 20, 5]);
    let mut deleted = vec![];
    for t in tasks.iter_mut() {
        deleted.extend(drain(t));
    }
    assert_eq!(deleted, keys);
}

#[test]
fn last_page_has_no_cursor_and_ends_the_loop() {
    let keys = bucket_keys(45);
    let mut c = Cleanup::new("bucket".to_string(), 20);
    for _ in 0..3 {
        let req = c.next_request().unwrap();
        let page = answer(&keys, &req);
        let last = page.next_token.is_none();
        c.on_listing(Ok(page)).ok().unwrap();
        assert_eq!(c.is_finished(), last);
    }
    assert!(c.is_finished());
    assert!(c.next_request().is_none());
}

#[test]
fn empty_bucket_takes_one_listing_and_no_task() {
    let (tokens, tasks) = run(&[], 20);
    assert_eq!(tokens, vec![None]);
    assert!(tasks.is_empty());
}

#[test]
fn exact_multiple_of_page_size() {
    let keys = bucket_keys(40);
    let (tokens, tasks) = run(&keys, 20);
    assert_eq!(tokens.len(), 2);
    assert_eq!(tasks.len(), 2);
}

#[test]
fn listing_calls_are_the_ceiling_of_keys_over_page_size() {
    for n in 0..70usize {
        for p in 1..12i32 {
            let keys = bucket_keys(n);
            let (tokens, mut tasks) = run(&keys, p);
            let expected = if n == 0 { 1 } else { (n + p as usize - 1) / p as usize };
            assert_eq!(tokens.len(), expected);
            let mut deleted = vec![];
            for t in tasks.iter_mut() {
                deleted.extend(drain(t));
            }
            assert_eq!(deleted, keys);
        }
    }
}

#[test]
fn default_page_size_is_twenty() {
    assert_eq!(DEFAULT_PAGE_SIZE, 20);
    let c = Cleanup::new("b".to_string(), DEFAULT_PAGE_SIZE);
    assert_eq!(c.next_request().unwrap().max_keys, 20);
}

#[test]
fn empty_page_with_cursor_keeps_listing() {
    let mut c = Cleanup::new("bucket".to_string(), 20);
    let page = ListPage { keys: vec![], key_count: 0, next_token: Some("more".to_string()) };
    let task = c.on_listing(Ok(page)).ok().unwrap();
    assert!(task.is_none());
    assert!(!c.is_finished());
    assert_eq!(c.next_request().unwrap().continuation_token, Some("more".to_string()));
}

#[test]
fn next_request_does_not_wait_for_deletions() {
    let keys = bucket_keys(45);
    let mut c = Cleanup::new("bucket".to_string(), 20);
    let req = c.next_request().unwrap();
    let mut task = c.on_listing(Ok(answer(&keys, &req))).ok().unwrap().unwrap();
    // No deletion of the first page has been issued yet.
    let second = c.next_request().unwrap();
    assert_eq!(second.continuation_token, Some("20".to_string()));
    assert_eq!(task.next_delete().unwrap().key, "object-0");
}

#[test]
fn first_listing_failure_propagates() {
    let mut c = Cleanup::new("bucket".to_string(), 20);
    assert!(c.next_request().is_some());
    let err = StoreError { message: "NoSuchBucket".to_string() };
    match c.on_listing(Err(err)) {
        Err(e) => assert_eq!(e.message, "NoSuchBucket"),
        Ok(_) => panic!("the failure was swallowed"),
    }
    assert!(c.is_finished());
    assert!(c.next_request().is_none());
}

#[test]
fn one_failed_deletion_does_not_stop_the_batch() {
    let keys = bucket_keys(10);
    let mut task = DeletionTask::new("bucket".to_string(), keys.clone());
    let mut requested = vec![];
    while let Some(d) = task.next_delete() {
        assert_eq!(d.bucket, "bucket");
        let outcome = if d.key == "object-3" {
            Err(StoreError { message: "AccessDenied".to_string() })
        } else {
            Ok(())
        };
        requested.push(d.key);
        task.record_outcome(&outcome);
    }
    assert_eq!(requested, keys);
    assert_eq!(task.failures(), 1);
    assert!(task.is_done());
}

#[test]
fn deletion_task_of_one_key() {
    let mut task = DeletionTask::new("b".to_string(), vec!["k".to_string()]);
    assert!(!task.is_done());
    let d = task.next_delete().unwrap();
    assert_eq!((d.bucket.as_str(), d.key.as_str()), ("b", "k"));
    assert!(task.is_done());
    assert!(task.next_delete().is_none());
}
