use ice_launcher::batch::{percent_of, BatchRun, Download, DownloadItem, DownloadState, Progress};

#[test]
fn three_item_batch_emits_ordered_progress() {
    let (mut run, started) = BatchRun::begin(3);
    assert_eq!(started, Progress::Started);
    assert_eq!(run.item_done(), Progress::Advanced(33));
    assert_eq!(run.item_done(), Progress::Advanced(66));
    assert_eq!(run.item_done(), Progress::Advanced(100));
    assert_eq!(run.finish(), Progress::Finished);
}

#[test]
fn failure_halts_the_batch() {
    let (mut run, _) = BatchRun::begin(2);
    assert_eq!(run.item_done(), Progress::Advanced(50));
    assert_eq!(run.item_failed(), Progress::Errored);
    assert!(run.errored);
    assert_eq!(run.completed, 1);
}

#[test]
fn percent_is_per_item_granularity() {
    assert_eq!(percent_of(1, 3), 33);
    assert_eq!(percent_of(2, 3), 66);
    assert_eq!(percent_of(3, 3), 100);
    assert_eq!(percent_of(1, 7), 14);
    assert_eq!(percent_of(0, 5), 0);
    assert_eq!(percent_of(5, 5), 100);
}

fn item(url: &str) -> DownloadItem {
    DownloadItem {
        url: String::from(url),
        path: String::from("libraries/x.jar"),
        hash: None,
        hash_function: None,
        extract: false,
    }
}

#[test]
fn download_page_follows_events() {
    let mut page = Download::new();
    assert!(matches!(page.state, DownloadState::Idle));
    assert_eq!(page.current_progress(), 0);

    page.start(vec![item("https://example/a"), item("https://example/b")]);
    assert!(matches!(page.state, DownloadState::Downloading { .. }));
    assert_eq!(page.current_progress(), 0);

    page.update(Progress::Advanced(50));
    assert_eq!(page.current_progress(), 50);

    page.update(Progress::Finished);
    assert!(matches!(page.state, DownloadState::Finished));
    assert_eq!(page.current_progress(), 100);
}

#[test]
fn starting_while_downloading_is_a_no_op() {
    let mut page = Download::new();
    page.start(vec![item("https://example/a")]);
    page.update(Progress::Advanced(40));
    page.start(vec![item("https://example/b"), item("https://example/c")]);
    assert_eq!(page.current_progress(), 40);
    match &page.state {
        DownloadState::Downloading { items, .. } => assert_eq!(items.len(), 1),
        other => panic!("expected downloading, got {:?}", other),
    }
}

#[test]
fn errored_batch_can_be_restarted() {
    let mut page = Download::new();
    page.start(vec![item("https://example/a")]);
    page.update(Progress::Errored);
    assert!(matches!(page.state, DownloadState::Errored));
    assert_eq!(page.current_progress(), 0);
    page.start(vec![item("https://example/b")]);
    assert!(matches!(page.state, DownloadState::Downloading { .. }));
}

#[test]
fn events_outside_downloading_are_ignored() {
    let mut page = Download::new();
    page.update(Progress::Advanced(70));
    assert!(matches!(page.state, DownloadState::Idle));
}
