use onedrive_api::{
    finish_tracking, CollectionPage, DriveItemFetcher, FetchStep, PageCollector, UnexpectedResponse,
};

fn page(value: Option<Vec<u32>>, next: Option<&str>, delta: Option<&str>) -> CollectionPage<u32> {
    CollectionPage {
        value,
        next_url: next.map(|s| s.to_owned()),
        delta_url: delta.map(|s| s.to_owned()),
    }
}

#[test]
fn first_page_is_handed_out_before_any_fetch() {
    let mut f = DriveItemFetcher::new(page(Some(vec![1, 2]), Some("L2"), None));
    // The first page has no link to fetch it again.
    assert_eq!(f.next_url(), None);
    match f.next_step() {
        FetchStep::Page(items) => assert_eq!(items, vec![1, 2]),
        _ => panic!("expected the first page"),
    }
    assert_eq!(f.next_url(), Some("L2"));
    match f.next_step() {
        FetchStep::Fetch(url) => assert_eq!(url, "L2"),
        _ => panic!("expected a fetch"),
    }
    let items = f.receive_page(page(Some(vec![3]), None, Some("D")));
    assert_eq!(items, vec![3]);
    assert_eq!(f.next_url(), None);
    assert_eq!(f.delta_url(), Some("D"));
    assert!(matches!(f.next_step(), FetchStep::End));
}

#[test]
fn resumed_fetcher_gives_its_link_back() {
    let mut f: DriveItemFetcher<u32> = DriveItemFetcher::resume_from("L7".to_owned());
    assert_eq!(f.next_url(), Some("L7"));
    assert_eq!(f.delta_url(), None);
    match f.next_step() {
        FetchStep::Fetch(url) => assert_eq!(url, "L7"),
        _ => panic!("expected a fetch"),
    }
    // A page without items hands out none.
    let items = f.receive_page(page(None, Some("L8"), None));
    assert!(items.is_empty());
    assert_eq!(f.next_url(), Some("L8"));
}

#[test]
fn tracking_needs_a_delta_link() {
    assert_eq!(
        finish_tracking(vec![1u32], Some("D".to_owned())),
        Ok((vec![1], "D".to_owned()))
    );
    assert_eq!(
        finish_tracking::<u32>(vec![], None),
        Err(UnexpectedResponse::MissingLastPageDeltaLink)
    );
    assert_eq!(
        page(None, None, Some("D2")).into_latest_delta_url(),
        Ok("D2".to_owned())
    );
    assert_eq!(
        page(None, None, None).into_latest_delta_url(),
        Err(UnexpectedResponse::MissingLatestDeltaLink)
    );
}

#[test]
fn all_pages_are_collected_in_order() {
    let fetcher = DriveItemFetcher::new(page(Some(vec![1, 2]), Some("L2"), None));
    let mut c = PageCollector::new(fetcher);
    assert_eq!(c.next_link(), Some("L2".to_owned()));
    c.receive(page(Some(vec![3]), Some("L3"), None));
    assert_eq!(c.next_link(), Some("L3".to_owned()));
    c.receive(page(None, Some("L4"), None));
    assert_eq!(c.next_link(), Some("L4".to_owned()));
    c.receive(page(Some(vec![4, 5]), None, Some("D")));
    assert_eq!(c.next_link(), None);
    assert_eq!(c.finish(), (vec![1, 2, 3, 4, 5], Some("D".to_owned())));
}

#[test]
fn a_resumed_collection_starts_with_a_fetch() {
    let fetcher: DriveItemFetcher<u32> = DriveItemFetcher::resume_from("L1".to_owned());
    let mut c = PageCollector::new(fetcher);
    assert_eq!(c.next_link(), Some("L1".to_owned()));
    c.receive(page(Some(vec![7]), None, None));
    assert_eq!(c.next_link(), None);
    assert_eq!(c.finish(), (vec![7], None));
}
