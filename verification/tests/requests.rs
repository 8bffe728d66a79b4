use onedrive_api::onedrive::content_range;
use onedrive_api::{
    CollectionOption, CopyProgressMonitor, DriveItemPutOption, ObjectOption, Tag,
    answer_kind, AnswerKind,
    copy_monitor_url, require_response, ApiRequest, ConflictBehavior, DriveId, DriveLocation,
    ExpectRange, FileName, ItemId, ItemLocation, Method, OneDrive, RequestBody,
    UnexpectedResponse, UploadSession,
};

fn drive() -> OneDrive {
    OneDrive::new("TOKEN".to_owned(), DriveLocation::me())
}

fn bearer(r: &ApiRequest) -> Option<&str> {
    r.bearer_token.as_deref()
}

#[test]
fn token_is_kept() {
    assert_eq!(drive().token(), "TOKEN");
}

#[test]
fn drive_urls() {
    let r = drive().get_drive_request(ObjectOption::new()).unwrap();
    assert_eq!(r.method, Method::Get);
    assert_eq!(r.url, "https://graph.microsoft.com/v1.0/me/drive");
    assert_eq!(bearer(&r), Some("TOKEN"));

    let users = OneDrive::new("T".to_owned(), DriveLocation::from_user("u@x.org".to_owned()));
    assert_eq!(
        users.get_drive_request(ObjectOption::new()).unwrap().url,
        "https://graph.microsoft.com/v1.0/users/u@x.org/drive"
    );
    let groups = OneDrive::new("T".to_owned(), DriveLocation::from_group("g".to_owned()));
    assert_eq!(
        groups.get_drive_request(ObjectOption::new()).unwrap().url,
        "https://graph.microsoft.com/v1.0/groups/g/drive"
    );
    let sites = OneDrive::new("T".to_owned(), DriveLocation::from_site("s".to_owned()));
    assert_eq!(
        sites.get_drive_request(ObjectOption::new()).unwrap().url,
        "https://graph.microsoft.com/v1.0/sites/s/drive"
    );
    let by_id = OneDrive::new(
        "T".to_owned(),
        DriveLocation::from_id(DriveId::new("D1".to_owned())),
    );
    assert_eq!(
        by_id.get_drive_request(ObjectOption::new()).unwrap().url,
        "https://graph.microsoft.com/v1.0/drives/D1"
    );
}

#[test]
fn item_urls() {
    let od = drive();
    let path = ItemLocation::from_path("/a b/c").unwrap();
    let r = od.list_children_request(&path, CollectionOption::new()).unwrap();
    assert_eq!(
        r.url,
        "https://graph.microsoft.com/v1.0/me/drive/root:%2Fa%20b%2Fc:/children"
    );
    let id = ItemId::new("X".to_owned());
    let r = od.get_item_request(&ItemLocation::from_id(&id), ObjectOption::new()).unwrap();
    assert_eq!(r.url, "https://graph.microsoft.com/v1.0/me/drive/items/X");
    assert!(matches!(r.body, RequestBody::Empty));
    let r = od.track_changes_from_initial_request(&ItemLocation::root(), CollectionOption::new()).unwrap();
    assert_eq!(r.url, "https://graph.microsoft.com/v1.0/me/drive/root/delta");
    let r = od.get_latest_delta_url_request(&ItemLocation::root()).unwrap();
    assert_eq!(r.query, vec![("token".to_owned(), "latest".to_owned())]);
    assert_eq!(r.url, "https://graph.microsoft.com/v1.0/me/drive/root/delta");
}

#[test]
fn create_folder_defaults_to_fail() {
    let od = drive();
    let name = FileName::new("new folder").unwrap();
    let r = od.create_folder_request(&ItemLocation::root(), &name, DriveItemPutOption::new()).unwrap();
    assert_eq!(r.method, Method::Post);
    assert_eq!(r.url, "https://graph.microsoft.com/v1.0/me/drive/root/children");
    match r.body {
        RequestBody::CreateFolder { name, conflict_behavior } => {
            assert_eq!(name, "new folder");
            assert_eq!(conflict_behavior, ConflictBehavior::Fail);
        }
        _ => panic!("wrong body"),
    }
    let r = od
        .create_folder_request(
            &ItemLocation::root(),
            &name,
            DriveItemPutOption::new().conflict_behavior(ConflictBehavior::Rename),
        )
        .unwrap();
    match r.body {
        RequestBody::CreateFolder { conflict_behavior, .. } => {
            assert_eq!(conflict_behavior, ConflictBehavior::Rename)
        }
        _ => panic!("wrong body"),
    }
}

#[test]
fn upload_session_requests() {
    let od = drive();
    let item = ItemLocation::from_path("/f.bin").unwrap();
    let r = od.new_upload_session_request(&item, DriveItemPutOption::new()).unwrap();
    assert_eq!(
        r.url,
        "https://graph.microsoft.com/v1.0/me/drive/root:%2Ff.bin:/createUploadSession"
    );
    assert!(matches!(
        r.body,
        RequestBody::NewUploadSession { conflict_behavior: ConflictBehavior::Fail }
    ));

    let sess = UploadSession::new(
        "https://up.example/s1".to_owned(),
        vec![ExpectRange { start: 0, end: None }],
        "2020-01-01T00:00:00Z".to_owned(),
    );
    assert_eq!(sess.upload_url(), "https://up.example/s1");
    assert_eq!(sess.next_expected_ranges(), &[ExpectRange { start: 0, end: None }][..]);
    assert_eq!(sess.expiration_date_time(), "2020-01-01T00:00:00Z");

    let data = [1u8, 2, 3, 4];
    let r = od.upload_to_session_request(&sess, &data, 10..14, 100);
    assert_eq!(r.method, Method::Put);
    assert_eq!(r.url, "https://up.example/s1");
    assert_eq!(bearer(&r), None);
    assert_eq!(r.content_range.as_deref(), Some("bytes 10-13/100"));
    match r.body {
        RequestBody::Bytes(b) => assert_eq!(b, vec![1, 2, 3, 4]),
        _ => panic!("wrong body"),
    }

    let r = od.delete_upload_session_request(&sess);
    assert_eq!(r.method, Method::Delete);
    assert_eq!(r.url, "https://up.example/s1");
    assert_eq!(bearer(&r), None);

    let r = od.get_upload_session_request("https://up.example/s1");
    assert_eq!(r.method, Method::Get);
    assert_eq!(bearer(&r), None);
}

#[test]
fn content_range_header_text() {
    assert_eq!(content_range(0, 1, 1), "bytes 0-0/1");
    assert_eq!(content_range(327680, 655360, 1000000), "bytes 327680-655359/1000000");
}

#[test]
fn upload_small_puts_content() {
    let od = drive();
    let r = od
        .upload_small_request(&ItemLocation::from_path("/x.txt").unwrap(), b"Hello, world")
        .unwrap();
    assert_eq!(r.method, Method::Put);
    assert_eq!(
        r.url,
        "https://graph.microsoft.com/v1.0/me/drive/root:%2Fx.txt:/content"
    );
    match r.body {
        RequestBody::Bytes(b) => assert_eq!(b, b"Hello, world".to_vec()),
        _ => panic!("wrong body"),
    }
}

#[test]
fn copy_and_move_name_the_destination_by_path() {
    let od = drive();
    let src = ItemId::new("S".to_owned());
    let dest = ItemLocation::from_path("/dir/sub dir").unwrap();
    let name = FileName::new("n.txt").unwrap();
    let r = od.copy_request(&ItemLocation::from_id(&src), &dest, &name).unwrap();
    assert_eq!(r.url, "https://graph.microsoft.com/v1.0/me/drive/items/S/copy");
    match r.body {
        RequestBody::Copy { parent_path, name } => {
            assert_eq!(parent_path, "/drive/root:%2Fdir%2Fsub%20dir:");
            assert_eq!(name, "n.txt");
        }
        _ => panic!("wrong body"),
    }
    let r = od
        .move_request(
            &ItemLocation::from_id(&src),
            &ItemLocation::root(),
            None,
            DriveItemPutOption::new(),
        )
        .unwrap();
    assert_eq!(r.method, Method::Patch);
    assert_eq!(r.url, "https://graph.microsoft.com/v1.0/me/drive/items/S");
    match r.body {
        RequestBody::Move { parent_path, name, conflict_behavior } => {
            assert_eq!(parent_path, "/drive/root");
            assert_eq!(name, None);
            assert_eq!(conflict_behavior, ConflictBehavior::Fail);
        }
        _ => panic!("wrong body"),
    }
}

#[test]
fn delete_and_update_requests() {
    let od = drive();
    let id = ItemId::new("Z".to_owned());
    let r = od.delete_request(&ItemLocation::from_id(&id), DriveItemPutOption::new()).unwrap();
    assert_eq!(r.method, Method::Delete);
    assert_eq!(r.url, "https://graph.microsoft.com/v1.0/me/drive/items/Z");
    let r = od.update_item_request(&ItemLocation::from_id(&id), ObjectOption::new()).unwrap();
    assert_eq!(r.method, Method::Patch);
    assert!(matches!(r.body, RequestBody::ItemPatch));
}

#[test]
fn following_links_carries_the_token() {
    let od = drive();
    let r = od.follow_link_request("https://next.example/p2");
    assert_eq!(r.url, "https://next.example/p2");
    assert_eq!(bearer(&r), Some("TOKEN"));
    let monitor = CopyProgressMonitor::from_url("https://monitor.example/m".to_owned());
    assert_eq!(monitor.url(), "https://monitor.example/m");
    let r = monitor.progress_request();
    assert_eq!(r.method, Method::Get);
    assert_eq!(r.url, "https://monitor.example/m");
    assert_eq!(bearer(&r), None);
}

#[test]
fn copy_location_header() {
    assert_eq!(
        copy_monitor_url(Some(b"https://m.example/x?y=1")),
        Ok("https://m.example/x?y=1".to_owned())
    );
    assert_eq!(copy_monitor_url(Some(b"a\tb")), Ok("a\tb".to_owned()));
    assert_eq!(copy_monitor_url(None), Err(UnexpectedResponse::MissingLocation));
    assert_eq!(
        copy_monitor_url(Some(&[0x68, 0xff])),
        Err(UnexpectedResponse::InvalidLocation)
    );
    assert_eq!(
        copy_monitor_url(Some(b"a\nb")),
        Err(UnexpectedResponse::InvalidLocation)
    );
}

#[test]
fn unexpected_responses() {
    assert_eq!(require_response(Some(3)), Ok(3));
    assert_eq!(require_response::<u8>(None), Err(UnexpectedResponse::EmptyResponse));
    assert_eq!(
        UnexpectedResponse::EmptyResponse.message(),
        "Unexpected empty response"
    );
    assert_eq!(
        UnexpectedResponse::MissingLocation.message(),
        "Header `Location` not exists in response of `copy`"
    );
    assert_eq!(
        UnexpectedResponse::InvalidLocation.message(),
        "Invalid string header `Location`"
    );
    assert_eq!(
        UnexpectedResponse::MissingLatestDeltaLink.message(),
        "Missing field `@odata.deltaLink` for getting latest delta"
    );
    assert_eq!(
        UnexpectedResponse::MissingLastPageDeltaLink.message(),
        "Missing `@odata.deltaLink` for the last page"
    );
}

#[test]
fn answers_are_read_by_status() {
    assert_eq!(answer_kind(200, false), AnswerKind::Read);
    assert_eq!(answer_kind(201, true), AnswerKind::Read);
    assert_eq!(answer_kind(302, false), AnswerKind::Read);
    assert_eq!(answer_kind(304, true), AnswerKind::Nothing);
    assert_eq!(answer_kind(202, true), AnswerKind::Nothing);
    assert_eq!(answer_kind(202, false), AnswerKind::Read);
    assert_eq!(answer_kind(304, false), AnswerKind::Read);
    assert_eq!(answer_kind(409, false), AnswerKind::Failure);
    assert_eq!(answer_kind(412, true), AnswerKind::Failure);
    assert_eq!(answer_kind(199, false), AnswerKind::Failure);
}

fn pairs(v: &[(&str, &str)]) -> Vec<(String, String)> {
    v.iter().map(|(a, b)| (a.to_string(), b.to_string())).collect()
}

#[test]
fn options_go_into_the_request() {
    let od = drive();
    let tag = Tag::new("\"etag,1\"".to_owned());
    let src = ItemId::new("S".to_owned());
    let opt = DriveItemPutOption::new()
        .if_match(&tag)
        .conflict_behavior(ConflictBehavior::Replace);
    assert_eq!(opt.get_conflict_behavior(), Some(ConflictBehavior::Replace));
    let r = od
        .move_request(&ItemLocation::from_id(&src), &ItemLocation::root(), None, opt)
        .unwrap();
    assert_eq!(r.headers, pairs(&[("If-Match", "\"etag,1\"")]));
    match r.body {
        RequestBody::Move { conflict_behavior, .. } => {
            assert_eq!(conflict_behavior, ConflictBehavior::Replace)
        }
        _ => panic!("wrong body"),
    }

    let r = od
        .delete_request(&ItemLocation::from_id(&src), DriveItemPutOption::new().if_match(&tag))
        .unwrap();
    assert_eq!(r.headers, pairs(&[("If-Match", "\"etag,1\"")]));
    assert!(r.query.is_empty());

    let opt = CollectionOption::new()
        .select(&["id", "name", "size"])
        .order_by("name")
        .page_size(200)
        .if_none_match(&tag);
    let r = od.list_children_request(&ItemLocation::root(), opt).unwrap();
    assert_eq!(
        r.query,
        pairs(&[("$select", "id,name,size"), ("$orderby", "name"), ("$top", "200")])
    );
    assert_eq!(r.headers, pairs(&[("If-None-Match", "\"etag,1\"")]));

    let opt = ObjectOption::new().select(&["id"]).expand("children");
    let r = od.get_item_request(&ItemLocation::root(), opt).unwrap();
    assert_eq!(r.query, pairs(&[("$select", "id"), ("$expand", "children")]));
    assert!(r.headers.is_empty());

    let r = od
        .get_drive_request(ObjectOption::new().select(&[]))
        .unwrap();
    assert_eq!(r.query, pairs(&[("$select", "")]));

    let d: DriveItemPutOption = Default::default();
    assert_eq!(d.get_conflict_behavior(), None);
}

#[test]
fn locations_from_ids() {
    let id = ItemId::new("I9".to_owned());
    let loc: ItemLocation = (&id).into();
    assert_eq!(api_path_of(&loc), "/drive/items/I9");
    let drive: DriveLocation = DriveId::new("D9".to_owned()).into();
    let od = OneDrive::new("T".to_owned(), drive);
    assert_eq!(
        od.get_drive_request(ObjectOption::new()).unwrap().url,
        "https://graph.microsoft.com/v1.0/drives/D9"
    );
}

fn api_path_of(loc: &ItemLocation) -> String {
    onedrive_api::api_path(loc).unwrap()
}
