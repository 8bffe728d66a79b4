use onedrive_api::{api_path, FileName, ItemId, ItemLocation};

#[test]
fn test_api_url() {
    let mock_item_id = ItemId::new("1234".to_owned());
    assert_eq!(
        api_path(&ItemLocation::from_id(&mock_item_id)).unwrap(),
        "/drive/items/1234",
    );

    assert_eq!(
        api_path(&ItemLocation::from_path("/dir/file name").unwrap()).unwrap(),
        "/drive/root:%2Fdir%2Ffile%20name:",
    );
}

#[test]
fn test_path_name_check() {
    let invalid_names = ["", ".*?", "a|b", "a<b>b", ":run", "/", "\\"];
    let valid_names = [
        "QAQ",
        "0",
        ".",
        "a-a\u{ff1a}", // Unicode colon "\u{ff1a}"
        "\u{9b54}\u{7406}\u{6c99}",
    ];

    let check_name = |s: &str| FileName::new(s).is_some();
    let check_path = |s: &str| ItemLocation::from_path(s).is_some();

    for s in &valid_names {
        assert!(check_name(s), "{}", s);
        let path = format!("/{}", s);
        assert!(check_path(&path), "{}", path);

        for s2 in &valid_names {
            let mut path = format!("/{}/{}", s, s2);
            assert!(check_path(&path), "{}", path);
            path.push('/'); // Trailing
            assert!(check_path(&path), "{}", path);
        }
    }

    for s in &invalid_names {
        assert!(!check_name(s), "{}", s);

        // `/` and `/xx/` is valid and is tested below.
        if s.is_empty() {
            continue;
        }

        let path = format!("/{}", s);
        assert!(!check_path(&path), "{}", path);

        for s2 in &valid_names {
            let path = format!("/{}/{}", s2, s);
            assert!(!check_path(&path), "{}", path);
        }
    }

    assert!(check_path("/"));
    assert!(check_path("/a"));
    assert!(check_path("/a/"));
    assert!(check_path("/a/b"));
    assert!(check_path("/a/b/"));

    assert!(!check_path(""));
    assert!(!check_path("/a/b//"));
    assert!(!check_path("a"));
    assert!(!check_path("a/"));
    assert!(!check_path("//"));
}

#[test]
fn reserved_windows_names_pass_the_check() {
    assert!(ItemLocation::from_path("/CON").is_some());
    assert!(ItemLocation::from_path("/dir/NUL/").is_some());
    assert!(FileName::new("PRN").is_some());
}

#[test]
fn file_name_keeps_its_text() {
    let name = FileName::new("report 2020.txt").unwrap();
    assert_eq!(name.as_str(), "report 2020.txt");
    assert!(FileName::new("quote\"d").is_none());
    assert!(FileName::new("star*").is_none());
}

#[test]
fn api_path_of_root_and_children() {
    assert_eq!(api_path(&ItemLocation::root()).unwrap(), "/drive/root");
    assert_eq!(api_path(&ItemLocation::from_path("/").unwrap()).unwrap(), "/drive/root");
    let parent = ItemId::new("P1".to_owned());
    let child = FileName::new("c d").unwrap();
    assert_eq!(
        api_path(&ItemLocation::child_of_id(&parent, &child)).unwrap(),
        "/drive/items/P1/children/c%20d",
    );
}

#[test]
fn names_joined_into_paths_stay_valid() {
    let names = ["a", "b c", "\u{9b54}"];
    let mut path = String::new();
    for n in &names {
        path.push('/');
        path.push_str(n);
        assert!(ItemLocation::from_path(&path).is_some(), "{}", path);
        let trailing = format!("{}/", path);
        assert!(ItemLocation::from_path(&trailing).is_some(), "{}", trailing);
    }
    assert!(ItemLocation::from_path("/a/b?c/d").is_none());
    assert!(ItemLocation::from_path("/a/b?c/d/").is_none());
}
