use profiles::IProfiles;
use profiles::PrfError;
use profiles::PrfExtra;
use profiles::PrfItem;

fn blank() -> PrfItem {
    PrfItem {
        uid: None,
        itype: None,
        name: None,
        desc: None,
        file: None,
        url: None,
        selected: None,
        extra: None,
        updated: None,
        option: None,
        file_data: None,
    }
}

fn named(uid: &str) -> PrfItem {
    let mut it = blank();
    it.uid = Some(uid.to_string());
    it
}

fn store_with(items: Vec<PrfItem>) -> IProfiles {
    IProfiles { current: None, chain: None, valid: None, items: Some(items) }
}

#[test]
fn template_defaults() {
    let s = IProfiles::template();
    assert_eq!(s.current, None);
    assert_eq!(s.chain, None);
    assert_eq!(s.valid, Some(vec!["dns".to_string()]));
    assert_eq!(s.items, Some(vec![]));
}

#[test]
fn new_without_loaded_store_is_template() {
    let s = IProfiles::new(None, vec![]);
    assert_eq!(s, IProfiles::template());
}

#[test]
fn new_normalizes_missing_items() {
    let loaded = IProfiles {
        current: Some("a".to_string()),
        chain: Some(vec!["b".to_string()]),
        valid: Some(vec!["dns".to_string()]),
        items: None,
    };
    let s = IProfiles::new(Some(loaded), vec![]);
    assert_eq!(s.current, Some("a".to_string()));
    assert_eq!(s.chain, Some(vec!["b".to_string()]));
    assert_eq!(s.valid, Some(vec!["dns".to_string()]));
    assert_eq!(s.items, Some(vec![]));
}

#[test]
fn new_backfills_missing_uids() {
    let mut keeps = named("keep");
    keeps.name = Some("first".to_string());
    let mut lacks = blank();
    lacks.name = Some("second".to_string());
    let loaded = IProfiles {
        current: None,
        chain: None,
        valid: None,
        items: Some(vec![keeps, lacks]),
    };
    let s = IProfiles::new(Some(loaded), vec!["dGEN1".to_string(), "dGEN2".to_string()]);
    let items = s.items.unwrap();
    assert_eq!(items[0].uid, Some("keep".to_string()));
    assert_eq!(items[0].name, Some("first".to_string()));
    assert_eq!(items[1].uid, Some("dGEN2".to_string()));
    assert_eq!(items[1].name, Some("second".to_string()));
}

#[test]
fn patch_config_applies_resolvable_current() {
    let mut s = store_with(vec![named("a")]);
    let patch = IProfiles { current: Some("a".to_string()), chain: None, valid: None, items: None };
    assert!(s.patch_config(patch).is_ok());
    assert_eq!(s.current, Some("a".to_string()));
}

#[test]
fn patch_config_ignores_unknown_current() {
    let mut s = store_with(vec![named("a")]);
    s.current = Some("a".to_string());
    let patch = IProfiles { current: Some("b".to_string()), chain: None, valid: None, items: None };
    assert!(s.patch_config(patch).is_ok());
    assert_eq!(s.current, Some("a".to_string()));
}

#[test]
fn patch_config_replaces_chain_and_valid_wholesale() {
    let mut s = store_with(vec![]);
    s.chain = Some(vec!["x".to_string(), "y".to_string()]);
    s.valid = Some(vec!["dns".to_string()]);
    let patch = IProfiles {
        current: None,
        chain: Some(vec!["z".to_string()]),
        valid: Some(vec!["tun".to_string(), "dns".to_string()]),
        items: None,
    };
    assert!(s.patch_config(patch).is_ok());
    assert_eq!(s.chain, Some(vec!["z".to_string()]));
    assert_eq!(s.valid, Some(vec!["tun".to_string(), "dns".to_string()]));
}

#[test]
fn patch_config_all_absent_is_noop() {
    let mut s = store_with(vec![named("a")]);
    s.current = Some("a".to_string());
    s.chain = Some(vec!["c".to_string()]);
    s.valid = Some(vec!["dns".to_string()]);
    let before = s.clone();
    let patch = IProfiles { current: None, chain: None, valid: None, items: None };
    assert!(s.patch_config(patch).is_ok());
    assert_eq!(s, before);
}

#[test]
fn put_current_known_uid() {
    let mut s = store_with(vec![named("a"), named("b")]);
    assert!(s.put_current("b".to_string()).is_ok());
    assert_eq!(s.current, Some("b".to_string()));
}

#[test]
fn put_current_unknown_uid_fails() {
    let mut s = store_with(vec![named("a")]);
    let r = s.put_current("nope".to_string());
    assert!(matches!(r, Err(PrfError::InvalidUid)));
    assert_eq!(s.current, None);
}

#[test]
fn put_chain_and_put_valid_set_fields() {
    let mut s = store_with(vec![]);
    assert!(s.put_chain(Some(vec!["a".to_string()])).is_ok());
    assert_eq!(s.chain, Some(vec!["a".to_string()]));
    assert!(s.put_chain(None).is_ok());
    assert_eq!(s.chain, None);
    assert!(s.put_valid(Some(vec!["dns".to_string()])).is_ok());
    assert_eq!(s.valid, Some(vec!["dns".to_string()]));
}

#[test]
fn get_items_and_get_item() {
    let s = store_with(vec![named("a")]);
    assert_eq!(s.get_items().unwrap().len(), 1);
    let found = s.get_item(&"a".to_string());
    assert_eq!(found.unwrap().uid, Some("a".to_string()));
    let missing = s.get_item(&"b".to_string());
    assert!(matches!(missing, Err(PrfError::ItemNotFound)));
}

#[test]
fn append_item_without_uid_fails_and_leaves_items_unchanged() {
    let mut s = store_with(vec![named("a")]);
    let before = s.clone();
    let mut it = blank();
    it.name = Some("no id".to_string());
    let r = s.append_item(it);
    assert!(matches!(r, Err(PrfError::UidRequired)));
    assert_eq!(s, before);
}

#[test]
fn append_item_with_data_but_no_file_fails() {
    let mut s = store_with(vec![]);
    let mut it = named("a");
    it.file_data = Some("payload".to_string());
    let r = s.append_item(it);
    assert!(matches!(r, Err(PrfError::FileRequired)));
    assert_eq!(s.items, Some(vec![]));
}

#[test]
fn append_item_appends_at_tail_and_clears_payload() {
    let mut s = store_with(vec![named("a")]);
    let mut it = named("b");
    it.file = Some("b.yaml".to_string());
    it.file_data = Some("payload".to_string());
    assert!(s.append_item(it).is_ok());
    let items = s.items.as_ref().unwrap();
    assert_eq!(items.len(), 2);
    assert_eq!(items[0].uid, Some("a".to_string()));
    assert_eq!(items[1].uid, Some("b".to_string()));
    assert_eq!(items[1].file, Some("b.yaml".to_string()));
    assert_eq!(items[1].file_data, None);
}

#[test]
fn append_then_get_returns_input_with_payload_cleared() {
    let mut s = IProfiles::template();
    let mut it = named("r1");
    it.itype = Some("remote".to_string());
    it.name = Some("My profile".to_string());
    it.desc = Some("desc".to_string());
    it.file = Some("r1.yaml".to_string());
    it.url = Some("https://example.com/cfg".to_string());
    it.extra = Some(PrfExtra { upload: 1, download: 2, total: 3, expire: 4 });
    it.updated = Some(1700000000);
    it.file_data = Some("mode: rule".to_string());
    let mut expected = it.clone();
    expected.file_data = None;
    assert!(s.append_item(it).is_ok());
    let got = s.get_item(&"r1".to_string()).unwrap();
    assert_eq!(*got, expected);
}

#[test]
fn patch_item_changes_exactly_the_given_fields() {
    let mut base = named("a");
    base.itype = Some("local".to_string());
    base.name = Some("old name".to_string());
    base.desc = Some("old desc".to_string());
    base.file = Some("a.yaml".to_string());
    base.updated = Some(1);
    let mut s = store_with(vec![base.clone()]);
    let mut patch = blank();
    patch.name = Some("new name".to_string());
    patch.updated = Some(2);
    assert!(s.patch_item("a".to_string(), patch).is_ok());
    let mut expected = base;
    expected.name = Some("new name".to_string());
    expected.updated = Some(2);
    assert_eq!(s.items, Some(vec![expected]));
}

#[test]
fn patch_item_never_clears_set_fields() {
    let mut base = named("a");
    base.name = Some("kept".to_string());
    base.url = Some("https://example.com".to_string());
    let mut s = store_with(vec![base.clone()]);
    let patch = blank();
    assert!(s.patch_item("a".to_string(), patch).is_ok());
    assert_eq!(s.items, Some(vec![base]));
}

#[test]
fn patch_item_unknown_uid_leaves_store_unchanged() {
    let mut s = store_with(vec![named("a"), named("b")]);
    s.current = Some("a".to_string());
    let before = s.clone();
    let mut patch = blank();
    patch.name = Some("ignored".to_string());
    let r = s.patch_item("zz".to_string(), patch);
    assert!(matches!(r, Err(PrfError::ItemNotFound)));
    assert_eq!(s, before);
}

#[test]
fn update_item_overwrites_extra_and_updated() {
    let mut base = named("a");
    base.extra = Some(PrfExtra { upload: 1, download: 1, total: 1, expire: 1 });
    base.updated = Some(1);
    base.name = Some("kept".to_string());
    let mut s = store_with(vec![base]);
    let mut up = blank();
    up.updated = Some(9);
    let w = s.update_item("a".to_string(), up).unwrap();
    assert!(w.is_none());
    let items = s.items.as_ref().unwrap();
    assert_eq!(items[0].extra, None);
    assert_eq!(items[0].updated, Some(9));
    assert_eq!(items[0].name, Some("kept".to_string()));
}

#[test]
fn update_item_unknown_uid_fails() {
    let mut s = store_with(vec![]);
    let r = s.update_item("a".to_string(), blank());
    assert!(matches!(r, Err(PrfError::ItemNotFound)));
}

#[test]
fn update_item_keeps_stored_file_name() {
    let mut base = named("a");
    base.file = Some("stored.yaml".to_string());
    let mut s = store_with(vec![base]);
    let mut up = blank();
    up.file = Some("offered.yaml".to_string());
    up.file_data = Some("data".to_string());
    let w = s.update_item("a".to_string(), up).unwrap().unwrap();
    assert_eq!(w.file, "stored.yaml".to_string());
    assert_eq!(w.data, "data".to_string());
    assert_eq!(s.items.as_ref().unwrap()[0].file, Some("stored.yaml".to_string()));
}

#[test]
fn update_item_falls_back_to_offered_file_name() {
    let mut s = store_with(vec![named("a")]);
    let mut up = blank();
    up.file = Some("offered.yaml".to_string());
    up.file_data = Some("data".to_string());
    let w = s.update_item("a".to_string(), up).unwrap().unwrap();
    assert_eq!(w.file, "offered.yaml".to_string());
    assert_eq!(s.items.as_ref().unwrap()[0].file, Some("offered.yaml".to_string()));
}

#[test]
fn update_item_derives_default_file_name_from_uid() {
    let mut s = store_with(vec![named("u1")]);
    let mut up = blank();
    up.file_data = Some("data".to_string());
    let w = s.update_item("u1".to_string(), up).unwrap().unwrap();
    assert_eq!(w.file, "u1.yaml".to_string());
    assert_eq!(s.items.as_ref().unwrap()[0].file, Some("u1.yaml".to_string()));
}

#[test]
fn delete_active_item_promotes_first_remaining() {
    let mut s = store_with(vec![named("a"), named("b")]);
    s.current = Some("b".to_string());
    let r = s.delete_item("b".to_string()).unwrap();
    assert!(r);
    assert_eq!(s.current, Some("a".to_string()));
    assert_eq!(s.items.as_ref().unwrap().len(), 1);
}

#[test]
fn delete_last_item_leaves_nothing_active() {
    let mut s = store_with(vec![named("a")]);
    s.current = Some("a".to_string());
    let r = s.delete_item("a".to_string()).unwrap();
    assert!(r);
    assert_eq!(s.current, None);
    assert_eq!(s.items, Some(vec![]));
}

#[test]
fn delete_inactive_item_keeps_current() {
    let mut s = store_with(vec![named("a"), named("b")]);
    s.current = Some("a".to_string());
    let r = s.delete_item("b".to_string()).unwrap();
    assert!(!r);
    assert_eq!(s.current, Some("a".to_string()));
    assert_eq!(s.items.as_ref().unwrap().len(), 1);
    assert_eq!(s.items.as_ref().unwrap()[0].uid, Some("a".to_string()));
}

#[test]
fn delete_with_nothing_active_reports_true_and_promotes() {
    let mut s = store_with(vec![named("a"), named("b")]);
    let r = s.delete_item("zz".to_string()).unwrap();
    assert!(r);
    assert_eq!(s.current, Some("a".to_string()));
    assert_eq!(s.items.as_ref().unwrap().len(), 2);
}

#[test]
fn patch_item_touches_only_the_first_match() {
    let mut first = named("dup");
    first.name = Some("first".to_string());
    let mut second = named("dup");
    second.name = Some("second".to_string());
    let mut s = store_with(vec![first, second.clone()]);
    let mut patch = blank();
    patch.name = Some("patched".to_string());
    assert!(s.patch_item("dup".to_string(), patch).is_ok());
    let items = s.items.as_ref().unwrap();
    assert_eq!(items[0].name, Some("patched".to_string()));
    assert_eq!(items[1], second);
}

#[test]
fn delete_item_removes_only_the_first_match() {
    let mut first = named("dup");
    first.name = Some("first".to_string());
    let mut second = named("dup");
    second.name = Some("second".to_string());
    let mut s = store_with(vec![first, second.clone()]);
    s.current = Some("other".to_string());
    let r = s.delete_item("dup".to_string()).unwrap();
    assert!(!r);
    assert_eq!(s.items, Some(vec![second]));
}

#[test]
fn get_current_copies_the_active_identifier() {
    let mut s = store_with(vec![named("a")]);
    assert_eq!(s.get_current(), None);
    s.current = Some("a".to_string());
    assert_eq!(s.get_current(), Some("a".to_string()));
}
