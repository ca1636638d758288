use git2::checkout::{
    CheckoutBuilder, CHECKOUT_ALLOW_CONFLICTS, CHECKOUT_CONFLICT_STYLE_DIFF3, CHECKOUT_DONT_OVERWRITE_IGNORED,
    CHECKOUT_DONT_UPDATE_INDEX, CHECKOUT_FORCE, CHECKOUT_MODE_MASK, CHECKOUT_NONE, CHECKOUT_NO_REFRESH,
    CHECKOUT_RECREATE_MISSING, CHECKOUT_USE_OURS, CHECKOUT_USE_THEIRS,
};
use git2::clone::{clone_local, CloneLocal, RepoBuilder};
use git2::cstr::{c_bytes, c_string, CStringTable};
use git2::error::{check_call, Error};
use git2::ident::{Signature, Time};

fn strategy(b: &CheckoutBuilder) -> u32 {
    b.configure().unwrap().checkout_strategy
}

#[test]
fn c_string_appends_one_nul() {
    assert_eq!(c_string("abc").unwrap(), vec![b'a', b'b', b'c', 0]);
    assert_eq!(c_string("").unwrap(), vec![0]);
    assert_eq!(c_string("é").unwrap(), vec![0xc3, 0xa9, 0]);
}

#[test]
fn c_string_refuses_inner_nul() {
    assert_eq!(c_string("a\0b"), Err(Error::InvalidNul));
    assert_eq!(c_bytes(&[1, 0]), Err(Error::InvalidNul));
    assert_eq!(c_bytes(&[1, 2]).unwrap(), vec![1, 2, 0]);
}

#[test]
fn string_table_keeps_order() {
    let items = vec!["src/a.rs".to_string(), "".to_string(), "docs".to_string()];
    let t = CStringTable::from_strings(&items).unwrap();
    assert_eq!(t.len(), 3);
    assert_eq!(t.entry(0), &b"src/a.rs\0".to_vec());
    assert_eq!(t.entry(1), &vec![0u8]);
    assert_eq!(t.entry(2), &b"docs\0".to_vec());
    let bad = vec!["ok".to_string(), "b\0ad".to_string()];
    assert!(matches!(CStringTable::from_strings(&bad), Err(Error::InvalidNul)));
}

#[test]
fn checkout_defaults() {
    let b = CheckoutBuilder::new();
    let o = b.configure().unwrap();
    assert_eq!(o.version, 1);
    assert_eq!(o.checkout_strategy, CHECKOUT_RECREATE_MISSING);
    assert_eq!(o.checkout_strategy, 4);
    assert!(!o.disable_filters);
    assert_eq!(o.dir_mode, 0);
    assert_eq!(o.file_mode, 0);
    assert!(o.paths.is_none());
    assert!(o.target_directory.is_none());
    assert!(o.ancestor_label.is_none());
    assert!(o.our_label.is_none());
    assert!(o.their_label.is_none());
    assert!(!o.progress);
}

#[test]
fn last_exclusive_mode_wins() {
    let mut b = CheckoutBuilder::new();
    b.use_ours(true).dry_run().force().conflict_style_diff3(true);
    let s = strategy(&b);
    assert_eq!(s & CHECKOUT_MODE_MASK, CHECKOUT_FORCE);
    assert_eq!(s, CHECKOUT_FORCE | CHECKOUT_USE_OURS | CHECKOUT_CONFLICT_STYLE_DIFF3);
    b.dry_run();
    assert_eq!(strategy(&b), CHECKOUT_NONE | CHECKOUT_USE_OURS | CHECKOUT_CONFLICT_STYLE_DIFF3);
    b.safe();
    assert_eq!(strategy(&b), (1 << 2) | (1 << 11) | (1 << 21));
}

#[test]
fn flags_set_and_clear() {
    let mut b = CheckoutBuilder::new();
    b.allow_conflicts(true).use_theirs(true);
    assert_eq!(strategy(&b), CHECKOUT_RECREATE_MISSING | CHECKOUT_ALLOW_CONFLICTS | CHECKOUT_USE_THEIRS);
    b.allow_conflicts(false);
    assert_eq!(strategy(&b), CHECKOUT_RECREATE_MISSING | CHECKOUT_USE_THEIRS);
}

#[test]
fn negated_flags() {
    let mut b = CheckoutBuilder::new();
    b.update_index(false).refresh(false).overwrite_ignored(false);
    assert_eq!(
        strategy(&b),
        CHECKOUT_RECREATE_MISSING | CHECKOUT_DONT_UPDATE_INDEX | CHECKOUT_NO_REFRESH | CHECKOUT_DONT_OVERWRITE_IGNORED
    );
    b.update_index(true).refresh(true).overwrite_ignored(true);
    assert_eq!(strategy(&b), CHECKOUT_RECREATE_MISSING);
}

#[test]
fn every_flag_has_its_bit() {
    let mut b = CheckoutBuilder::new();
    b.remove_untracked(true);
    assert_eq!(strategy(&b), 4 | (1 << 5));
    let mut b = CheckoutBuilder::new();
    b.remove_ignored(true);
    assert_eq!(strategy(&b), 4 | (1 << 6));
    let mut b = CheckoutBuilder::new();
    b.update_only(true);
    assert_eq!(strategy(&b), 4 | (1 << 7));
    let mut b = CheckoutBuilder::new();
    b.skip_unmerged(true);
    assert_eq!(strategy(&b), 4 | (1 << 10));
    let mut b = CheckoutBuilder::new();
    b.conflict_style_merge(true);
    assert_eq!(strategy(&b), 4 | (1 << 20));
}

#[test]
fn configured_paths_read_back() {
    let mut b = CheckoutBuilder::new();
    b.path("a.txt").path("dir/b.txt").path("ünï");
    let o = b.configure().unwrap();
    let t = o.paths.unwrap();
    assert_eq!(t.len(), 3);
    assert_eq!(t.entry(0), &b"a.txt\0".to_vec());
    assert_eq!(t.entry(1), &b"dir/b.txt\0".to_vec());
    let mut third = "ünï".as_bytes().to_vec();
    third.push(0);
    assert_eq!(t.entry(2), &third);
}

#[test]
fn path_with_nul_fails_configure() {
    let mut b = CheckoutBuilder::new();
    b.path("fine").path("bro\0ken");
    assert_eq!(b.configure().err(), Some(Error::InvalidNul));
    let mut b = CheckoutBuilder::new();
    b.their_label("x\0");
    assert_eq!(b.configure().err(), Some(Error::InvalidNul));
}

#[test]
fn checkout_fields_materialize() {
    let mut b = CheckoutBuilder::new();
    b.dir_perm(0o755)
        .file_perm(0o644)
        .disable_filters(true)
        .target_dir("/tmp/out")
        .ancestor_label("base")
        .our_label("mine")
        .their_label("yours")
        .progress(true);
    let o = b.configure().unwrap();
    assert_eq!(o.dir_mode, 493);
    assert_eq!(o.file_mode, 420);
    assert!(o.disable_filters);
    assert_eq!(o.target_directory, Some(b"/tmp/out\0".to_vec()));
    assert_eq!(o.ancestor_label, Some(b"base\0".to_vec()));
    assert_eq!(o.our_label, Some(b"mine\0".to_vec()));
    assert_eq!(o.their_label, Some(b"yours\0".to_vec()));
    assert!(o.progress);
}

#[test]
fn progress_event_only_when_registered() {
    let b = CheckoutBuilder::new();
    assert!(b.progress_event(Some(b"f"), 1, 2).is_none());
    let mut b = CheckoutBuilder::new();
    b.progress(true);
    let ev = b.progress_event(Some(b"file.txt"), 3, 7).unwrap();
    assert_eq!(ev.path, Some(b"file.txt".to_vec()));
    assert_eq!(ev.completed, 3);
    assert_eq!(ev.total, 7);
    let ev = b.progress_event(None, 0, 0).unwrap();
    assert_eq!(ev.path, None);
}

#[test]
fn transport_mapping() {
    assert_eq!(clone_local(true, false), CloneLocal::LocalNoLinks);
    assert_eq!(clone_local(false, true), CloneLocal::NoLocal);
    assert_eq!(clone_local(false, false), CloneLocal::NoLocal);
    assert_eq!(clone_local(true, true), CloneLocal::LocalAuto);
}

#[test]
fn clone_request_defaults() {
    let b = RepoBuilder::new();
    let q = b.clone_request("/path/to/nowhere", "foo").unwrap();
    assert_eq!(q.url, b"/path/to/nowhere\0".to_vec());
    assert_eq!(q.into, b"foo\0".to_vec());
    assert_eq!(q.options.version, 1);
    assert!(!q.options.bare);
    assert!(q.options.checkout_branch.is_none());
    assert!(q.options.signature.is_none());
    assert_eq!(q.options.local, CloneLocal::LocalAuto);
    assert_eq!(q.options.checkout_strategy, CHECKOUT_RECREATE_MISSING);
    assert!(q.options.checkout.is_none());
    assert!(!q.options.remote_callbacks);
}

#[test]
fn clone_request_settings() {
    let mut co = CheckoutBuilder::new();
    co.force().path("only/this");
    let mut b = RepoBuilder::new();
    b.bare(true)
        .branch("foo")
        .local(false)
        .hardlinks(false)
        .signature(Signature::new("name", "email", Time::new(10, -60)))
        .with_checkout(co)
        .remote_callbacks(true);
    let q = b.clone_request("file:///tmp/bare", "dst").unwrap();
    assert!(q.options.bare);
    assert_eq!(q.options.checkout_branch, Some(b"foo\0".to_vec()));
    assert_eq!(q.options.local, CloneLocal::NoLocal);
    assert_eq!(q.options.checkout_strategy, CHECKOUT_FORCE);
    let c = q.options.checkout.as_ref().unwrap();
    assert_eq!(c.paths.as_ref().unwrap().entry(0), &b"only/this\0".to_vec());
    let s = q.options.signature.unwrap();
    assert_eq!(s.name(), "name");
    assert_eq!(s.email(), "email");
    assert_eq!(s.when(), Time::new(10, -60));
    assert!(q.options.remote_callbacks);
}

#[test]
fn clone_request_local_without_links() {
    let mut b = RepoBuilder::new();
    b.hardlinks(false);
    let q = b.clone_request("u", "d").unwrap();
    assert_eq!(q.options.local, CloneLocal::LocalNoLinks);
}

#[test]
fn clone_request_refuses_nul() {
    let b = RepoBuilder::new();
    assert!(matches!(b.clone_request("u\0rl", "d"), Err(Error::InvalidNul)));
    assert!(matches!(b.clone_request("url", "d\0"), Err(Error::InvalidNul)));
    let mut b = RepoBuilder::new();
    b.branch("ma\0in");
    assert!(matches!(b.clone_request("url", "d"), Err(Error::InvalidNul)));
    let mut co = CheckoutBuilder::new();
    co.our_label("\0");
    let mut b = RepoBuilder::new();
    b.with_checkout(co);
    assert!(matches!(b.clone_request("url", "d"), Err(Error::InvalidNul)));
}

#[test]
fn engine_codes() {
    assert_eq!(check_call(0, 0, String::new()), Ok(()));
    assert_eq!(check_call(3, 0, String::new()), Ok(()));
    let e = check_call(-3, 4, "not found".to_string()).unwrap_err();
    assert!(e.is_engine());
    assert_eq!(e, Error::Engine { code: -3, class: 4, message: "not found".to_string() });
    assert!(!Error::InvalidNul.is_engine());
}
