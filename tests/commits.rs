use git2::commit::{Commit, CommitData};
use git2::error::Error;
use git2::ident::{Oid, Signature, Time};

fn oid(n: u8) -> Oid {
    Oid::from_bytes([n; 20])
}

fn commit(message: &str, parents: Vec<Oid>) -> Commit {
    Commit::from_raw(CommitData {
        id: oid(1),
        tree_id: oid(2),
        message: message.as_bytes().to_vec(),
        message_raw: message.as_bytes().to_vec(),
        raw_header: b"tree 0202\n".to_vec(),
        message_encoding: None,
        summary: Some(message.as_bytes().to_vec()),
        time: Time::new(1_400_000_000, 120),
        author: Signature::new("name", "email", Time::new(1_400_000_000, 120)),
        committer: Signature::new("name", "email", Time::new(1_400_000_001, 0)),
        parent_ids: parents,
    })
}

#[test]
fn commit_smoke() {
    let c = commit("initial", vec![]);
    assert_eq!(c.message(), Some("initial"));
    assert_eq!(c.id(), oid(1));
    c.message_raw().unwrap();
    c.raw_header().unwrap();
    c.message_encoding();
    c.summary().unwrap();
    c.tree_id();
    assert_eq!(c.parents().len(), 0);

    assert_eq!(c.author().name(), "name");
    assert_eq!(c.author().email(), "email");
    assert_eq!(c.committer().name(), "name");
    assert_eq!(c.committer().email(), "email");

    let head = commit("bar", vec![oid(1)]);
    let q = head.amend(Some("HEAD"), None, None, None, Some("new message"), None).unwrap();
    assert_eq!(q.message, b"new message\0".to_vec());
    assert_eq!(q.update_ref, Some(b"HEAD\0".to_vec()));
}

#[test]
fn accessors_read_fields() {
    let c = commit("subject\n\nbody", vec![]);
    assert_eq!(c.message_bytes(), b"subject\n\nbody");
    assert_eq!(c.message_raw_bytes(), b"subject\n\nbody");
    assert_eq!(c.raw_header_bytes(), b"tree 0202\n");
    assert_eq!(c.summary_bytes(), Some(&b"subject\n\nbody"[..]));
    assert_eq!(c.tree_id(), oid(2));
    assert_eq!(c.tree_id().as_bytes(), &[2u8; 20]);
    assert_eq!(c.time(), Time::new(1_400_000_000, 120));
    assert_eq!(c.time().offset_minutes, 120);
    assert_eq!(c.committer().when().seconds, 1_400_000_001);
    assert_eq!(c.message_encoding(), None);
}

#[test]
fn invalid_utf8_message_is_none() {
    let c = Commit::from_raw(CommitData {
        id: oid(1),
        tree_id: oid(2),
        message: vec![0xff, 0xfe],
        message_raw: vec![b'o', b'k'],
        raw_header: vec![0xc3],
        message_encoding: Some("ISO-8859-1".to_string()),
        summary: None,
        time: Time::new(0, 0),
        author: Signature::new("a", "b", Time::new(0, 0)),
        committer: Signature::new("a", "b", Time::new(0, 0)),
        parent_ids: vec![],
    });
    assert_eq!(c.message(), None);
    assert_eq!(c.message_raw(), Some("ok"));
    assert_eq!(c.raw_header(), None);
    assert_eq!(c.summary(), None);
    assert_eq!(c.summary_bytes(), None);
    assert_eq!(c.message_encoding(), Some("ISO-8859-1"));
}

#[test]
fn parents_forward_backward_and_out_of_range() {
    let c = commit("merge", vec![oid(7), oid(8), oid(9)]);
    assert_eq!(c.parent_count(), 3);
    let mut it = c.parent_ids();
    assert_eq!(it.size_hint(), (3, Some(3)));
    assert_eq!(it.next(), Some(oid(7)));
    assert_eq!(it.size_hint(), (2, Some(2)));
    assert_eq!(it.next_back(), Some(oid(9)));
    assert_eq!(it.len(), 1);
    assert_eq!(it.next(), Some(oid(8)));
    assert_eq!(it.next(), None);
    assert_eq!(it.next_back(), None);
    assert_eq!(it.len(), 0);

    let forward = c.parent_ids().collect_forward();
    let by_index: Vec<Oid> = (0..3).map(|i| c.parent_id(i).unwrap()).collect();
    assert_eq!(forward, by_index);
    let mut backward = c.parent_ids().collect_backward();
    backward.reverse();
    assert_eq!(backward, by_index);

    assert_eq!(c.parent_id(3), Err(Error::ParentOutOfBounds { index: 3, count: 3 }));
    assert!(matches!(c.parent(3), Err(Error::ParentOutOfBounds { index: 3, count: 3 })));
    let p = c.parent(1).unwrap();
    assert_eq!(p.index, 1);
    assert_eq!(p.id, oid(8));

    let mut ps = c.parents();
    let first = ps.next().unwrap();
    assert_eq!((first.index, first.id), (0, oid(7)));
    let last = ps.next_back().unwrap();
    assert_eq!((last.index, last.id), (2, oid(9)));
    assert_eq!(ps.size_hint(), (1, Some(1)));
}

#[test]
fn amend_message_only_keeps_the_rest() {
    let c = commit("old", vec![oid(3)]);
    let q = c.amend(None, None, None, None, Some("new message"), None).unwrap();
    assert_eq!(q.tree_id, c.tree_id());
    assert_eq!(q.author.name(), c.author().name());
    assert_eq!(q.author.when(), c.author().when());
    assert_eq!(q.committer.email(), c.committer().email());
    assert_eq!(q.committer.when(), c.committer().when());
    assert_eq!(q.message, b"new message\0".to_vec());
    assert_eq!(q.message_encoding, None);
    assert_eq!(q.update_ref, None);
}

#[test]
fn amend_overrides() {
    let c = commit("old", vec![]);
    let other = Signature::new("other", "o@x", Time::new(5, 0));
    let t = oid(9);
    let q = c.amend(None, Some(&other), None, Some("UTF-8"), None, Some(&t)).unwrap();
    assert_eq!(q.tree_id, oid(9));
    assert_eq!(q.author.name(), "other");
    assert_eq!(q.committer.name(), "name");
    assert_eq!(q.message, b"old\0".to_vec());
    assert_eq!(q.message_encoding, Some(b"UTF-8\0".to_vec()));
    assert!(matches!(c.amend(Some("HE\0AD"), None, None, None, None, None), Err(Error::InvalidNul)));
    assert!(matches!(c.amend(None, None, None, None, Some("a\0"), None), Err(Error::InvalidNul)));
}
