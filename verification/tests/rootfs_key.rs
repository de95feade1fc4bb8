use sha2::Digest;
use bux::error::UnexpectedEvent;
use bux::rootfs_key::{rootfs_cache_key, EntryKind, RootfsWalk, WalkAction, WalkEvent};

fn sha256_hex(bytes: &[u8]) -> String {
    let digest = sha2::Sha256::digest(bytes);
    digest.iter().map(|b| format!("{b:02x}")).collect()
}

fn feed(walk: &mut RootfsWalk, e: WalkEvent) {
    walk.step(e).unwrap();
}

#[test]
fn key_of_an_empty_file() {
    let mut w = RootfsWalk::new();
    assert!(matches!(w.action(), WalkAction::Stat(p) if p.is_empty()));
    feed(&mut w, WalkEvent::Meta { mode: 0o100644, kind: EntryKind::File });
    assert!(matches!(w.action(), WalkAction::Read(_)));
    feed(&mut w, WalkEvent::Chunk(vec![]));
    assert!(matches!(w.action(), WalkAction::Done));
    let mut expected = vec![];
    expected.extend_from_slice(&0o100644u32.to_le_bytes());
    expected.push(b'f');
    assert_eq!(rootfs_cache_key(w).unwrap(), sha256_hex(&expected));
}

#[test]
fn key_of_a_tree() {
    let mut w = RootfsWalk::new();
    feed(&mut w, WalkEvent::Meta { mode: 0o40755, kind: EntryKind::Dir });
    assert!(matches!(w.action(), WalkAction::List(p) if p.is_empty()));
    feed(
        &mut w,
        WalkEvent::Names(vec![b"z".to_vec(), b"a".to_vec(), b"m".to_vec()]),
    );
    assert!(matches!(w.action(), WalkAction::Stat(p) if p == b"a"));
    feed(&mut w, WalkEvent::Meta { mode: 0o40700, kind: EntryKind::Dir });
    feed(&mut w, WalkEvent::Names(vec![b"x".to_vec()]));
    assert!(matches!(w.action(), WalkAction::Stat(p) if p == b"a/x"));
    feed(&mut w, WalkEvent::Meta { mode: 0o120777, kind: EntryKind::Symlink });
    assert!(matches!(w.action(), WalkAction::ReadLink(p) if p == b"a/x"));
    feed(&mut w, WalkEvent::Target(b"../z".to_vec()));
    assert!(matches!(w.action(), WalkAction::Stat(p) if p == b"m"));
    feed(&mut w, WalkEvent::Meta { mode: 0o20666, kind: EntryKind::Other });
    assert!(matches!(w.action(), WalkAction::Stat(p) if p == b"z"));
    feed(&mut w, WalkEvent::Meta { mode: 0o100600, kind: EntryKind::File });
    feed(&mut w, WalkEvent::Chunk(b"he".to_vec()));
    feed(&mut w, WalkEvent::Chunk(b"llo".to_vec()));
    feed(&mut w, WalkEvent::Chunk(vec![]));
    let mut e: Vec<u8> = vec![];
    e.extend_from_slice(&0o40755u32.to_le_bytes());
    e.push(b'd');
    e.extend_from_slice(b"a");
    e.extend_from_slice(&0o40700u32.to_le_bytes());
    e.push(b'd');
    e.extend_from_slice(b"a/x");
    e.extend_from_slice(&0o120777u32.to_le_bytes());
    e.push(b'l');
    e.extend_from_slice(b"../z");
    e.extend_from_slice(b"m");
    e.extend_from_slice(&0o20666u32.to_le_bytes());
    e.push(b'o');
    e.extend_from_slice(b"z");
    e.extend_from_slice(&0o100600u32.to_le_bytes());
    e.push(b'f');
    e.extend_from_slice(b"hello");
    assert_eq!(rootfs_cache_key(w).unwrap(), sha256_hex(&e));
}

fn key_with(names: Vec<Vec<u8>>, chunks: Vec<Vec<u8>>) -> String {
    let mut w = RootfsWalk::new();
    feed(&mut w, WalkEvent::Meta { mode: 1, kind: EntryKind::Dir });
    feed(&mut w, WalkEvent::Names(names));
    feed(&mut w, WalkEvent::Meta { mode: 2, kind: EntryKind::File });
    for c in chunks {
        feed(&mut w, WalkEvent::Chunk(c));
    }
    feed(&mut w, WalkEvent::Chunk(vec![]));
    feed(&mut w, WalkEvent::Meta { mode: 3, kind: EntryKind::Other });
    rootfs_cache_key(w).unwrap()
}

#[test]
fn order_and_piece_size_make_no_difference() {
    let a = key_with(
        vec![b"1".to_vec(), b"2".to_vec()],
        vec![b"abc".to_vec()],
    );
    let b = key_with(
        vec![b"2".to_vec(), b"1".to_vec()],
        vec![b"a".to_vec(), b"bc".to_vec()],
    );
    assert_eq!(a, b);
    assert_eq!(a.len(), 64);
    let c = key_with(
        vec![b"2".to_vec(), b"1".to_vec()],
        vec![b"a".to_vec(), b"bd".to_vec()],
    );
    assert_ne!(a, c);
}

#[test]
fn walk_refuses_what_it_did_not_ask_for() {
    let mut w = RootfsWalk::new();
    assert!(matches!(
        w.step(WalkEvent::Chunk(vec![1])),
        Err(UnexpectedEvent)
    ));
    assert!(matches!(w.action(), WalkAction::Stat(_)));
    assert!(rootfs_cache_key(w).is_none());
}
