//! Content key of a root filesystem directory.
//!
//! [`RootfsWalk`] decides what to look at next and feeds what was seen to a
//! SHA-256 hasher; the caller only performs the file operations it asks for.
//! The key depends on the tree alone: neither the order in which a directory
//! is listed nor the sizes in which a file is read make a difference.

use vstd::prelude::*;
use sha2::Digest;
use crate::error::UnexpectedEvent;
use crate::text;

verus! {

// ---------------------------------------------------------------------------
// The hasher
// ---------------------------------------------------------------------------

/// The SHA-256 hasher of the `sha2` crate.
#[verifier::external_type_specification]
#[verifier::external_body]
pub struct ExSha256(sha2::Sha256);

/// The bytes that a hasher has been fed since it was made.
pub uninterp spec fn absorbed(h: sha2::Sha256) -> Seq<u8>;

/// The SHA-256 digest of a message.
pub uninterp spec fn sha256(message: Seq<u8>) -> Seq<u8>;

/// `sha2::Sha256::new` makes a hasher that has been fed nothing.
#[verifier::external_body]
fn hasher_new() -> (h: sha2::Sha256)
    ensures
        absorbed(h) == Seq::<u8>::empty(),
{
    sha2::Sha256::new()
}

/// `Digest::update` feeds the hasher `data` after what it was fed before.
#[verifier::external_body]
fn hasher_update(h: &mut sha2::Sha256, data: &Vec<u8>)
    ensures
        absorbed(*final(h)) == absorbed(*old(h)) + data@,
{
    h.update(data.as_slice());
}

/// `Digest::finalize` gives the SHA-256 digest, 32 bytes long, of everything
/// that the hasher was fed.
#[verifier::external_body]
fn hasher_finalize(h: sha2::Sha256) -> (r: Vec<u8>)
    ensures
        r@ == sha256(absorbed(h)),
        r@.len() == 32,
{
    h.finalize().to_vec()
}

// ---------------------------------------------------------------------------
// Trees and the bytes that stand for them
// ---------------------------------------------------------------------------

/// A file tree. Names, contents and link targets are bytes.
pub enum Node {
    /// A regular file.
    File { mode: u32, content: Seq<u8> },
    /// A directory with its entries.
    Dir { mode: u32, entries: Seq<(Seq<u8>, Node)> },
    /// A symbolic link.
    Symlink { mode: u32, target: Seq<u8> },
    /// Anything else: a device, a socket, a pipe.
    Other { mode: u32 },
}

/// Byte-wise lexicographic order.
pub open spec fn bytes_le(a: Seq<u8>, b: Seq<u8>) -> bool
    decreases a.len(),
{
    if a.len() == 0 {
        true
    } else if b.len() == 0 {
        false
    } else if a[0] != b[0] {
        a[0] < b[0]
    } else {
        bytes_le(a.drop_first(), b.drop_first())
    }
}

/// Names in ascending order.
pub open spec fn ascending(names: Seq<Seq<u8>>) -> bool {
    forall|i: int, j: int| 0 <= i <= j < names.len() ==> bytes_le(names[i], names[j])
}

/// The four bytes of a number, least significant first.
pub open spec fn le_bytes(n: u32) -> Seq<u8> {
    seq![
        (n % 0x100) as u8,
        ((n / 0x100) % 0x100) as u8,
        ((n / 0x1_0000) % 0x100) as u8,
        (n / 0x100_0000) as u8,
    ]
}

/// Path of an entry below the root, from that of its directory.
pub open spec fn child_path(dir: Seq<u8>, name: Seq<u8>) -> Seq<u8> {
    if dir.len() == 0 {
        name
    } else {
        dir.push(0x2f) + name
    }
}

/// Path and mode, which come first for every entry.
pub open spec fn header(rel: Seq<u8>, mode: u32) -> Seq<u8> {
    rel + le_bytes(mode)
}

/// The bytes that stand for the tree `node` found at `rel`. Each entry is its
/// path, its mode and a letter for its kind, followed by the contents of a
/// file, the target of a link, or the entries of a directory.
pub open spec fn stream(rel: Seq<u8>, node: Node) -> Seq<u8>
    decreases node,
{
    match node {
        Node::File { mode, content } => header(rel, mode) + seq![0x66u8] + content,
        Node::Dir { mode, entries } => header(rel, mode) + seq![0x64u8] + entries_stream(
            rel,
            entries,
        ),
        Node::Symlink { mode, target } => header(rel, mode) + seq![0x6cu8] + target,
        Node::Other { mode } => header(rel, mode) + seq![0x6fu8],
    }
}

/// The bytes that stand for the entries of a directory, one after the other.
pub open spec fn entries_stream(rel: Seq<u8>, entries: Seq<(Seq<u8>, Node)>) -> Seq<u8>
    decreases entries,
{
    if entries.len() == 0 {
        seq![]
    } else {
        stream(child_path(rel, entries[0].0), entries[0].1) + entries_stream(
            rel,
            entries.drop_first(),
        )
    }
}

// ---------------------------------------------------------------------------
// Ordering of names
// ---------------------------------------------------------------------------

proof fn lemma_bytes_le_reflexive(a: Seq<u8>)
    ensures
        bytes_le(a, a),
    decreases a.len(),
{
    if a.len() > 0 {
        lemma_bytes_le_reflexive(a.drop_first());
    }
}

proof fn lemma_bytes_le_antisymmetric(a: Seq<u8>, b: Seq<u8>)
    requires
        bytes_le(a, b),
        bytes_le(b, a),
    ensures
        a == b,
    decreases a.len(),
{
    if a.len() > 0 && b.len() > 0 {
        lemma_bytes_le_antisymmetric(a.drop_first(), b.drop_first());
        assert(a =~= seq![a[0]] + a.drop_first());
        assert(b =~= seq![b[0]] + b.drop_first());
    }
    assert(a =~= b);
}

proof fn lemma_bytes_le_transitive(a: Seq<u8>, b: Seq<u8>, c: Seq<u8>)
    requires
        bytes_le(a, b),
        bytes_le(b, c),
    ensures
        bytes_le(a, c),
    decreases a.len(),
{
    if a.len() > 0 && b.len() > 0 && c.len() > 0 && a[0] == b[0] && b[0] == c[0] {
        lemma_bytes_le_transitive(a.drop_first(), b.drop_first(), c.drop_first());
    }
}

proof fn lemma_bytes_le_total(a: Seq<u8>, b: Seq<u8>)
    ensures
        bytes_le(a, b) || bytes_le(b, a),
    decreases a.len(),
{
    if a.len() > 0 && b.len() > 0 {
        lemma_bytes_le_total(a.drop_first(), b.drop_first());
    }
}

/// The byte-wise order as a relation.
spec fn name_order() -> spec_fn(Seq<u8>, Seq<u8>) -> bool {
    |a: Seq<u8>, b: Seq<u8>| bytes_le(a, b)
}

proof fn lemma_name_order_total()
    ensures
        vstd::relations::total_ordering(name_order()),
{
    let r = name_order();
    assert forall|x: Seq<u8>| #[trigger] r(x, x) by {
        lemma_bytes_le_reflexive(x);
    }
    assert forall|x: Seq<u8>, y: Seq<u8>| #[trigger] r(x, y) && #[trigger] r(y, x) implies x
        == y by {
        lemma_bytes_le_antisymmetric(x, y);
    }
    assert forall|x: Seq<u8>, y: Seq<u8>, z: Seq<u8>| #[trigger]
        r(x, y) && #[trigger] r(y, z) implies r(x, z) by {
        lemma_bytes_le_transitive(x, y, z);
    }
    assert forall|x: Seq<u8>, y: Seq<u8>| #[trigger] r(x, y) || #[trigger] r(y, x) by {
        lemma_bytes_le_total(x, y);
    }
}

/// Whether `s` holds the names `names`, as often as they do, in ascending
/// order.
pub open spec fn is_sorting_of(s: Seq<Seq<u8>>, names: Seq<Seq<u8>>) -> bool {
    ascending(s) && s.to_multiset() == names.to_multiset()
}

/// The names in ascending order.
pub open spec fn sorted(names: Seq<Seq<u8>>) -> Seq<Seq<u8>> {
    choose|s: Seq<Seq<u8>>| is_sorting_of(s, names)
}

/// There is only one way to put names in ascending order.
pub proof fn lemma_sorted_is(s: Seq<Seq<u8>>, names: Seq<Seq<u8>>)
    requires
        is_sorting_of(s, names),
    ensures
        sorted(names) == s,
{
    let t = sorted(names);
    assert(is_sorting_of(t, names));
    lemma_name_order_total();
    assert(vstd::relations::sorted_by(s, name_order()));
    assert(vstd::relations::sorted_by(t, name_order()));
    vstd::seq_lib::lemma_sorted_unique(s, t, name_order());
}

/// The bytes of each of a list of names.
pub open spec fn name_views(v: Seq<Vec<u8>>) -> Seq<Seq<u8>> {
    Seq::new(v.len(), |i: int| v[i]@)
}

/// Compares two names byte by byte.
fn name_le(a: &Vec<u8>, b: &Vec<u8>) -> (r: bool)
    ensures
        r == bytes_le(a@, b@),
{
    let mut i: usize = 0;
    assert(a@.skip(0) =~= a@);
    assert(b@.skip(0) =~= b@);
    while i < a.len()
        invariant
            i <= a.len(),
            i <= b.len(),
            bytes_le(a@, b@) == bytes_le(a@.skip(i as int), b@.skip(i as int)),
        decreases a.len() - i,
    {
        if i == b.len() {
            return false;
        }
        if a[i] != b[i] {
            return a[i] < b[i];
        }
        assert(a@.skip(i as int).drop_first() =~= a@.skip(i + 1));
        assert(b@.skip(i as int).drop_first() =~= b@.skip(i + 1));
        i = i + 1;
    }
    true
}

/// Puts names in ascending order.
fn sort_names(names: Vec<Vec<u8>>) -> (r: Vec<Vec<u8>>)
    ensures
        name_views(r@) == sorted(name_views(names@)),
{
    let mut out: Vec<Vec<u8>> = Vec::new();
    let mut i: usize = 0;
    let ghost all = name_views(names@);
    assert(name_views(out@) =~= all.take(0));
    while i < names.len()
        invariant
            i <= names.len(),
            all == name_views(names@),
            ascending(name_views(out@)),
            name_views(out@).to_multiset() == all.take(i as int).to_multiset(),
        decreases names.len() - i,
    {
        let name = names[i].clone();
        assert(name@ =~= names@[i as int]@);
        let mut k: usize = out.len();
        let ghost before = name_views(out@);
        while k > 0 && !name_le(&out[k - 1], &name)
            invariant
                k <= out.len(),
                before == name_views(out@),
                forall|j: int| k <= j < before.len() ==> !bytes_le(#[trigger] before[j], name@),
            decreases k,
        {
            k = k - 1;
            assert(before[k as int] == out@[k as int]@);
        }
        let ghost n = name@;
        out.insert(k, name);
        proof {
            let after = name_views(out@);
            assert(after =~= before.insert(k as int, n));
            assert forall|a: int, b: int| 0 <= a <= b < after.len() implies bytes_le(
                after[a],
                after[b],
            ) by {
                if a == b {
                    lemma_bytes_le_reflexive(after[a]);
                } else if b < k {
                    assert(bytes_le(before[a], before[b]));
                } else if a > k {
                    assert(bytes_le(before[a - 1], before[b - 1]));
                } else if a < k && b > k {
                    assert(bytes_le(before[a], before[b - 1]));
                } else if a < k {
                    assert(bytes_le(before[k - 1], n));
                    assert(bytes_le(before[a], before[k - 1]));
                    lemma_bytes_le_transitive(before[a], before[k - 1], n);
                } else {
                    assert(!bytes_le(before[b - 1], n));
                    lemma_bytes_le_total(before[b - 1], n);
                }
            }
            assert(all.take(i + 1) =~= all.take(i as int).push(n));
            vstd::seq_lib::to_multiset_insert(before, k as int, n);
            vstd::seq_lib::to_multiset_build(all.take(i as int), n);
        }
        i = i + 1;
    }
    assert(all.take(names.len() as int) =~= all);
    proof {
        lemma_sorted_is(name_views(out@), all);
    }
    out
}

// ---------------------------------------------------------------------------
// The walk, as a transition system
// ---------------------------------------------------------------------------

/// What kind of thing a directory entry is. Links are not followed.
#[derive(Debug, Clone, Copy, PartialEq, Eq, Structural)]
pub enum EntryKind {
    /// A regular file.
    File,
    /// A directory.
    Dir,
    /// A symbolic link.
    Symlink,
    /// Anything else.
    Other,
}

/// The letter that stands for a kind.
pub open spec fn kind_letter(kind: EntryKind) -> u8 {
    match kind {
        EntryKind::File => 0x66,
        EntryKind::Dir => 0x64,
        EntryKind::Symlink => 0x6c,
        EntryKind::Other => 0x6f,
    }
}

/// What a walk waits for.
pub enum At {
    /// Mode and kind of the entry at a path.
    Entry(Seq<u8>),
    /// The next piece of the file at a path.
    File(Seq<u8>),
    /// The names in the directory at a path.
    Dir(Seq<u8>),
    /// The target of the link at a path.
    Link(Seq<u8>),
    /// Nothing: the tree has been seen whole.
    Done,
}

/// A reply to what a walk asked for.
pub enum Reply {
    /// Mode and kind of an entry.
    Meta(u32, EntryKind),
    /// A piece of a file; an empty one is the end of it.
    Chunk(Seq<u8>),
    /// The names in a directory, in any order.
    Names(Seq<Seq<u8>>),
    /// The target of a link.
    Target(Seq<u8>),
}

/// State of a walk: the bytes fed so far, the entries still to be visited
/// after the present one, and what is waited for.
pub struct Walk {
    pub fed: Seq<u8>,
    pub todo: Seq<Seq<u8>>,
    pub at: At,
}

/// Goes on to the next entry.
pub open spec fn advance(fed: Seq<u8>, todo: Seq<Seq<u8>>) -> Walk {
    if todo.len() == 0 {
        Walk { fed, todo, at: At::Done }
    } else {
        Walk { fed, todo: todo.drop_first(), at: At::Entry(todo[0]) }
    }
}

/// Paths of the entries `names` of the directory `dir`.
pub open spec fn child_paths(dir: Seq<u8>, names: Seq<Seq<u8>>) -> Seq<Seq<u8>> {
    Seq::new(names.len(), |i: int| child_path(dir, names[i]))
}

/// The state after a reply, or nothing when the reply is not to what was asked.
pub open spec fn next(w: Walk, reply: Reply) -> Option<Walk> {
    match (w.at, reply) {
        (At::Entry(rel), Reply::Meta(mode, kind)) => {
            let fed = w.fed + header(rel, mode) + seq![kind_letter(kind)];
            match kind {
                EntryKind::File => Some(Walk { fed, todo: w.todo, at: At::File(rel) }),
                EntryKind::Dir => Some(Walk { fed, todo: w.todo, at: At::Dir(rel) }),
                EntryKind::Symlink => Some(Walk { fed, todo: w.todo, at: At::Link(rel) }),
                EntryKind::Other => Some(advance(fed, w.todo)),
            }
        },
        (At::File(rel), Reply::Chunk(c)) => {
            if c.len() == 0 {
                Some(advance(w.fed, w.todo))
            } else {
                Some(Walk { fed: w.fed + c, todo: w.todo, at: w.at })
            }
        },
        (At::Dir(rel), Reply::Names(names)) => {
            Some(advance(w.fed, child_paths(rel, sorted(names)) + w.todo))
        },
        (At::Link(rel), Reply::Target(t)) => Some(advance(w.fed + t, w.todo)),
        _ => None,
    }
}

/// The state of a walk that has just begun: the root itself is asked for.
pub open spec fn begun() -> Walk {
    Walk { fed: seq![], todo: seq![], at: At::Entry(seq![]) }
}

/// The state after a run of replies.
pub open spec fn run(w: Walk, replies: Seq<Reply>) -> Option<Walk>
    decreases replies.len(),
{
    if replies.len() == 0 {
        Some(w)
    } else {
        match next(w, replies[0]) {
            Some(v) => run(v, replies.drop_first()),
            None => None,
        }
    }
}

// ---------------------------------------------------------------------------
// Runs that describe a tree
// ---------------------------------------------------------------------------

/// Names of the entries of a directory.
pub open spec fn entry_names(entries: Seq<(Seq<u8>, Node)>) -> Seq<Seq<u8>> {
    Seq::new(entries.len(), |i: int| entries[i].0)
}

/// Whether `replies` deliver `content` in pieces, the last of them empty.
pub open spec fn delivers(replies: Seq<Reply>, content: Seq<u8>) -> bool
    decreases replies.len(),
{
    &&& replies.len() > 0
    &&& match replies[0] {
        Reply::Chunk(c) => if c.len() == 0 {
            replies.len() == 1 && content.len() == 0
        } else {
            &&& c.len() <= content.len()
            &&& content.take(c.len() as int) == c
            &&& delivers(replies.drop_first(), content.skip(c.len() as int))
        },
        _ => false,
    }
}

/// Whether `replies` describe the tree `node`. A directory may be listed in
/// any order; its entries are then described in ascending order of name.
pub open spec fn describes(replies: Seq<Reply>, node: Node) -> bool
    decreases node,
{
    &&& replies.len() > 0
    &&& match node {
        Node::File { mode, content } => {
            &&& replies[0] == Reply::Meta(mode, EntryKind::File)
            &&& delivers(replies.drop_first(), content)
        },
        Node::Dir { mode, entries } => {
            &&& replies[0] == Reply::Meta(mode, EntryKind::Dir)
            &&& replies.len() > 1
            &&& match replies[1] {
                Reply::Names(names) => is_sorting_of(entry_names(entries), names),
                _ => false,
            }
            &&& describes_entries(replies.skip(2), entries)
        },
        Node::Symlink { mode, target } => {
            replies == seq![Reply::Meta(mode, EntryKind::Symlink), Reply::Target(target)]
        },
        Node::Other { mode } => replies == seq![Reply::Meta(mode, EntryKind::Other)],
    }
}

/// Whether `replies` describe the entries of a directory, one after the other.
pub open spec fn describes_entries(
    replies: Seq<Reply>,
    entries: Seq<(Seq<u8>, Node)>,
) -> bool
    decreases entries,
{
    if entries.len() == 0 {
        replies.len() == 0
    } else {
        exists|k: int|
            0 <= k <= replies.len() && describes(#[trigger] replies.take(k), entries[0].1)
                && describes_entries(replies.skip(k), entries.drop_first())
    }
}

/// A run in two parts.
proof fn lemma_run_splits(w: Walk, replies: Seq<Reply>, k: int)
    requires
        0 <= k <= replies.len(),
        run(w, replies.take(k)) is Some,
    ensures
        run(w, replies) == run(run(w, replies.take(k))->0, replies.skip(k)),
    decreases k,
{
    if k == 0 {
        assert(replies.skip(0) =~= replies);
        assert(replies.take(0).len() == 0);
    } else {
        let head = replies.take(k);
        assert(head[0] == replies[0]);
        assert(head.drop_first() =~= replies.drop_first().take(k - 1));
        assert(replies.skip(k) =~= replies.drop_first().skip(k - 1));
        lemma_run_splits(next(w, replies[0])->0, replies.drop_first(), k - 1);
    }
}

/// Reading a file to its end feeds its content.
proof fn lemma_run_file(w: Walk, replies: Seq<Reply>, content: Seq<u8>)
    requires
        w.at is File,
        delivers(replies, content),
    ensures
        run(w, replies) == Some(advance(w.fed + content, w.todo)),
    decreases replies.len(),
{
    match replies[0] {
        Reply::Chunk(c) => {
            let v = next(w, replies[0])->0;
            if c.len() == 0 {
                assert(w.fed + content =~= w.fed);
                assert(replies.drop_first().len() == 0);
            } else {
                let rest = content.skip(c.len() as int);
                lemma_run_file(v, replies.drop_first(), rest);
                assert(content =~= c + rest);
                assert(v.fed + rest =~= w.fed + content);
            }
        },
        _ => {},
    }
}

/// Visiting an entry feeds the bytes of its tree and goes on to the next.
proof fn lemma_run_node(w: Walk, rel: Seq<u8>, node: Node, replies: Seq<Reply>)
    requires
        w.at == At::Entry(rel),
        describes(replies, node),
    ensures
        run(w, replies) == Some(advance(w.fed + stream(rel, node), w.todo)),
    decreases node,
{
    reveal_with_fuel(describes, 2);
    reveal_with_fuel(stream, 2);
    reveal_with_fuel(run, 3);
    let v = next(w, replies[0])->0;
    let rest = replies.drop_first();
    match node {
        Node::File { mode, content } => {
            lemma_run_file(v, rest, content);
            assert(v.fed + content =~= w.fed + stream(rel, node));
        },
        Node::Dir { mode, entries } => {
            match replies[1] {
                Reply::Names(names) => {
                    lemma_sorted_is(entry_names(entries), names);
                    assert(rest[0] == replies[1]);
                    assert(rest.drop_first() =~= replies.skip(2));
                    lemma_run_entries(v.fed, w.todo, rel, entries, replies.skip(2));
                    assert(v.fed + entries_stream(rel, entries) =~= w.fed + stream(rel, node));
                },
                _ => {},
            }
        },
        Node::Symlink { mode, target } => {
            assert(rest[0] == Reply::Target(target));
            assert(rest.drop_first().len() == 0);
            assert(v.fed + target =~= w.fed + stream(rel, node));
        },
        Node::Other { mode } => {
            assert(rest.len() == 0);
            assert(w.fed + header(rel, mode) + seq![0x6fu8] =~= w.fed + stream(rel, node));
        },
    }
}

/// Visiting the entries of a directory feeds the bytes of each.
proof fn lemma_run_entries(
    fed: Seq<u8>,
    todo: Seq<Seq<u8>>,
    rel: Seq<u8>,
    entries: Seq<(Seq<u8>, Node)>,
    replies: Seq<Reply>,
)
    requires
        describes_entries(replies, entries),
    ensures
        run(advance(fed, child_paths(rel, entry_names(entries)) + todo), replies) == Some(
            advance(fed + entries_stream(rel, entries), todo),
        ),
    decreases entries,
{
    reveal_with_fuel(describes, 2);
    reveal_with_fuel(describes_entries, 2);
    reveal_with_fuel(entries_stream, 2);
    let paths = child_paths(rel, entry_names(entries));
    if entries.len() == 0 {
        assert(paths + todo =~= todo);
        assert(fed + entries_stream(rel, entries) =~= fed);
    } else {
        let k = choose|k: int|
            0 <= k <= replies.len() && describes(#[trigger] replies.take(k), entries[0].1)
                && describes_entries(replies.skip(k), entries.drop_first());
        let first = child_path(rel, entries[0].0);
        let others = child_paths(rel, entry_names(entries.drop_first()));
        let w = advance(fed, paths + todo);
        assert((paths + todo).drop_first() =~= others + todo);
        assert(w == Walk { fed, todo: others + todo, at: At::Entry(first) });
        lemma_run_node(w, first, entries[0].1, replies.take(k));
        lemma_run_splits(w, replies, k);
        let fed2 = fed + stream(first, entries[0].1);
        lemma_run_entries(fed2, todo, rel, entries.drop_first(), replies.skip(k));
        assert(fed2 + entries_stream(rel, entries.drop_first()) =~= fed + entries_stream(
            rel,
            entries,
        ));
    }
}

/// However a tree is described (in whatever order its directories are listed,
/// in whatever pieces its files are read), the walk ends with the bytes that
/// stand for that tree.
pub proof fn law_walk_sees_the_tree(node: Node, replies: Seq<Reply>)
    requires
        describes(replies, node),
    ensures
        run(begun(), replies) == Some(
            Walk { fed: stream(seq![], node), todo: seq![], at: At::Done },
        ),
{
    lemma_run_node(begun(), seq![], node, replies);
    assert(begun().fed + stream(seq![], node) =~= stream(seq![], node));
}

// ---------------------------------------------------------------------------
// The walk itself
// ---------------------------------------------------------------------------

/// What to do next. Paths are relative to the root; the root's own is empty.
#[derive(Debug)]
pub enum WalkAction {
    /// Look up mode and kind of an entry, without following links.
    Stat(Vec<u8>),
    /// Read the next piece of a file.
    Read(Vec<u8>),
    /// List a directory.
    List(Vec<u8>),
    /// Read the target of a link.
    ReadLink(Vec<u8>),
    /// Nothing: take the key.
    Done,
}

/// What an action stands for.
pub open spec fn action_view(a: WalkAction) -> At {
    match a {
        WalkAction::Stat(p) => At::Entry(p@),
        WalkAction::Read(p) => At::File(p@),
        WalkAction::List(p) => At::Dir(p@),
        WalkAction::ReadLink(p) => At::Link(p@),
        WalkAction::Done => At::Done,
    }
}

/// The outcome of an action.
#[derive(Debug)]
pub enum WalkEvent {
    /// Mode and kind of an entry.
    Meta {
        /// Type and permission bits.
        mode: u32,
        /// Kind of the entry.
        kind: EntryKind,
    },
    /// A piece of a file; an empty one is the end of it.
    Chunk(Vec<u8>),
    /// The names in a directory, in any order.
    Names(Vec<Vec<u8>>),
    /// The target of a link.
    Target(Vec<u8>),
}

/// What an event stands for.
pub open spec fn event_view(e: WalkEvent) -> Reply {
    match e {
        WalkEvent::Meta { mode, kind } => Reply::Meta(mode, kind),
        WalkEvent::Chunk(c) => Reply::Chunk(c@),
        WalkEvent::Names(n) => Reply::Names(name_views(n@)),
        WalkEvent::Target(t) => Reply::Target(t@),
    }
}

/// A walk over a root filesystem that computes its key.
pub struct RootfsWalk {
    hasher: sha2::Sha256,
    /// Entries still to be visited; the next one is last.
    stack: Vec<Vec<u8>>,
    at: WalkAction,
}

impl View for RootfsWalk {
    type V = Walk;

    closed spec fn view(&self) -> Walk {
        Walk {
            fed: absorbed(self.hasher),
            todo: name_views(self.stack@).reverse(),
            at: action_view(self.at),
        }
    }
}

/// The four bytes of a number, least significant first.
fn mode_bytes(n: u32) -> (r: Vec<u8>)
    ensures
        r@ == le_bytes(n),
{
    let mut v: Vec<u8> = Vec::new();
    v.push((n % 0x100) as u8);
    v.push(((n / 0x100) % 0x100) as u8);
    v.push(((n / 0x1_0000) % 0x100) as u8);
    v.push((n / 0x100_0000) as u8);
    assert(v@ =~= le_bytes(n));
    v
}

/// A copy of some bytes.
fn copy_bytes(b: &Vec<u8>) -> (r: Vec<u8>)
    ensures
        r@ == b@,
{
    let r = b.clone();
    assert(r@ =~= b@);
    r
}

/// Path of an entry below the root, from that of its directory.
fn join_path(dir: &Vec<u8>, name: &Vec<u8>) -> (r: Vec<u8>)
    ensures
        r@ == child_path(dir@, name@),
{
    if dir.len() == 0 {
        return copy_bytes(name);
    }
    let mut r = copy_bytes(dir);
    let mut n = copy_bytes(name);
    r.push(0x2f);
    r.append(&mut n);
    r
}

impl RootfsWalk {
    /// A walk that has yet to look at the root.
    pub fn new() -> (w: Self)
        ensures
            w@ == begun(),
    {
        let w = RootfsWalk {
            hasher: hasher_new(),
            stack: Vec::new(),
            at: WalkAction::Stat(Vec::new()),
        };
        assert(w@.todo =~= begun().todo);
        assert(w@.at->Entry_0 =~= Seq::<u8>::empty());
        w
    }

    /// What the walk waits for.
    pub fn action(&self) -> (a: WalkAction)
        ensures
            action_view(a) == self@.at,
    {
        match &self.at {
            WalkAction::Stat(p) => WalkAction::Stat(copy_bytes(p)),
            WalkAction::Read(p) => WalkAction::Read(copy_bytes(p)),
            WalkAction::List(p) => WalkAction::List(copy_bytes(p)),
            WalkAction::ReadLink(p) => WalkAction::ReadLink(copy_bytes(p)),
            WalkAction::Done => WalkAction::Done,
        }
    }

    /// Goes on to the next entry.
    fn advance(&mut self)
        ensures
            final(self)@ == advance(old(self)@.fed, old(self)@.todo),
    {
        let ghost names = name_views(self.stack@);
        let ghost todo = self@.todo;
        match self.stack.pop() {
            Some(p) => {
                proof {
                    assert(name_views(self.stack@) =~= names.drop_last());
                    assert(names.drop_last().reverse() =~= todo.drop_first());
                    assert(p@ == todo[0]);
                }
                self.at = WalkAction::Stat(p);
            },
            None => {
                self.at = WalkAction::Done;
                assert(todo.len() == 0);
            },
        }
    }

    /// Puts the entries `names` of the directory `dir` before what is left.
    fn visit(&mut self, dir: &Vec<u8>, names: Vec<Vec<u8>>)
        ensures
            final(self)@ == (Walk {
                todo: child_paths(dir@, sorted(name_views(names@))) + old(self)@.todo,
                ..old(self)@
            }),
    {
        let sorted_names = sort_names(names);
        let ghost order = name_views(sorted_names@);
        let ghost paths = child_paths(dir@, order);
        let ghost todo = self@.todo;
        let mut i: usize = sorted_names.len();
        assert(paths.skip(i as int) + todo =~= todo);
        while i > 0
            invariant
                i <= sorted_names.len(),
                order == name_views(sorted_names@),
                paths == child_paths(dir@, order),
                self@ == (Walk { todo: paths.skip(i as int) + todo, ..old(self)@ }),
            decreases i,
        {
            let ghost before = name_views(self.stack@);
            let p = join_path(dir, &sorted_names[i - 1]);
            let ghost pv = p@;
            self.stack.push(p);
            i = i - 1;
            proof {
                assert(name_views(self.stack@) =~= before.push(pv));
                assert(before.push(pv).reverse() =~= seq![pv] + before.reverse());
                assert(paths.skip(i as int) + todo =~= seq![pv] + (paths.skip(i + 1) + todo));
            }
        }
        assert(paths.skip(0) =~= paths);
    }

    /// Takes in what an action gave. An event that is not a reply to the action
    /// in force changes nothing.
    pub fn step(&mut self, event: WalkEvent) -> (r: Result<(), UnexpectedEvent>)
        ensures
            match next(old(self)@, event_view(event)) {
                Some(w) => r is Ok && final(self)@ == w,
                None => r is Err && final(self)@ == old(self)@,
            },
    {
        let at = self.action();
        match (at, event) {
            (WalkAction::Stat(rel), WalkEvent::Meta { mode, kind }) => {
                hasher_update(&mut self.hasher, &rel);
                hasher_update(&mut self.hasher, &mode_bytes(mode));
                let letter: u8 = match kind {
                    EntryKind::File => 0x66,
                    EntryKind::Dir => 0x64,
                    EntryKind::Symlink => 0x6c,
                    EntryKind::Other => 0x6f,
                };
                let mut tag: Vec<u8> = Vec::new();
                tag.push(letter);
                assert(tag@ =~= seq![kind_letter(kind)]);
                hasher_update(&mut self.hasher, &tag);
                assert(self@.fed =~= old(self)@.fed + header(rel@, mode) + seq![kind_letter(kind)]);
                match kind {
                    EntryKind::File => {
                        self.at = WalkAction::Read(rel);
                    },
                    EntryKind::Dir => {
                        self.at = WalkAction::List(rel);
                    },
                    EntryKind::Symlink => {
                        self.at = WalkAction::ReadLink(rel);
                    },
                    EntryKind::Other => {
                        self.advance();
                    },
                }
                Ok(())
            },
            (WalkAction::Read(rel), WalkEvent::Chunk(c)) => {
                if c.len() == 0 {
                    self.advance();
                } else {
                    hasher_update(&mut self.hasher, &c);
                }
                Ok(())
            },
            (WalkAction::List(rel), WalkEvent::Names(names)) => {
                self.visit(&rel, names);
                self.advance();
                Ok(())
            },
            (WalkAction::ReadLink(rel), WalkEvent::Target(t)) => {
                hasher_update(&mut self.hasher, &t);
                self.advance();
                Ok(())
            },
            _ => Err(UnexpectedEvent),
        }
    }
}

/// The cache key of a tree that has been seen whole: its SHA-256 digest in
/// hexadecimal.
pub open spec fn key_of(fed: Seq<u8>) -> Seq<char> {
    text::hex_bytes(sha256(fed))
}

/// Takes the key of a finished walk; an unfinished one has none.
pub fn rootfs_cache_key(walk: RootfsWalk) -> (r: Option<String>)
    ensures
        match r {
            Some(k) => walk@.at is Done && k@ == key_of(walk@.fed) && k@.len() == 64,
            None => !(walk@.at is Done),
        },
{
    match walk.at {
        WalkAction::Done => {
            let digest = hasher_finalize(walk.hasher);
            proof {
                text::lemma_hex_bytes_len(digest@);
            }
            Some(text::hex_of_bytes(&digest))
        },
        _ => None,
    }
}

/// Two descriptions of one tree give one key.
pub proof fn law_key_depends_on_the_tree_alone(node: Node, a: Seq<Reply>, b: Seq<Reply>)
    requires
        describes(a, node),
        describes(b, node),
    ensures
        run(begun(), a) == run(begun(), b),
        run(begun(), a)->0.at is Done,
        key_of(run(begun(), a)->0.fed) == key_of(stream(seq![], node)),
{
    law_walk_sees_the_tree(node, a);
    law_walk_sees_the_tree(node, b);
}

/// The number that four bytes stand for, least significant first.
pub open spec fn le_value(b: Seq<u8>) -> int {
    b[0] + 0x100 * b[1] + 0x1_0000 * b[2] + 0x100_0000 * b[3]
}

/// A mode is read back from its four bytes.
pub proof fn law_modes_read_back(n: u32)
    ensures
        le_bytes(n).len() == 4,
        le_value(le_bytes(n)) == n,
{
}

/// The bytes of an entry tell its path, its mode, its kind, and what it holds:
/// the contents of a file and the target of a link follow to the last byte.
pub proof fn law_bytes_tell_the_entry(rel: Seq<u8>, node: Node)
    ensures
        ({
            let s = stream(rel, node);
            let n = rel.len() as int;
            let mode = match node {
                Node::File { mode, .. } => mode,
                Node::Dir { mode, .. } => mode,
                Node::Symlink { mode, .. } => mode,
                Node::Other { mode } => mode,
            };
            &&& s.len() >= n + 5
            &&& s.take(n) == rel
            &&& le_value(s.subrange(n, n + 4)) == mode
            &&& node matches Node::File { content, .. } ==> s[n + 4] == 0x66 && s.skip(n + 5)
                == content
            &&& node is Dir ==> s[n + 4] == 0x64
            &&& node matches Node::Symlink { target, .. } ==> s[n + 4] == 0x6c && s.skip(n + 5)
                == target
            &&& node is Other ==> s[n + 4] == 0x6f && s.len() == n + 5
        }),
{
    let s = stream(rel, node);
    let n = rel.len() as int;
    match node {
        Node::File { mode, content } => {
            law_modes_read_back(mode);
            assert(s.take(n) =~= rel);
            assert(s.subrange(n, n + 4) =~= le_bytes(mode));
            assert(s.skip(n + 5) =~= content);
        },
        Node::Dir { mode, entries } => {
            law_modes_read_back(mode);
            assert(s.take(n) =~= rel);
            assert(s.subrange(n, n + 4) =~= le_bytes(mode));
        },
        Node::Symlink { mode, target } => {
            law_modes_read_back(mode);
            assert(s.take(n) =~= rel);
            assert(s.subrange(n, n + 4) =~= le_bytes(mode));
            assert(s.skip(n + 5) =~= target);
        },
        Node::Other { mode } => {
            law_modes_read_back(mode);
            assert(s.take(n) =~= rel);
            assert(s.subrange(n, n + 4) =~= le_bytes(mode));
        },
    }
}

/// Two entries at one path that differ in mode, kind, contents or target have
/// different bytes.
pub proof fn law_different_entries_differ(rel: Seq<u8>, a: Node, b: Node)
    requires
        !(a is Dir),
        !(b is Dir),
        a != b,
    ensures
        stream(rel, a) != stream(rel, b),
{
    law_bytes_tell_the_entry(rel, a);
    law_bytes_tell_the_entry(rel, b);
}

/// The bytes of a directory go on with those of its entries, one after the
/// other, each at its own path below the directory.
pub proof fn law_directories_hold_their_entries(
    rel: Seq<u8>,
    mode: u32,
    entries: Seq<(Seq<u8>, Node)>,
    name: Seq<u8>,
    node: Node,
)
    ensures
        stream(rel, Node::Dir { mode, entries: entries.push((name, node)) }) == stream(
            rel,
            Node::Dir { mode, entries },
        ) + stream(
            if rel.len() == 0 {
                name
            } else {
                rel + seq![0x2fu8] + name
            },
            node,
        ),
{
    lemma_entries_push(rel, entries, name, node);
    assert(rel.push(0x2f) =~= rel + seq![0x2fu8]);
    let head = header(rel, mode) + seq![0x64u8];
    let a = entries_stream(rel, entries);
    let b = stream(child_path(rel, name), node);
    assert(head + (a + b) =~= head + a + b);
}

proof fn lemma_entries_push(
    rel: Seq<u8>,
    entries: Seq<(Seq<u8>, Node)>,
    name: Seq<u8>,
    node: Node,
)
    ensures
        entries_stream(rel, entries.push((name, node))) == entries_stream(rel, entries) + stream(
            child_path(rel, name),
            node,
        ),
    decreases entries.len(),
{
    let more = entries.push((name, node));
    if entries.len() == 0 {
        assert(more.drop_first() =~= Seq::<(Seq<u8>, Node)>::empty());
        assert(entries_stream(rel, more.drop_first()) =~= Seq::<u8>::empty());
        assert(entries_stream(rel, entries) =~= Seq::<u8>::empty());
        assert(entries_stream(rel, more) =~= stream(child_path(rel, name), node));
        assert(entries_stream(rel, entries) + stream(child_path(rel, name), node) =~= stream(
            child_path(rel, name),
            node,
        ));
    } else {
        lemma_entries_push(rel, entries.drop_first(), name, node);
        assert(more.drop_first() =~= entries.drop_first().push((name, node)));
        let a = stream(child_path(rel, entries[0].0), entries[0].1);
        let b = entries_stream(rel, entries.drop_first());
        let c = stream(child_path(rel, name), node);
        assert(a + (b + c) =~= a + b + c);
    }
}

/// Names come in the order of their first bytes that differ, and a name comes
/// before what it is the beginning of.
pub proof fn law_names_come_in_byte_order(a: Seq<u8>, b: Seq<u8>, k: int)
    requires
        0 <= k <= a.len(),
        k <= b.len(),
        a.take(k) == b.take(k),
    ensures
        k < a.len() && k < b.len() && a[k] < b[k] ==> bytes_le(a, b) && !bytes_le(b, a),
        k == a.len() ==> bytes_le(a, b),
        k == a.len() && k < b.len() ==> !bytes_le(b, a),
    decreases k,
{
    if k > 0 {
        assert(a[0] == a.take(k)[0]);
        assert(b[0] == b.take(k)[0]);
        let x = a.drop_first();
        let y = b.drop_first();
        assert(x.take(k - 1) =~= a.take(k).drop_first());
        assert(y.take(k - 1) =~= b.take(k).drop_first());
        law_names_come_in_byte_order(x, y, k - 1);
    }
}

/// A directory's entries come in the order of their names, whatever order they
/// were listed in.
pub proof fn law_listing_order_does_not_matter(a: Seq<Seq<u8>>, b: Seq<Seq<u8>>)
    requires
        a.to_multiset() == b.to_multiset(),
    ensures
        sorted(a) == sorted(b),
        ascending(sorted(a)),
        sorted(a).to_multiset() == a.to_multiset(),
{
    lemma_name_order_total();
    let s = a.sort_by(name_order());
    a.lemma_sort_by_ensures(name_order());
    assert forall|i: int, j: int| 0 <= i <= j < s.len() implies bytes_le(s[i], s[j]) by {
        lemma_bytes_le_reflexive(s[i]);
        if i < j {
            assert(name_order()(s[i], s[j]));
        }
    }
    lemma_sorted_is(s, a);
    lemma_sorted_is(s, b);
}

} // verus!
