//! Guest-side user resolution (`/etc/passwd`, `/etc/group`).
//!
//! The two files are read by the caller; what reading each of them gave is an
//! argument here, and matters only where the file is needed.

use vstd::prelude::*;
use crate::error::{IoError, IoKind};
use crate::error;
use crate::text;

verus! {

/// The lines of a user database that hold entries: trimmed, and neither empty
/// nor comments.
pub open spec fn entries(lines: Seq<Seq<char>>) -> Seq<Seq<char>>
    decreases lines.len(),
{
    if lines.len() == 0 {
        seq![]
    } else {
        let before = entries(lines.drop_last());
        let line = text::trim(lines.last());
        if line.len() > 0 && line[0] != '#' {
            before.push(line)
        } else {
            before
        }
    }
}

/// The colon-separated fields of an entry.
pub open spec fn fields(line: Seq<char>) -> Seq<Seq<char>> {
    text::split_on(line, ':')
}

/// The number in a field, if the entry has that field and it is a number.
pub open spec fn number_field(line: Seq<char>, k: int) -> Option<u32> {
    if k < fields(line).len() {
        text::parse_u32(fields(line)[k])
    } else {
        None
    }
}

/// The first entry with the given name.
pub open spec fn named(es: Seq<Seq<char>>, name: Seq<char>) -> Option<Seq<char>>
    decreases es.len(),
{
    if es.len() == 0 {
        None
    } else if fields(es[0])[0] == name {
        Some(es[0])
    } else {
        named(es.drop_first(), name)
    }
}

/// User and group id of a user name in the text of a passwd file.
pub open spec fn passwd_name(
    file: Result<Seq<char>, error::IoFault>,
    name: Seq<char>,
) -> Result<(u32, u32), error::IoFault> {
    match file {
        Err(e) => Err(e),
        Ok(t) => match named(entries(text::lines(t)), name) {
            None => Err(
                error::IoFault {
                    kind: IoKind::NotFound,
                    message: "unknown user "@ + text::debug_form(name),
                },
            ),
            Some(line) => match (number_field(line, 2), number_field(line, 3)) {
                (None, _) => Err(
                    error::IoFault { kind: IoKind::InvalidData, message: "bad passwd uid"@ },
                ),
                (Some(uid), None) => Err(
                    error::IoFault { kind: IoKind::InvalidData, message: "bad passwd gid"@ },
                ),
                (Some(uid), Some(gid)) => Ok((uid, gid)),
            },
        },
    }
}

/// Group id of a group name in the text of a group file.
pub open spec fn group_name(
    file: Result<Seq<char>, error::IoFault>,
    name: Seq<char>,
) -> Result<u32, error::IoFault> {
    match file {
        Err(e) => Err(e),
        Ok(t) => match named(entries(text::lines(t)), name) {
            None => Err(
                error::IoFault {
                    kind: IoKind::NotFound,
                    message: "unknown group "@ + text::debug_form(name),
                },
            ),
            Some(line) => match number_field(line, 2) {
                None => Err(
                    error::IoFault { kind: IoKind::InvalidData, message: "bad group gid"@ },
                ),
                Some(gid) => Ok(gid),
            },
        },
    }
}

/// Primary group of a user id: that of the first entry with the id. Entries
/// that have no number in their id field are passed over.
pub open spec fn scan_gid(es: Seq<Seq<char>>, uid: u32) -> Option<u32>
    decreases es.len(),
{
    if es.len() == 0 {
        None
    } else if number_field(es[0], 2) == Some(uid) {
        number_field(es[0], 3)
    } else {
        scan_gid(es.drop_first(), uid)
    }
}

/// Primary group of a user id in the text of a passwd file.
pub open spec fn passwd_gid(file: Result<Seq<char>, error::IoFault>, uid: u32) -> Option<u32> {
    match file {
        Err(e) => None,
        Ok(t) => scan_gid(entries(text::lines(t)), uid),
    }
}

/// The id that the part before the colon stands for.
pub open spec fn uid_of(
    part: Seq<char>,
    passwd: Result<Seq<char>, error::IoFault>,
) -> Result<u32, error::IoFault> {
    let part = text::trim(part);
    if part.len() == 0 {
        Err(error::IoFault { kind: IoKind::InvalidInput, message: "empty user in user:group"@ })
    } else {
        match text::parse_u32(part) {
            Some(uid) => Ok(uid),
            None => match passwd_name(passwd, part) {
                Ok(ids) => Ok(ids.0),
                Err(e) => Err(e),
            },
        }
    }
}

/// The id that the part after the colon stands for.
pub open spec fn gid_of(
    part: Seq<char>,
    group: Result<Seq<char>, error::IoFault>,
) -> Result<u32, error::IoFault> {
    let part = text::trim(part);
    if part.len() == 0 {
        Err(error::IoFault { kind: IoKind::InvalidInput, message: "empty group in user:group"@ })
    } else {
        match text::parse_u32(part) {
            Some(gid) => Ok(gid),
            None => group_name(group, part),
        }
    }
}

/// What a user specification stands for.
pub open spec fn credentials_of(
    spec: Seq<char>,
    passwd: Result<Seq<char>, error::IoFault>,
    group: Result<Seq<char>, error::IoFault>,
) -> Result<(u32, u32), error::IoFault> {
    let spec = text::trim(spec);
    if spec.len() == 0 {
        Err(error::IoFault { kind: IoKind::InvalidInput, message: "empty user specification"@ })
    } else {
        match text::split_once(spec, ':') {
            Some((u, g)) => match uid_of(u, passwd) {
                Err(e) => Err(e),
                Ok(uid) => match gid_of(g, group) {
                    Err(e) => Err(e),
                    Ok(gid) => Ok((uid, gid)),
                },
            },
            None => match text::parse_u32(spec) {
                Some(uid) => match passwd_gid(passwd, uid) {
                    Some(gid) => Ok((uid, gid)),
                    None => Ok((uid, uid)),
                },
                None => passwd_name(passwd, spec),
            },
        }
    }
}

/// The entries of a user database.
fn read_lines(data: &str) -> (r: Vec<String>)
    ensures
        text::views(r@) == entries(text::lines(data@)),
{
    let all = text::split_lines(data);
    let ghost ls = text::views(all@);
    let mut out: Vec<String> = Vec::new();
    let mut i: usize = 0;
    assert(text::views(out@) =~= entries(ls.take(0)));
    while i < all.len()
        invariant
            i <= all.len(),
            ls == text::views(all@),
            text::views(out@) == entries(ls.take(i as int)),
        decreases all.len() - i,
    {
        let line = text::trimmed(all[i].as_str());
        let chars = text::to_chars(line.as_str());
        let ghost before = text::views(out@);
        assert(ls.take(i + 1).drop_last() =~= ls.take(i as int));
        assert(ls.take(i + 1).last() == all@[i as int]@);
        if chars.len() > 0 && chars[0] != '#' {
            out.push(line);
            assert(text::views(out@) =~= before.push(line@));
        }
        i = i + 1;
    }
    assert(ls.take(all.len() as int) =~= ls);
    out
}

/// A line has at least one field.
proof fn lemma_some_field(line: Seq<char>)
    ensures
        fields(line).len() > 0,
{
}

/// The first entry with the given name.
fn find_named(es: &Vec<String>, name: &str) -> (r: Option<Vec<String>>)
    ensures
        match r {
            Some(f) => named(text::views(es@), name@) is Some && text::views(f@) == fields(
                named(text::views(es@), name@)->0,
            ),
            None => named(text::views(es@), name@) is None,
        },
{
    let ghost all = text::views(es@);
    let mut i: usize = 0;
    assert(all.skip(0) =~= all);
    while i < es.len()
        invariant
            i <= es.len(),
            all == text::views(es@),
            named(all, name@) == named(all.skip(i as int), name@),
        decreases es.len() - i,
    {
        let f = text::split_all(es[i].as_str(), ':');
        assert(all.skip(i as int)[0] == es@[i as int]@);
        proof {
            lemma_some_field(es@[i as int]@);
            assert(text::views(f@)[0] == f@[0]@);
        }
        if text::same_text(f[0].as_str(), name) {
            return Some(f);
        }
        assert(all.skip(i as int).drop_first() =~= all.skip(i + 1));
        i = i + 1;
    }
    None
}

/// The number in a field.
fn read_field(f: &Vec<String>, k: usize) -> (r: Option<u32>)
    ensures
        r == (if k < f.len() {
            text::parse_u32(f@[k as int]@)
        } else {
            None
        }),
{
    if k < f.len() {
        text::read_u32(f[k].as_str())
    } else {
        None
    }
}

/// Looks up user and primary group id of a user name.
pub fn lookup_passwd_name(name: &str, passwd: &Result<String, IoError>) -> (r: Result<
    (u32, u32),
    IoError,
>)
    ensures
        error::outcome(r) == passwd_name(error::file_view(*passwd), name@),
{
    match passwd {
        Err(e) => Err(e.duplicate()),
        Ok(data) => {
            let es = read_lines(data.as_str());
            match find_named(&es, name) {
                None => {
                    let quoted = text::debug_of(name);
                    let message = text::cat2("unknown user ", quoted.as_str());
                    Err(IoError { kind: IoKind::NotFound, message })
                },
                Some(f) => {
                    assert(f.len() == text::views(f@).len());
                    assert(forall|i: int| 0 <= i < f.len() ==> text::views(f@)[i] == f@[i]@);
                    match (read_field(&f, 2), read_field(&f, 3)) {
                        (None, _) => Err(IoError::new(IoKind::InvalidData, "bad passwd uid")),
                        (Some(_), None) => Err(IoError::new(IoKind::InvalidData, "bad passwd gid")),
                        (Some(uid), Some(gid)) => Ok((uid, gid)),
                    }
                },
            }
        },
    }
}

/// Looks up the primary group of a user id.
pub fn lookup_passwd_gid(uid: u32, passwd: &Result<String, IoError>) -> (r: Option<u32>)
    ensures
        r == passwd_gid(error::file_view(*passwd), uid),
{
    match passwd {
        Err(_) => None,
        Ok(data) => {
            let es = read_lines(data.as_str());
            let ghost all = text::views(es@);
            let mut i: usize = 0;
            assert(all.skip(0) =~= all);
            while i < es.len()
                invariant
                    i <= es.len(),
                    all == text::views(es@),
                    passwd_gid(error::file_view(*passwd), uid) == scan_gid(all, uid),
                    scan_gid(all, uid) == scan_gid(all.skip(i as int), uid),
                decreases es.len() - i,
            {
                let f = text::split_all(es[i].as_str(), ':');
                assert(all.skip(i as int)[0] == es@[i as int]@);
                assert(f.len() == text::views(f@).len());
                assert(forall|j: int| 0 <= j < f.len() ==> text::views(f@)[j] == f@[j]@);
                match read_field(&f, 2) {
                    None => {},
                    Some(id) => {
                        if id == uid {
                            return read_field(&f, 3);
                        }
                    },
                }
                assert(all.skip(i as int).drop_first() =~= all.skip(i + 1));
                i = i + 1;
            }
            None
        },
    }
}

/// Looks up a group name.
pub fn lookup_group_name(name: &str, group: &Result<String, IoError>) -> (r: Result<u32, IoError>)
    ensures
        error::outcome(r) == group_name(error::file_view(*group), name@),
{
    match group {
        Err(e) => Err(e.duplicate()),
        Ok(data) => {
            let es = read_lines(data.as_str());
            match find_named(&es, name) {
                None => {
                    let quoted = text::debug_of(name);
                    let message = text::cat2("unknown group ", quoted.as_str());
                    Err(IoError { kind: IoKind::NotFound, message })
                },
                Some(f) => {
                    assert(f.len() == text::views(f@).len());
                    assert(forall|i: int| 0 <= i < f.len() ==> text::views(f@)[i] == f@[i]@);
                    match read_field(&f, 2) {
                        None => Err(IoError::new(IoKind::InvalidData, "bad group gid")),
                        Some(gid) => Ok(gid),
                    }
                },
            }
        },
    }
}

/// Resolves the part before the colon, a number or a name.
pub fn resolve_uid(part: &str, passwd: &Result<String, IoError>) -> (r: Result<u32, IoError>)
    ensures
        error::outcome(r) == uid_of(part@, error::file_view(*passwd)),
{
    let part = text::trimmed(part);
    if part.as_str().is_empty() {
        return Err(IoError::new(IoKind::InvalidInput, "empty user in user:group"));
    }
    match text::read_u32(part.as_str()) {
        Some(uid) => Ok(uid),
        None => match lookup_passwd_name(part.as_str(), passwd) {
            Ok(ids) => Ok(ids.0),
            Err(e) => Err(e),
        },
    }
}

/// Resolves the part after the colon, a number or a name.
pub fn resolve_gid(part: &str, group: &Result<String, IoError>) -> (r: Result<u32, IoError>)
    ensures
        error::outcome(r) == gid_of(part@, error::file_view(*group)),
{
    let part = text::trimmed(part);
    if part.as_str().is_empty() {
        return Err(IoError::new(IoKind::InvalidInput, "empty group in user:group"));
    }
    match text::read_u32(part.as_str()) {
        Some(gid) => Ok(gid),
        None => lookup_group_name(part.as_str(), group),
    }
}

/// Resolves `uid`, `uid:gid`, `name` or `name:group` to numeric credentials.
///
/// A number alone takes its primary group from `passwd`, or else the same
/// number.
pub fn resolve_user(
    spec: &str,
    passwd: &Result<String, IoError>,
    group: &Result<String, IoError>,
) -> (r: Result<(u32, u32), IoError>)
    ensures
        error::outcome(r) == credentials_of(
            spec@,
            error::file_view(*passwd),
            error::file_view(*group),
        ),
{
    let spec = text::trimmed(spec);
    if spec.as_str().is_empty() {
        return Err(IoError::new(IoKind::InvalidInput, "empty user specification"));
    }
    match text::cut_first(spec.as_str(), ':') {
        Some((u, g)) => match resolve_uid(u.as_str(), passwd) {
            Err(e) => Err(e),
            Ok(uid) => match resolve_gid(g.as_str(), group) {
                Err(e) => Err(e),
                Ok(gid) => Ok((uid, gid)),
            },
        },
        None => match text::read_u32(spec.as_str()) {
            Some(uid) => match lookup_passwd_gid(uid, passwd) {
                Some(gid) => Ok((uid, gid)),
                None => Ok((uid, uid)),
            },
            None => lookup_passwd_name(spec.as_str(), passwd),
        },
    }
}

/// Digits are not white space.
proof fn lemma_digits_are_tight(s: Seq<char>)
    requires
        text::all_digits(s),
    ensures
        text::trim(s) == s,
{
    if s.len() > 0 {
        assert(text::is_digit(s[0]));
        assert(text::is_digit(s.last()));
        text::lemma_trim_tight(s);
    }
}

/// `uid:gid` in decimal stands for exactly those ids, whatever the user and
/// group files hold.
pub proof fn law_numeric_credentials(
    uid: u32,
    gid: u32,
    passwd: Result<Seq<char>, error::IoFault>,
    group: Result<Seq<char>, error::IoFault>,
)
    ensures
        credentials_of(text::dec(uid as nat) + seq![':'] + text::dec(gid as nat), passwd, group)
            == Ok::<(u32, u32), error::IoFault>((uid, gid)),
{
    let u = text::dec(uid as nat);
    let g = text::dec(gid as nat);
    let s = u + seq![':'] + g;
    text::lemma_dec_value(uid as nat);
    text::lemma_dec_value(gid as nat);
    text::law_dec_reads_back(uid);
    text::law_dec_reads_back(gid);
    assert(text::is_digit(u[0]));
    assert(text::is_digit(g.last()));
    text::lemma_trim_tight(s);
    assert forall|j: int| 0 <= j < u.len() implies s[j] != ':' by {
        assert(text::is_digit(u[j]));
    }
    text::lemma_first_at_is(s, ':', u.len() as int);
    assert(s.take(u.len() as int) =~= u);
    assert(s.skip(u.len() as int + 1) =~= g);
    lemma_digits_are_tight(u);
    lemma_digits_are_tight(g);
}

/// An entry of a user id is found wherever it stands, as long as no entry
/// before it has the same id.
pub proof fn law_listed_uid_has_its_group(es: Seq<Seq<char>>, k: int, uid: u32)
    requires
        0 <= k < es.len(),
        number_field(es[k], 2) == Some(uid),
        forall|j: int| 0 <= j < k ==> number_field(#[trigger] es[j], 2) != Some(uid),
    ensures
        scan_gid(es, uid) == number_field(es[k], 3),
    decreases k,
{
    if k > 0 {
        assert(number_field(es[0], 2) != Some(uid));
        let rest = es.drop_first();
        assert(rest[k - 1] == es[k]);
        assert forall|j: int| 0 <= j < k - 1 implies number_field(#[trigger] rest[j], 2) != Some(
            uid,
        ) by {
            assert(rest[j] == es[j + 1]);
        }
        law_listed_uid_has_its_group(rest, k - 1, uid);
    }
}

/// A number alone always resolves, and to itself as the user id.
pub proof fn law_numeric_uid(
    uid: u32,
    passwd: Result<Seq<char>, error::IoFault>,
    group: Result<Seq<char>, error::IoFault>,
)
    ensures
        credentials_of(text::dec(uid as nat), passwd, group) is Ok,
        credentials_of(text::dec(uid as nat), passwd, group)->Ok_0.0 == uid,
{
    let u = text::dec(uid as nat);
    text::lemma_dec_value(uid as nat);
    text::law_dec_reads_back(uid);
    lemma_digits_are_tight(u);
    assert forall|j: int| 0 <= j < u.len() implies u[j] != ':' by {
        assert(text::is_digit(u[j]));
    }
    text::lemma_first_at_is(u, ':', u.len() as int);
}

} // verus!
