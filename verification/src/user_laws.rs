//! Users and groups as their databases list them: what a specification stands
//! for, in terms of the rows that were written.

use vstd::prelude::*;
use crate::error;
use crate::error::IoKind;
use crate::exec;
use crate::exec::{CredentialStep, ExecStart};
use crate::text;
use crate::user;

verus! {

/// A row as it is written: its fields with `:` between them.
pub open spec fn row(fields: Seq<Seq<char>>) -> Seq<char> {
    text::join(fields, seq![':'])
}

/// Text of a database: its rows, each on a line of its own.
pub open spec fn database(rows: Seq<Seq<Seq<char>>>) -> Seq<char> {
    text::join(Seq::new(rows.len(), |i: int| row(rows[i])), seq!['\n'])
}

/// Whether a row can be written: no field holds a `:` or the end of a line, and
/// the row is no comment and does not begin or end with white space.
pub open spec fn writable(fields: Seq<Seq<char>>) -> bool {
    &&& fields.len() > 0
    &&& forall|i: int, j: int|
        0 <= i < fields.len() && 0 <= j < fields[i].len() ==> #[trigger] fields[i][j] != ':'
    &&& row(fields).len() > 0
    &&& forall|j: int| 0 <= j < row(fields).len() ==> #[trigger] row(fields)[j] != '\n'
    &&& row(fields)[0] != '#'
    &&& !text::is_space(row(fields)[0])
    &&& !text::is_space(row(fields).last())
}

/// Lines that are joined come apart again.
proof fn lemma_lines_join(ls: Seq<Seq<char>>)
    requires
        forall|i: int|
            0 <= i < ls.len() ==> (#[trigger] ls[i]).len() > 0 && ls[i].last() != '\r' && forall|
                j: int,
            |
                0 <= j < ls[i].len() ==> ls[i][j] != '\n',
    ensures
        text::lines(text::join(ls, seq!['\n'])) == ls,
    decreases ls.len(),
{
    let s = text::join(ls, seq!['\n']);
    if ls.len() == 0 {
        assert(ls =~= seq![]);
    } else if ls.len() == 1 {
        assert(s == ls[0]);
        text::lemma_first_at_is(s, '\n', s.len() as int);
        assert(ls =~= seq![ls[0]]);
    } else {
        let rest = ls.drop_first();
        assert forall|i: int| 0 <= i < rest.len() implies (#[trigger] rest[i]).len() > 0
            && rest[i].last() != '\r' && forall|j: int|
            0 <= j < rest[i].len() ==> rest[i][j] != '\n' by {
            assert(rest[i] == ls[i + 1]);
        }
        lemma_lines_join(rest);
        text::lemma_join_front(ls, seq!['\n']);
        let tail = text::join(rest, seq!['\n']);
        let n = ls[0].len() as int;
        assert(s == ls[0] + seq!['\n'] + tail);
        text::lemma_first_at_is(s, '\n', n);
        assert(s.take(n) =~= ls[0]);
        assert(s.skip(n + 1) =~= tail);
        assert(text::strip_cr(ls[0]) == ls[0]);
        assert(ls =~= seq![ls[0]] + rest);
    }
}

/// Rows that can be written are entries.
proof fn lemma_entries(ls: Seq<Seq<char>>)
    requires
        forall|i: int|
            0 <= i < ls.len() ==> (#[trigger] ls[i]).len() > 0 && ls[i][0] != '#'
                && !text::is_space(ls[i][0]) && !text::is_space(ls[i].last()),
    ensures
        user::entries(ls) == ls,
    decreases ls.len(),
{
    if ls.len() > 0 {
        let before = ls.drop_last();
        assert forall|i: int| 0 <= i < before.len() implies (#[trigger] before[i]).len() > 0
            && before[i][0] != '#' && !text::is_space(before[i][0]) && !text::is_space(
            before[i].last(),
        ) by {
            assert(before[i] == ls[i]);
        }
        lemma_entries(before);
        assert(ls.last() == ls[ls.len() - 1]);
        text::lemma_trim_tight(ls.last());
        assert(ls =~= before.push(ls.last()));
    } else {
        assert(ls =~= seq![]);
    }
}

/// A database that was written is read back row by row, field by field.
pub proof fn law_database_reads_back(rows: Seq<Seq<Seq<char>>>)
    requires
        forall|i: int| 0 <= i < rows.len() ==> writable(#[trigger] rows[i]),
    ensures
        user::entries(text::lines(database(rows))).len() == rows.len(),
        forall|i: int|
            0 <= i < rows.len() ==> text::split_on(
                #[trigger] user::entries(text::lines(database(rows)))[i],
                ':',
            ) == rows[i],
{
    let ls = Seq::new(rows.len(), |i: int| row(rows[i]));
    assert forall|i: int| 0 <= i < ls.len() implies (#[trigger] ls[i]).len() > 0 && ls[i].last()
        != '\r' && forall|j: int| 0 <= j < ls[i].len() ==> ls[i][j] != '\n' by {
        assert(writable(rows[i]));
    }
    lemma_lines_join(ls);
    assert forall|i: int| 0 <= i < ls.len() implies (#[trigger] ls[i]).len() > 0 && ls[i][0] != '#'
        && !text::is_space(ls[i][0]) && !text::is_space(ls[i].last()) by {
        assert(writable(rows[i]));
    }
    lemma_entries(ls);
    assert forall|i: int| 0 <= i < rows.len() implies text::split_on(
        #[trigger] user::entries(text::lines(database(rows)))[i],
        ':',
    ) == rows[i] by {
        assert(writable(rows[i]));
        let fields = rows[i];
        assert forall|a: int, b: int|
            0 <= a < fields.len() && 0 <= b < fields[a].len() implies fields[a][b] != ':' by {}
        text::lemma_split_join(fields, ':');
    }
}

proof fn lemma_named_is(es: Seq<Seq<char>>, name: Seq<char>, k: int)
    requires
        0 <= k < es.len(),
        text::split_on(es[k], ':')[0] == name,
        forall|j: int| 0 <= j < k ==> text::split_on(#[trigger] es[j], ':')[0] != name,
    ensures
        user::named(es, name) == Some(es[k]),
    decreases k,
{
    if k > 0 {
        assert(text::split_on(es[0], ':')[0] != name);
        let rest = es.drop_first();
        assert forall|j: int| 0 <= j < k - 1 implies text::split_on(#[trigger] rest[j], ':')[0]
            != name by {
            assert(rest[j] == es[j + 1]);
        }
        lemma_named_is(rest, name, k - 1);
    }
}

proof fn lemma_named_none(es: Seq<Seq<char>>, name: Seq<char>)
    requires
        forall|j: int| 0 <= j < es.len() ==> text::split_on(#[trigger] es[j], ':')[0] != name,
    ensures
        user::named(es, name) is None,
    decreases es.len(),
{
    if es.len() > 0 {
        assert(text::split_on(es[0], ':')[0] != name);
        let rest = es.drop_first();
        assert forall|j: int| 0 <= j < rest.len() implies text::split_on(#[trigger] rest[j], ':')[0]
            != name by {
            assert(rest[j] == es[j + 1]);
        }
        lemma_named_none(rest, name);
    }
}

/// A user's name stands for the ids in the first row of that name: the third
/// field is the user, the fourth the group.
pub proof fn law_user_name_has_the_ids_of_its_row(
    rows: Seq<Seq<Seq<char>>>,
    k: int,
    uid: u32,
    gid: u32,
)
    requires
        forall|i: int| 0 <= i < rows.len() ==> writable(#[trigger] rows[i]),
        0 <= k < rows.len(),
        forall|j: int| 0 <= j < k ==> (#[trigger] rows[j])[0] != rows[k][0],
        rows[k].len() > 3,
        rows[k][2] == text::dec(uid as nat),
        rows[k][3] == text::dec(gid as nat),
    ensures
        user::passwd_name(Ok(database(rows)), rows[k][0]) == Ok::<(u32, u32), error::IoFault>(
            (uid, gid),
        ),
{
    law_database_reads_back(rows);
    let es = user::entries(text::lines(database(rows)));
    assert forall|j: int| 0 <= j < k implies text::split_on(#[trigger] es[j], ':')[0]
        != rows[k][0] by {
        assert(rows[j][0] != rows[k][0]);
    }
    assert(text::split_on(es[k], ':') == rows[k]);
    lemma_named_is(es, rows[k][0], k);
    text::law_dec_reads_back(uid);
    text::law_dec_reads_back(gid);
}

/// A group's name stands for the id in the third field of the first row of that
/// name.
pub proof fn law_group_name_has_the_id_of_its_row(rows: Seq<Seq<Seq<char>>>, k: int, gid: u32)
    requires
        forall|i: int| 0 <= i < rows.len() ==> writable(#[trigger] rows[i]),
        0 <= k < rows.len(),
        forall|j: int| 0 <= j < k ==> (#[trigger] rows[j])[0] != rows[k][0],
        rows[k].len() > 2,
        rows[k][2] == text::dec(gid as nat),
    ensures
        user::group_name(Ok(database(rows)), rows[k][0]) == Ok::<u32, error::IoFault>(gid),
{
    law_database_reads_back(rows);
    let es = user::entries(text::lines(database(rows)));
    assert forall|j: int| 0 <= j < k implies text::split_on(#[trigger] es[j], ':')[0]
        != rows[k][0] by {
        assert(rows[j][0] != rows[k][0]);
    }
    assert(text::split_on(es[k], ':') == rows[k]);
    lemma_named_is(es, rows[k][0], k);
    text::law_dec_reads_back(gid);
}

/// A name that no row has is not found, as a user or as a group.
pub proof fn law_unlisted_name_is_not_found(rows: Seq<Seq<Seq<char>>>, name: Seq<char>)
    requires
        forall|i: int| 0 <= i < rows.len() ==> writable(#[trigger] rows[i]),
        forall|i: int| 0 <= i < rows.len() ==> (#[trigger] rows[i])[0] != name,
    ensures
        user::passwd_name(Ok(database(rows)), name) == Err::<(u32, u32), error::IoFault>(
            error::IoFault {
                kind: IoKind::NotFound,
                message: "unknown user "@ + text::debug_form(name),
            },
        ),
        user::group_name(Ok(database(rows)), name) == Err::<u32, error::IoFault>(
            error::IoFault {
                kind: IoKind::NotFound,
                message: "unknown group "@ + text::debug_form(name),
            },
        ),
{
    law_database_reads_back(rows);
    let es = user::entries(text::lines(database(rows)));
    assert forall|j: int| 0 <= j < es.len() implies text::split_on(#[trigger] es[j], ':')[0]
        != name by {
        assert(rows[j][0] != name);
    }
    lemma_named_none(es, name);
}

/// Whether a text is a name: no number, no `:` in it, and no white space at its
/// ends.
pub open spec fn is_name(s: Seq<char>) -> bool {
    &&& s.len() > 0
    &&& text::parse_u32(s) is None
    &&& !text::is_space(s[0])
    &&& !text::is_space(s.last())
    &&& forall|j: int| 0 <= j < s.len() ==> #[trigger] s[j] != ':'
}

/// A specification that is a name is looked up among the users; one that is a
/// name, a `:` and a name takes the user from the users and the group from the
/// groups.
pub proof fn law_names_are_looked_up_where_they_belong(
    name: Seq<char>,
    group_name: Seq<char>,
    passwd: Result<Seq<char>, error::IoFault>,
    group: Result<Seq<char>, error::IoFault>,
)
    requires
        is_name(name),
        is_name(group_name),
    ensures
        user::credentials_of(name, passwd, group) == user::passwd_name(passwd, name),
        user::credentials_of(name + seq![':'] + group_name, passwd, group) == match (
            user::passwd_name(passwd, name),
            user::group_name(group, group_name),
        ) {
            (Ok((uid, _)), Ok(gid)) => Ok::<(u32, u32), error::IoFault>((uid, gid)),
            (Ok(_), Err(e)) => Err(e),
            (Err(e), _) => Err(e),
        },
{
    text::lemma_trim_tight(name);
    text::lemma_trim_tight(group_name);
    text::lemma_first_at_is(name, ':', name.len() as int);
    let s = name + seq![':'] + group_name;
    assert(s[0] == name[0]);
    assert(s.last() == group_name.last());
    text::lemma_trim_tight(s);
    text::lemma_first_at_is(s, ':', name.len() as int);
    assert(s.take(name.len() as int) =~= name);
    assert(s.skip(name.len() as int + 1) =~= group_name);
}

/// A user given by number is in the group in the fourth field of the first row
/// whose third field is that number; one that no row lists, or that the list
/// cannot be read for, is in the group of the same number.
pub proof fn law_numbered_user_has_the_group_of_its_row(
    rows: Seq<Seq<Seq<char>>>,
    uid: u32,
    gid: u32,
    k: int,
    group: Result<Seq<char>, error::IoFault>,
    unread: error::IoFault,
)
    requires
        forall|i: int| 0 <= i < rows.len() ==> writable(#[trigger] rows[i]),
        forall|i: int| 0 <= i < rows.len() ==> (#[trigger] rows[i]).len() > 3,
        0 <= k <= rows.len(),
        forall|j: int|
            0 <= j < k ==> text::parse_u32((#[trigger] rows[j])[2]) != Some(uid),
        k < rows.len() ==> rows[k][2] == text::dec(uid as nat) && rows[k][3] == text::dec(
            gid as nat,
        ),
    ensures
        k < rows.len() ==> user::credentials_of(
            text::dec(uid as nat),
            Ok(database(rows)),
            group,
        ) == Ok::<(u32, u32), error::IoFault>((uid, gid)),
        k == rows.len() ==> user::credentials_of(
            text::dec(uid as nat),
            Ok(database(rows)),
            group,
        ) == Ok::<(u32, u32), error::IoFault>((uid, uid)),
        user::credentials_of(text::dec(uid as nat), Err(unread), group) == Ok::<
            (u32, u32),
            error::IoFault,
        >((uid, uid)),
{
    law_database_reads_back(rows);
    let es = user::entries(text::lines(database(rows)));
    text::law_dec_reads_back(uid);
    text::law_dec_reads_back(gid);
    let u = text::dec(uid as nat);
    text::lemma_dec_value(uid as nat);
    assert(text::is_digit(u[0]));
    assert(text::is_digit(u.last()));
    text::lemma_trim_tight(u);
    assert forall|j: int| 0 <= j < u.len() implies u[j] != ':' by {
        assert(text::is_digit(u[j]));
    }
    text::lemma_first_at_is(u, ':', u.len() as int);
    assert forall|j: int| 0 <= j < k implies user::number_field(#[trigger] es[j], 2) != Some(
        uid,
    ) by {
        assert(text::split_on(es[j], ':') == rows[j]);
        assert(text::parse_u32(rows[j][2]) != Some(uid));
    }
    if k < rows.len() {
        assert(text::split_on(es[k], ':') == rows[k]);
        user::law_listed_uid_has_its_group(es, k, uid);
    } else {
        lemma_unlisted(es, uid);
    }
}

proof fn lemma_unlisted(es: Seq<Seq<char>>, uid: u32)
    requires
        forall|j: int| 0 <= j < es.len() ==> user::number_field(#[trigger] es[j], 2) != Some(uid),
    ensures
        user::scan_gid(es, uid) is None,
    decreases es.len(),
{
    if es.len() > 0 {
        let rest = es.drop_first();
        assert(user::number_field(es[0], 2) != Some(uid));
        assert forall|j: int| 0 <= j < rest.len() implies user::number_field(#[trigger] rest[j], 2)
            != Some(uid) by {
            assert(rest[j] == es[j + 1]);
        }
        lemma_unlisted(rest, uid);
    }
}

/// A row whose ids are no numbers is refused, the user's before the group's, and
/// so is a group's row whose id is none.
pub proof fn law_rows_without_numbers_are_refused(rows: Seq<Seq<Seq<char>>>, k: int)
    requires
        forall|i: int| 0 <= i < rows.len() ==> writable(#[trigger] rows[i]),
        0 <= k < rows.len(),
        forall|j: int| 0 <= j < k ==> (#[trigger] rows[j])[0] != rows[k][0],
        rows[k].len() > 3,
    ensures
        text::parse_u32(rows[k][2]) is None ==> {
            &&& user::passwd_name(Ok(database(rows)), rows[k][0]) == Err::<
                (u32, u32),
                error::IoFault,
            >(error::IoFault { kind: IoKind::InvalidData, message: "bad passwd uid"@ })
            &&& user::group_name(Ok(database(rows)), rows[k][0]) == Err::<u32, error::IoFault>(
                error::IoFault { kind: IoKind::InvalidData, message: "bad group gid"@ },
            )
        },
        text::parse_u32(rows[k][2]) is Some && text::parse_u32(rows[k][3]) is None
            ==> user::passwd_name(Ok(database(rows)), rows[k][0]) == Err::<
            (u32, u32),
            error::IoFault,
        >(error::IoFault { kind: IoKind::InvalidData, message: "bad passwd gid"@ }),
{
    law_database_reads_back(rows);
    let es = user::entries(text::lines(database(rows)));
    assert forall|j: int| 0 <= j < k implies text::split_on(#[trigger] es[j], ':')[0]
        != rows[k][0] by {
        assert(rows[j][0] != rows[k][0]);
    }
    assert(text::split_on(es[k], ':') == rows[k]);
    lemma_named_is(es, rows[k][0], k);
}

/// A specification that is blank, or blank before its `:` or after it, is
/// refused as such.
pub proof fn law_blank_specifications_are_refused(
    name: Seq<char>,
    uid: u32,
    passwd: Result<Seq<char>, error::IoFault>,
    group: Result<Seq<char>, error::IoFault>,
)
    requires
        is_name(name),
    ensures
        user::credentials_of(seq![], passwd, group) == Err::<(u32, u32), error::IoFault>(
            error::IoFault { kind: IoKind::InvalidInput, message: "empty user specification"@ },
        ),
        user::credentials_of(seq![':'] + name, passwd, group) == Err::<(u32, u32), error::IoFault>(
            error::IoFault { kind: IoKind::InvalidInput, message: "empty user in user:group"@ },
        ),
        user::credentials_of(text::dec(uid as nat) + seq![':'], passwd, group) == Err::<
            (u32, u32),
            error::IoFault,
        >(error::IoFault { kind: IoKind::InvalidInput, message: "empty group in user:group"@ }),
{
    let a = seq![':'] + name;
    assert(a.last() == name.last());
    text::lemma_trim_tight(a);
    text::lemma_first_at_is(a, ':', 0);
    assert(a.take(0) =~= Seq::<char>::empty());
    let u = text::dec(uid as nat);
    let b = u + seq![':'];
    text::lemma_dec_value(uid as nat);
    text::law_dec_reads_back(uid);
    assert(text::is_digit(u[0]));
    assert(text::is_digit(u.last()));
    text::lemma_trim_tight(u);
    assert(b[0] == u[0]);
    text::lemma_trim_tight(b);
    assert forall|j: int| 0 <= j < u.len() implies b[j] != ':' by {
        assert(text::is_digit(u[j]));
    }
    text::lemma_first_at_is(b, ':', u.len() as int);
    assert(b.take(u.len() as int) =~= u);
    assert(b.skip(u.len() as int + 1) =~= Seq::<char>::empty());
}

// ---------------------------------------------------------------------------
// Commands
// ---------------------------------------------------------------------------

/// A command whose user is `uid:gid` runs as that user and in that group: the
/// first number is never taken for the group, nor the second for the user.
pub proof fn law_command_runs_as_the_ids_of_its_user(
    req: ExecStart,
    uid: u32,
    gid: u32,
    passwd: Result<Seq<char>, error::IoFault>,
    group: Result<Seq<char>, error::IoFault>,
)
    requires
        req.uid is None,
        req.gid is None,
        req.user is Some,
        req.user->0@ == text::dec(uid as nat) + seq![':'] + text::dec(gid as nat),
    ensures
        exec::requested_credentials(req, passwd, group) == Ok::<
            Option<(u32, u32)>,
            error::IoFault,
        >(Some((uid, gid))),
        exec::credential_steps(exec::requested_credentials(req, passwd, group)->Ok_0) == seq![
            CredentialStep::SetGid(gid),
            CredentialStep::SetUid(uid),
        ],
{
    user::law_numeric_credentials(uid, gid, passwd, group);
}

/// A command whose user is a name runs as the user in the third field and in
/// the group in the fourth field of the first row of that name.
pub proof fn law_command_runs_as_its_named_user(
    req: ExecStart,
    rows: Seq<Seq<Seq<char>>>,
    k: int,
    uid: u32,
    gid: u32,
    group: Result<Seq<char>, error::IoFault>,
)
    requires
        req.uid is None,
        req.gid is None,
        forall|i: int| 0 <= i < rows.len() ==> writable(#[trigger] rows[i]),
        0 <= k < rows.len(),
        forall|j: int| 0 <= j < k ==> (#[trigger] rows[j])[0] != rows[k][0],
        rows[k].len() > 3,
        rows[k][2] == text::dec(uid as nat),
        rows[k][3] == text::dec(gid as nat),
        is_name(rows[k][0]),
        req.user is Some,
        req.user->0@ == rows[k][0],
    ensures
        exec::requested_credentials(req, Ok(database(rows)), group) == Ok::<
            Option<(u32, u32)>,
            error::IoFault,
        >(Some((uid, gid))),
        exec::credential_steps(
            exec::requested_credentials(req, Ok(database(rows)), group)->Ok_0,
        ) == seq![CredentialStep::SetGid(gid), CredentialStep::SetUid(uid)],
{
    law_user_name_has_the_ids_of_its_row(rows, k, uid, gid);
    law_names_are_looked_up_where_they_belong(rows[k][0], rows[k][0], Ok(database(rows)), group);
}

/// Whatever a command's user stands for, the command runs with exactly those
/// ids, and does not run where it stands for nothing.
pub proof fn law_command_runs_as_its_user(
    req: ExecStart,
    passwd: Result<Seq<char>, error::IoFault>,
    group: Result<Seq<char>, error::IoFault>,
)
    requires
        req.uid is None,
        req.gid is None,
    ensures
        req.user is None ==> exec::requested_credentials(req, passwd, group) == Ok::<
            Option<(u32, u32)>,
            error::IoFault,
        >(None),
        req.user is Some ==> match user::credentials_of(req.user->0@, passwd, group) {
            Ok((uid, gid)) => {
                &&& exec::requested_credentials(req, passwd, group) is Ok
                &&& exec::credential_steps(exec::requested_credentials(req, passwd, group)->Ok_0)
                    == seq![CredentialStep::SetGid(gid), CredentialStep::SetUid(uid)]
            },
            Err(e) => exec::requested_credentials(req, passwd, group) == Err::<
                Option<(u32, u32)>,
                error::IoFault,
            >(e),
        },
{
}

/// Ids that a request gives as numbers come before its user, and one of them
/// alone stands for both.
pub proof fn law_given_ids_come_first(
    req: ExecStart,
    passwd: Result<Seq<char>, error::IoFault>,
    group: Result<Seq<char>, error::IoFault>,
)
    requires
        req.uid is Some || req.gid is Some,
    ensures
        exec::requested_credentials(req, passwd, group) matches Ok(Some((uid, gid))) && {
            &&& req.uid is Some ==> uid == req.uid->0
            &&& req.gid is Some ==> gid == req.gid->0
            &&& req.uid is None ==> uid == gid
            &&& req.gid is None ==> gid == uid
        },
{
}

/// The group is changed before the user, and nothing is changed where no ids
/// are asked for.
pub proof fn law_group_is_changed_before_user(uid: u32, gid: u32)
    ensures
        exec::credential_steps(Some((uid, gid))).len() == 2,
        exec::credential_steps(Some((uid, gid)))[0] == CredentialStep::SetGid(gid),
        exec::credential_steps(Some((uid, gid)))[1] == CredentialStep::SetUid(uid),
        exec::credential_steps(None).len() == 0,
{
}

/// A command's environment is read back as it was written, assignment by
/// assignment in order: a name ends at the first `=`, and what follows is the
/// value.
pub proof fn law_environment_reads_back(
    names: Seq<Seq<char>>,
    values: Seq<Seq<char>>,
    env: Seq<Seq<char>>,
)
    requires
        names.len() == env.len(),
        values.len() == env.len(),
        forall|i: int| 0 <= i < env.len() ==> #[trigger] env[i] == names[i] + seq!['='] + values[i],
        forall|i: int, j: int|
            0 <= i < names.len() && 0 <= j < names[i].len() ==> #[trigger] names[i][j] != '=',
    ensures
        exec::assignments(env).len() == env.len(),
        forall|i: int|
            0 <= i < env.len() ==> #[trigger] exec::assignments(env)[i] == (names[i], values[i]),
    decreases env.len(),
{
    if env.len() > 0 {
        let n = env.len() - 1;
        law_environment_reads_back(names.drop_last(), values.drop_last(), env.drop_last());
        let s = env.last();
        assert(s == names[n] + seq!['='] + values[n]);
        assert forall|j: int| 0 <= j < names[n].len() implies s[j] != '=' by {
            assert(s[j] == names[n][j]);
        }
        text::lemma_first_at_is(s, '=', names[n].len() as int);
        assert(s.take(names[n].len() as int) =~= names[n]);
        assert(s.skip(names[n].len() as int + 1) =~= values[n]);
    }
}

/// An entry without `=` is no assignment and changes nothing for those before
/// it.
pub proof fn law_entry_without_value_is_passed_over(env: Seq<Seq<char>>, entry: Seq<char>)
    requires
        forall|j: int| 0 <= j < entry.len() ==> #[trigger] entry[j] != '=',
    ensures
        exec::assignments(env.push(entry)) == exec::assignments(env),
{
    text::lemma_first_at_is(entry, '=', entry.len() as int);
    assert(env.push(entry).drop_last() =~= env);
}

} // verus!
