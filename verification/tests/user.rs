use bux::error::{IoError, IoKind};
use bux::user::{
    lookup_group_name, lookup_passwd_gid, lookup_passwd_name, resolve_gid, resolve_uid,
    resolve_user,
};

fn file(text: &str) -> Result<String, IoError> {
    Ok(text.to_string())
}

fn missing() -> Result<String, IoError> {
    Err(IoError::new(IoKind::NotFound, "no such file"))
}

const PASSWD: &str = "# comment\nroot:x:0:0:root:/root:/bin/sh\n\napp:x:1000:1001:App:/home/app:/bin/sh\nbad:x:y:z\nshort:x\n";
const GROUP: &str = "root:x:0:\nstaff:x:50:app\nbadgrp:x:n:\n";

#[test]
fn numeric_uid_gid() {
    assert_eq!(
        resolve_user("1000:100", &missing(), &missing()).unwrap(),
        (1000, 100)
    );
}

#[test]
fn numeric_uid_only() {
    let (uid, gid) = resolve_user("0", &file(PASSWD), &file(GROUP)).unwrap();
    assert_eq!(uid, 0);
    assert_eq!(gid, 0);
}

#[test]
fn empty_rejected() {
    assert!(resolve_user("", &file(PASSWD), &file(GROUP)).is_err());
    assert!(resolve_user("  ", &file(PASSWD), &file(GROUP)).is_err());
}

#[test]
fn named_user_and_group() {
    assert_eq!(
        resolve_user("app", &file(PASSWD), &file(GROUP)).unwrap(),
        (1000, 1001)
    );
    assert_eq!(
        resolve_user("app:staff", &file(PASSWD), &file(GROUP)).unwrap(),
        (1000, 50)
    );
    assert_eq!(
        resolve_user(" app : 7 ", &file(PASSWD), &file(GROUP)).unwrap(),
        (1000, 7)
    );
}

#[test]
fn numeric_user_gets_its_group_from_passwd() {
    assert_eq!(
        resolve_user("1000", &file(PASSWD), &missing()).unwrap(),
        (1000, 1001)
    );
    assert_eq!(lookup_passwd_gid(1000, &file(PASSWD)), Some(1001));
    assert_eq!(lookup_passwd_gid(42, &file(PASSWD)), None);
    assert_eq!(lookup_passwd_gid(42, &missing()), None);
}

#[test]
fn entries_without_a_number_are_passed_over() {
    let passwd = file("+::::::\nalice:x:1000:100::/home/alice:/bin/sh\n");
    assert_eq!(lookup_passwd_gid(1000, &passwd), Some(100));
    assert_eq!(resolve_user("1000", &passwd, &missing()).unwrap(), (1000, 100));
    assert_eq!(lookup_passwd_gid(7, &file("a:x\nb:x:7:70\nc:x:7:71\n")), Some(70));
    assert_eq!(lookup_passwd_gid(7, &file("b:x:7:none\n")), None);
}

#[test]
fn empty_half_of_user_and_group_is_refused() {
    let e = resolve_user(":5", &file(PASSWD), &file(GROUP)).unwrap_err();
    assert_eq!(e.kind, IoKind::InvalidInput);
    assert_eq!(e.message, "empty user in user:group");
    let e = resolve_user("5:", &file(PASSWD), &file(GROUP)).unwrap_err();
    assert_eq!(e.kind, IoKind::InvalidInput);
    assert_eq!(e.message, "empty group in user:group");
    assert_eq!(resolve_uid("3", &missing()).unwrap(), 3);
    assert_eq!(resolve_gid("4", &missing()).unwrap(), 4);
}

#[test]
fn unknown_names_are_not_found() {
    let e = lookup_passwd_name("nobody", &file(PASSWD)).unwrap_err();
    assert_eq!(e.kind, IoKind::NotFound);
    let e = lookup_group_name("nogroup", &file(GROUP)).unwrap_err();
    assert_eq!(e.kind, IoKind::NotFound);
    assert_eq!(lookup_group_name("staff", &file(GROUP)).unwrap(), 50);
}

#[test]
fn malformed_entries_are_invalid() {
    assert_eq!(
        lookup_passwd_name("bad", &file(PASSWD)).unwrap_err().kind,
        IoKind::InvalidData
    );
    assert_eq!(
        lookup_group_name("badgrp", &file(GROUP)).unwrap_err().kind,
        IoKind::InvalidData
    );
}

#[test]
fn unreadable_files_are_the_failure() {
    let e = lookup_passwd_name("app", &missing()).unwrap_err();
    assert_eq!(e.kind, IoKind::NotFound);
    assert_eq!(e.message, "no such file");
}
