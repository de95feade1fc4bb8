use bux::secrets::{parse_one_secret, parse_secrets, SecretError};

fn owned(v: &[&str]) -> Vec<String> {
    v.iter().map(|s| s.to_string()).collect()
}

#[test]
fn parse_with_hosts() {
    let s = parse_one_secret("openai=sk-x@api.openai.com,api.example.com", &vec![])
        .ok()
        .unwrap();
    assert_eq!(s.name, "openai");
    assert_eq!(s.value, "sk-x");
    assert_eq!(s.hosts, vec!["api.openai.com", "api.example.com"]);
}

#[test]
fn parse_uses_allow_net() {
    let s = parse_one_secret("t=val", &vec!["h1".into()]).ok().unwrap();
    assert_eq!(s.hosts, vec!["h1"]);
}

#[test]
fn parse_star_default() {
    let s = parse_one_secret("t=val", &vec![]).ok().unwrap();
    assert_eq!(s.hosts, vec!["*"]);
}

#[test]
fn secret_value_may_hold_separators() {
    let s = parse_one_secret("k=a=b@c@host", &vec![]).ok().unwrap();
    assert_eq!(s.name, "k");
    assert_eq!(s.value, "a=b@c");
    assert_eq!(s.hosts, vec!["host"]);
}

#[test]
fn secret_hosts_are_trimmed_and_blank_ones_dropped() {
    let s = parse_one_secret("k=v@ a , ,b\u{a0}", &vec![]).ok().unwrap();
    assert_eq!(s.hosts, vec!["a", "b"]);
}

#[test]
fn at_sign_before_any_equals_is_no_separator() {
    let s = parse_one_secret("user@site=pw", &owned(&["h"])).ok().unwrap();
    assert_eq!(s.name, "user@site");
    assert_eq!(s.value, "pw");
    assert_eq!(s.hosts, vec!["h"]);
}

#[test]
fn secret_without_equals_is_malformed() {
    let e = parse_one_secret("novalue", &vec![]).err().unwrap();
    assert!(matches!(e, SecretError::Malformed(_)));
    assert_eq!(
        e.message(),
        "invalid --secret \"novalue\"; expected name=value or name=value@host1,host2"
    );
}

#[test]
fn refused_spec_is_quoted_with_escapes() {
    let e = parse_one_secret("a\"b\n", &vec![]).err().unwrap();
    assert_eq!(
        e.message(),
        format!(
            "invalid --secret {:?}; expected name=value or name=value@host1,host2",
            "a\"b\n"
        )
    );
}

#[test]
fn secret_with_empty_parts_is_refused() {
    for spec in ["=v", "k=", "=@h"] {
        let e = parse_one_secret(spec, &vec![]).err().unwrap();
        assert!(matches!(e, SecretError::Empty(_)));
        assert_eq!(
            e.message(),
            format!("invalid --secret {spec:?}: name and value must be non-empty")
        );
    }
}

#[test]
fn secret_without_hosts_is_refused() {
    let e = parse_one_secret("k=v@ , ", &owned(&["h"])).err().unwrap();
    assert!(matches!(e, SecretError::NoHosts(_)));
    assert_eq!(e.message(), "--secret k: no hosts (use @host or --allow-net)");
}

#[test]
fn secrets_come_out_in_order() {
    let v = parse_secrets(&owned(&["a=1", "b=2@h"]), &vec![]).ok().unwrap();
    assert_eq!(v.len(), 2);
    assert_eq!((v[0].name.as_str(), v[0].value.as_str()), ("a", "1"));
    assert_eq!((v[1].name.as_str(), v[1].value.as_str()), ("b", "2"));
    assert_eq!(v[1].hosts, vec!["h"]);
    assert!(parse_secrets(&vec![], &vec![]).ok().unwrap().is_empty());
}

#[test]
fn first_refusal_of_a_list_counts() {
    let e = parse_secrets(&owned(&["a=1", "x", "=y"]), &vec![]).err().unwrap();
    assert!(matches!(e, SecretError::Malformed(s) if s == "x"));
}
