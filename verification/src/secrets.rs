//! Secrets that the host puts in place of placeholders in guest traffic.

use vstd::prelude::*;
use crate::text;

verus! {

/// A secret of the host.
pub struct Secret {
    /// Name.
    pub name: String,
    /// Hosts that it is for; `*` for all.
    pub hosts: Vec<String>,
    /// Value, which never enters the guest.
    pub value: String,
}

/// A [`Secret`] with its texts.
pub struct SecretV {
    pub name: Seq<char>,
    pub hosts: Seq<Seq<char>>,
    pub value: Seq<char>,
}

impl View for Secret {
    type V = SecretV;

    open spec fn view(&self) -> SecretV {
        SecretV { name: self.name@, hosts: text::views(self.hosts@), value: self.value@ }
    }
}

impl Secret {
    /// A secret for some hosts.
    pub fn new(name: &str, hosts: Vec<String>, value: &str) -> (s: Secret)
        ensures
            s@ == (SecretV { name: name@, hosts: text::views(hosts@), value: value@ }),
    {
        Secret { name: name.to_owned(), hosts, value: value.to_owned() }
    }
}

/// Why a secret specification was refused.
#[derive(Debug)]
pub enum SecretError {
    /// It has no `=`.
    Malformed(String),
    /// Its name or its value is empty.
    Empty(String),
    /// The secret of this name has no hosts.
    NoHosts(String),
}

/// A [`SecretError`] with its text.
pub enum SecretFault {
    Malformed(Seq<char>),
    Empty(Seq<char>),
    NoHosts(Seq<char>),
}

impl View for SecretError {
    type V = SecretFault;

    open spec fn view(&self) -> SecretFault {
        match *self {
            SecretError::Malformed(s) => SecretFault::Malformed(s@),
            SecretError::Empty(s) => SecretFault::Empty(s@),
            SecretError::NoHosts(n) => SecretFault::NoHosts(n@),
        }
    }
}

/// Description of a refusal. A refused specification is quoted.
pub open spec fn fault_text(f: SecretFault) -> Seq<char> {
    match f {
        SecretFault::Malformed(s) => "invalid --secret "@ + text::debug_form(s)
            + "; expected name=value or name=value@host1,host2"@,
        SecretFault::Empty(s) => "invalid --secret "@ + text::debug_form(s)
            + ": name and value must be non-empty"@,
        SecretFault::NoHosts(n) => "--secret "@ + n + ": no hosts (use @host or --allow-net)"@,
    }
}

impl SecretError {
    /// Describes the refusal.
    pub fn message(&self) -> (r: String)
        ensures
            r@ == fault_text(self@),
    {
        match self {
            SecretError::Malformed(s) => {
                let quoted = text::debug_of(s.as_str());
                text::cat3(
                    "invalid --secret ",
                    quoted.as_str(),
                    "; expected name=value or name=value@host1,host2",
                )
            },
            SecretError::Empty(s) => {
                let quoted = text::debug_of(s.as_str());
                text::cat3(
                    "invalid --secret ",
                    quoted.as_str(),
                    ": name and value must be non-empty",
                )
            },
            SecretError::NoHosts(n) => text::cat3(
                "--secret ",
                n.as_str(),
                ": no hosts (use @host or --allow-net)",
            ),
        }
    }
}

/// The pieces of a list that are not blank, trimmed.
pub open spec fn not_blank(parts: Seq<Seq<char>>) -> Seq<Seq<char>>
    decreases parts.len(),
{
    if parts.len() == 0 {
        seq![]
    } else {
        let before = not_blank(parts.drop_last());
        let piece = text::trim(parts.last());
        if piece.len() > 0 {
            before.push(piece)
        } else {
            before
        }
    }
}

/// The part of a specification before its hosts, and the hosts: what stands
/// after the last `@`, provided that a `=` comes before it.
pub open spec fn parts_of(spec: Seq<char>) -> (Seq<char>, Option<Seq<char>>) {
    match text::rsplit_once(spec, '@') {
        Some((l, h)) => if text::has_char(l, '=') {
            (l, Some(h))
        } else {
            (spec, None)
        },
        None => (spec, None),
    }
}

/// Hosts of a secret: those that are named, or else those that the guest may
/// reach, or else all.
pub open spec fn hosts_of(named: Option<Seq<char>>, allow_net: Seq<Seq<char>>) -> Seq<Seq<char>> {
    match named {
        Some(h) => not_blank(text::split_on(h, ',')),
        None => if allow_net.len() == 0 {
            seq!["*"@]
        } else {
            allow_net
        },
    }
}

/// What a specification stands for.
pub open spec fn secret_of(spec: Seq<char>, allow_net: Seq<Seq<char>>) -> Result<
    SecretV,
    SecretFault,
> {
    let (left, named) = parts_of(spec);
    match text::split_once(left, '=') {
        None => Err(SecretFault::Malformed(spec)),
        Some((name, value)) => if name.len() == 0 || value.len() == 0 {
            Err(SecretFault::Empty(spec))
        } else {
            let hosts = hosts_of(named, allow_net);
            if hosts.len() == 0 {
                Err(SecretFault::NoHosts(name))
            } else {
                Ok(SecretV { name, hosts, value })
            }
        },
    }
}

/// What a list of specifications stands for: every secret, or the first
/// refusal.
pub open spec fn secrets_of(specs: Seq<Seq<char>>, allow_net: Seq<Seq<char>>) -> Result<
    Seq<SecretV>,
    SecretFault,
>
    decreases specs.len(),
{
    if specs.len() == 0 {
        Ok(seq![])
    } else {
        match secrets_of(specs.drop_last(), allow_net) {
            Err(e) => Err(e),
            Ok(before) => match secret_of(specs.last(), allow_net) {
                Err(e) => Err(e),
                Ok(s) => Ok(before.push(s)),
            },
        }
    }
}

/// The secrets of a list.
pub open spec fn secret_views(v: Seq<Secret>) -> Seq<SecretV> {
    Seq::new(v.len(), |i: int| v[i]@)
}

/// The same secrets once more.
pub fn clone_secrets(v: &Vec<Secret>) -> (r: Vec<Secret>)
    ensures
        secret_views(r@) == secret_views(v@),
{
    let ghost all = secret_views(v@);
    let mut out: Vec<Secret> = Vec::new();
    let mut i: usize = 0;
    assert(secret_views(out@) =~= all.take(0));
    while i < v.len()
        invariant
            i <= v.len(),
            all == secret_views(v@),
            secret_views(out@) == all.take(i as int),
        decreases v.len() - i,
    {
        let ghost before = secret_views(out@);
        out.push(
            Secret {
                name: v[i].name.clone(),
                hosts: text::clone_strings(&v[i].hosts),
                value: v[i].value.clone(),
            },
        );
        assert(secret_views(out@) =~= before.push(v@[i as int]@));
        assert(all.take(i + 1) =~= all.take(i as int).push(all[i as int]));
        i = i + 1;
    }
    assert(all.take(v.len() as int) =~= all);
    out
}

/// An outcome with its texts.
pub open spec fn secret_outcome(r: Result<Secret, SecretError>) -> Result<SecretV, SecretFault> {
    match r {
        Ok(s) => Ok(s@),
        Err(e) => Err(e@),
    }
}

/// The trimmed pieces of a comma-separated list that are not blank.
fn host_list(h: &str) -> (r: Vec<String>)
    ensures
        text::views(r@) == not_blank(text::split_on(h@, ',')),
{
    let parts = text::split_all(h, ',');
    let ghost all = text::views(parts@);
    let mut out: Vec<String> = Vec::new();
    let mut i: usize = 0;
    assert(text::views(out@) =~= not_blank(all.take(0)));
    while i < parts.len()
        invariant
            i <= parts.len(),
            all == text::views(parts@),
            text::views(out@) == not_blank(all.take(i as int)),
        decreases parts.len() - i,
    {
        let ghost before = text::views(out@);
        let piece = text::trimmed(parts[i].as_str());
        assert(all.take(i + 1).drop_last() =~= all.take(i as int));
        assert(all.take(i + 1).last() == parts@[i as int]@);
        if !piece.as_str().is_empty() {
            let ghost pv = piece@;
            out.push(piece);
            assert(text::views(out@) =~= before.push(pv));
        }
        i = i + 1;
    }
    assert(all.take(parts.len() as int) =~= all);
    out
}

/// Parses `name=value@host1,host2` or `name=value`.
pub fn parse_one_secret(spec: &str, allow_net: &Vec<String>) -> (r: Result<Secret, SecretError>)
    ensures
        secret_outcome(r) == secret_of(spec@, text::views(allow_net@)),
{
    let (left, named): (String, Option<String>) = match text::cut_last(spec, '@') {
        Some((l, h)) => {
            let chars = text::to_chars(l.as_str());
            let at = text::find_from(&chars, 0, '=');
            assert(chars@.skip(0) =~= chars@);
            if at < chars.len() {
                (l, Some(h))
            } else {
                (spec.to_owned(), None)
            }
        },
        None => (spec.to_owned(), None),
    };
    assert((left@, text::opt_view(named)) == parts_of(spec@));
    match text::cut_first(left.as_str(), '=') {
        None => Err(SecretError::Malformed(spec.to_owned())),
        Some((name, value)) => {
            if name.as_str().is_empty() || value.as_str().is_empty() {
                return Err(SecretError::Empty(spec.to_owned()));
            }
            let hosts = match &named {
                Some(h) => host_list(h.as_str()),
                None => {
                    if allow_net.len() == 0 {
                        let mut v: Vec<String> = Vec::new();
                        v.push("*".to_owned());
                        assert(text::views(v@) =~= seq!["*"@]);
                        v
                    } else {
                        text::clone_strings(allow_net)
                    }
                },
            };
            assert(text::views(hosts@) == hosts_of(
                text::opt_view(named),
                text::views(allow_net@),
            ));
            assert(text::views(hosts@).len() == hosts@.len());
            if hosts.len() == 0 {
                return Err(SecretError::NoHosts(name));
            }
            Ok(Secret::new(name.as_str(), hosts, value.as_str()))
        },
    }
}

/// Parses a list of secret specifications. `allow_net` are the hosts that the
/// guest may reach.
pub fn parse_secrets(specs: &Vec<String>, allow_net: &Vec<String>) -> (r: Result<
    Vec<Secret>,
    SecretError,
>)
    ensures
        match secrets_of(text::views(specs@), text::views(allow_net@)) {
            Ok(all) => r matches Ok(v) && secret_views(v@) == all,
            Err(f) => r matches Err(e) && e@ == f,
        },
{
    let ghost all = text::views(specs@);
    let ghost nets = text::views(allow_net@);
    let mut out: Vec<Secret> = Vec::new();
    let mut i: usize = 0;
    assert(secret_views(out@) =~= seq![]);
    while i < specs.len()
        invariant
            i <= specs.len(),
            all == text::views(specs@),
            nets == text::views(allow_net@),
            secrets_of(all.take(i as int), nets) == Ok::<Seq<SecretV>, SecretFault>(
                secret_views(out@),
            ),
        decreases specs.len() - i,
    {
        let ghost before = secret_views(out@);
        assert(all.take(i + 1).drop_last() =~= all.take(i as int));
        assert(all.take(i + 1).last() == specs@[i as int]@);
        match parse_one_secret(specs[i].as_str(), allow_net) {
            Ok(s) => {
                let ghost sv = s@;
                out.push(s);
                assert(secret_views(out@) =~= before.push(sv));
            },
            Err(e) => {
                proof {
                    lemma_refusal_stays(all, nets, i + 1);
                }
                return Err(e);
            },
        }
        i = i + 1;
    }
    assert(all.take(specs.len() as int) =~= all);
    Ok(out)
}

/// A refusal among the first specifications is the refusal of them all.
proof fn lemma_refusal_stays(specs: Seq<Seq<char>>, allow_net: Seq<Seq<char>>, k: int)
    requires
        0 <= k <= specs.len(),
        secrets_of(specs.take(k), allow_net) is Err,
    ensures
        secrets_of(specs, allow_net) == secrets_of(specs.take(k), allow_net),
    decreases specs.len() - k,
{
    if k == specs.len() {
        assert(specs.take(k) =~= specs);
    } else {
        assert(specs.take(k + 1).drop_last() =~= specs.take(k));
        lemma_refusal_stays(specs, allow_net, k + 1);
    }
}

/// A secret that is accepted has a name, a value and at least one host.
pub proof fn law_accepted_secrets_are_complete(spec: Seq<char>, allow_net: Seq<Seq<char>>)
    ensures
        secret_of(spec, allow_net) matches Ok(s) ==> s.name.len() > 0 && s.value.len() > 0
            && s.hosts.len() > 0,
{
}

/// One secret for each specification, in order.
pub proof fn law_one_secret_per_spec(specs: Seq<Seq<char>>, allow_net: Seq<Seq<char>>)
    ensures
        secrets_of(specs, allow_net) matches Ok(all) ==> all.len() == specs.len() && forall|i: int|
            0 <= i < all.len() ==> secret_of(specs[i], allow_net) == Ok::<SecretV, SecretFault>(
                #[trigger] all[i],
            ),
    decreases specs.len(),
{
    if specs.len() > 0 {
        let before = specs.drop_last();
        law_one_secret_per_spec(before, allow_net);
        if secrets_of(specs, allow_net) is Ok {
            let all = secrets_of(specs, allow_net)->Ok_0;
            let fewer = secrets_of(before, allow_net)->Ok_0;
            assert forall|i: int| 0 <= i < all.len() implies secret_of(specs[i], allow_net) == Ok::<
                SecretV,
                SecretFault,
            >(#[trigger] all[i]) by {
                if i < fewer.len() {
                    assert(all[i] == fewer[i]);
                    assert(before[i] == specs[i]);
                }
            }
        }
    }
}

/// Whether a host can be named in a specification: not empty, without comma or
/// `@`, and without white space around it.
pub open spec fn plain_host(h: Seq<char>) -> bool {
    &&& h.len() > 0
    &&& !text::is_space(h[0])
    &&& !text::is_space(h.last())
    &&& forall|j: int| 0 <= j < h.len() ==> h[j] != ',' && h[j] != '@'
}

/// Plain hosts are kept as they are.
proof fn lemma_plain_hosts_kept(hosts: Seq<Seq<char>>)
    requires
        forall|i: int| 0 <= i < hosts.len() ==> plain_host(#[trigger] hosts[i]),
    ensures
        not_blank(hosts) == hosts,
    decreases hosts.len(),
{
    if hosts.len() > 0 {
        let before = hosts.drop_last();
        assert forall|i: int| 0 <= i < before.len() implies plain_host(#[trigger] before[i]) by {
            assert(before[i] == hosts[i]);
        }
        lemma_plain_hosts_kept(before);
        assert(plain_host(hosts[hosts.len() - 1]));
        text::lemma_trim_tight(hosts.last());
        assert(hosts =~= before.push(hosts.last()));
    } else {
        assert(not_blank(hosts) =~= hosts);
    }
}

/// No `@` among joined plain hosts.
proof fn lemma_joined_hosts_plain(hosts: Seq<Seq<char>>)
    requires
        forall|i: int| 0 <= i < hosts.len() ==> plain_host(#[trigger] hosts[i]),
    ensures
        forall|j: int|
            0 <= j < text::join(hosts, seq![',']).len() ==> text::join(hosts, seq![','])[j] != '@',
    decreases hosts.len(),
{
    if hosts.len() == 1 {
        assert(plain_host(hosts[0]));
    } else if hosts.len() > 1 {
        let before = hosts.drop_last();
        assert forall|i: int| 0 <= i < before.len() implies plain_host(#[trigger] before[i]) by {
            assert(before[i] == hosts[i]);
        }
        lemma_joined_hosts_plain(before);
        let last = hosts[hosts.len() - 1];
        assert(plain_host(last));
        let front = text::join(before, seq![',']);
        assert(text::join(hosts, seq![',']) == front + seq![','] + last);
        assert forall|j: int| 0 <= j < (front + seq![','] + last).len() implies (front + seq![',']
            + last)[j] != '@' by {
            if j < front.len() {
                assert((front + seq![','] + last)[j] == front[j]);
            } else if j > front.len() {
                assert((front + seq![','] + last)[j] == last[j - front.len() - 1]);
            }
        }
    }
}

/// `name=value@host1,host2` stands for exactly that name, that value and those
/// hosts. The value may hold `=` and `@`.
pub proof fn law_written_secret_reads_back(
    name: Seq<char>,
    value: Seq<char>,
    hosts: Seq<Seq<char>>,
    allow_net: Seq<Seq<char>>,
)
    requires
        name.len() > 0,
        value.len() > 0,
        hosts.len() > 0,
        forall|j: int| 0 <= j < name.len() ==> name[j] != '=',
        forall|i: int| 0 <= i < hosts.len() ==> plain_host(#[trigger] hosts[i]),
    ensures
        secret_of(
            name + seq!['='] + value + seq!['@'] + text::join(hosts, seq![',']),
            allow_net,
        ) == Ok::<SecretV, SecretFault>(SecretV { name, hosts, value }),
{
    let left = name + seq!['='] + value;
    let listed = text::join(hosts, seq![',']);
    let spec = left + seq!['@'] + listed;
    lemma_joined_hosts_plain(hosts);
    text::lemma_last_at(spec, '@');
    let k = left.len() as int;
    assert(spec[k] == '@');
    assert forall|j: int| k < j < spec.len() implies spec[j] != '@' by {
        assert(spec[j] == listed[j - k - 1]);
    }
    assert(text::last_at(spec, '@') == k);
    assert(spec.take(k) =~= left);
    assert(spec.skip(k + 1) =~= listed);
    text::lemma_first_at_is(left, '=', name.len() as int);
    assert(left.take(name.len() as int) =~= name);
    assert(left.skip(name.len() as int + 1) =~= value);
    assert forall|i: int, j: int|
        0 <= i < hosts.len() && 0 <= j < hosts[i].len() implies hosts[i][j] != ',' by {
        assert(plain_host(hosts[i]));
    }
    text::lemma_split_join(hosts, ',');
    lemma_plain_hosts_kept(hosts);
}

/// `name=value` without any `@` stands for that name and value, and goes to the
/// hosts that the guest may reach, or to all where that is not restricted.
pub proof fn law_bare_secret_goes_where_the_guest_may(
    name: Seq<char>,
    value: Seq<char>,
    allow_net: Seq<Seq<char>>,
)
    requires
        name.len() > 0,
        value.len() > 0,
        forall|j: int| 0 <= j < name.len() ==> name[j] != '=' && name[j] != '@',
        forall|j: int| 0 <= j < value.len() ==> value[j] != '@',
    ensures
        secret_of(name + seq!['='] + value, allow_net) == Ok::<SecretV, SecretFault>(
            SecretV {
                name,
                hosts: if allow_net.len() == 0 {
                    seq!["*"@]
                } else {
                    allow_net
                },
                value,
            },
        ),
{
    let spec = name + seq!['='] + value;
    text::lemma_last_at(spec, '@');
    text::lemma_first_at_is(spec, '=', name.len() as int);
    assert(spec.take(name.len() as int) =~= name);
    assert(spec.skip(name.len() as int + 1) =~= value);
}

/// A specification without `=` is malformed; one with nothing before the `=` or
/// nothing after it is empty; and one whose list of hosts holds none has no
/// hosts. Each refusal names what was given.
pub proof fn law_refused_specifications(
    name: Seq<char>,
    value: Seq<char>,
    allow_net: Seq<Seq<char>>,
)
    requires
        forall|j: int| 0 <= j < name.len() ==> #[trigger] name[j] != '=' && name[j] != '@',
        forall|j: int| 0 <= j < value.len() ==> #[trigger] value[j] != '@',
    ensures
        secret_of(name, allow_net) == Err::<SecretV, SecretFault>(SecretFault::Malformed(name)),
        name.len() == 0 || value.len() == 0 ==> secret_of(name + seq!['='] + value, allow_net)
            == Err::<SecretV, SecretFault>(SecretFault::Empty(name + seq!['='] + value)),
        name.len() > 0 && value.len() > 0 ==> {
            &&& secret_of(name + seq!['='] + value + seq!['@'], allow_net) == Err::<
                SecretV,
                SecretFault,
            >(SecretFault::NoHosts(name))
            &&& allow_net.len() == 0 ==> secret_of(name + seq!['='] + value, allow_net) == Ok::<
                SecretV,
                SecretFault,
            >(SecretV { name, hosts: seq!["*"@], value })
            &&& allow_net.len() > 0 ==> secret_of(name + seq!['='] + value, allow_net) == Ok::<
                SecretV,
                SecretFault,
            >(SecretV { name, hosts: allow_net, value })
        },
{
    let left = name + seq!['='] + value;
    let n = name.len() as int;
    text::law_cutting_undoes_joining(name, '@', seq![]);
    assert forall|j: int| 0 <= j < left.len() implies #[trigger] left[j] != '@' by {
        if j > n {
            assert(left[j] == value[j - n - 1]);
        } else if j < n {
            assert(left[j] == name[j]);
        }
    }
    text::law_cutting_undoes_joining(left, '@', seq![]);
    text::law_cutting_undoes_joining(name, '=', value);
    assert(left[n] == '=');
    assert(left + seq!['@'] =~= left + seq!['@'] + Seq::<char>::empty());
    if name.len() > 0 && value.len() > 0 {
        assert(text::rsplit_once(left + seq!['@'], '@') == Some((left, Seq::<char>::empty())));
        assert(text::has_char(left, '='));
        text::lemma_split_none(seq![], ',');
        reveal_with_fuel(not_blank, 2);
        assert(seq![Seq::<char>::empty()].drop_last() =~= Seq::<Seq<char>>::empty());
        assert(hosts_of(Some(Seq::<char>::empty()), allow_net).len() == 0);
    }
}

/// Hosts of a list are its pieces without the white space around them, in order
/// and none left out but the blank ones.
pub proof fn law_hosts_are_the_pieces_of_their_list(parts: Seq<Seq<char>>)
    ensures
        not_blank(parts) == Seq::new(parts.len(), |i: int| text::trim(parts[i])).filter(
            |p: Seq<char>| p.len() > 0,
        ),
    decreases parts.len(),
{
    reveal(Seq::filter);
    let all = Seq::new(parts.len(), |i: int| text::trim(parts[i]));
    if parts.len() > 0 {
        law_hosts_are_the_pieces_of_their_list(parts.drop_last());
        assert(all.drop_last() =~= Seq::new(
            parts.drop_last().len(),
            |i: int| text::trim(parts.drop_last()[i]),
        ));
    } else {
        assert(not_blank(parts) =~= all);
    }
}

/// A list of specifications stands for the secret of each of them, in order, or
/// is refused for the first of them that is.
pub proof fn law_secrets_come_in_order(specs: Seq<Seq<char>>, allow_net: Seq<Seq<char>>)
    ensures
        match secrets_of(specs, allow_net) {
            Ok(found) => found.len() == specs.len() && forall|i: int|
                0 <= i < specs.len() ==> secret_of(#[trigger] specs[i], allow_net) == Ok::<
                    SecretV,
                    SecretFault,
                >(found[i]),
            Err(e) => exists|k: int|
                0 <= k < specs.len() && secret_of(#[trigger] specs[k], allow_net) == Err::<
                    SecretV,
                    SecretFault,
                >(e) && forall|j: int| 0 <= j < k ==> secret_of(#[trigger] specs[j], allow_net) is Ok,
        },
    decreases specs.len(),
{
    if specs.len() > 0 {
        let before = specs.drop_last();
        let n = specs.len() - 1;
        law_secrets_come_in_order(before, allow_net);
        match secrets_of(before, allow_net) {
            Ok(found) => {
                assert forall|i: int| 0 <= i < n implies secret_of(#[trigger] specs[i], allow_net)
                    == Ok::<SecretV, SecretFault>(found[i]) by {
                    assert(before[i] == specs[i]);
                }
                assert(specs[n] == specs.last());
            },
            Err(e) => {
                let k = choose|k: int|
                    0 <= k < before.len() && secret_of(#[trigger] before[k], allow_net) == Err::<
                        SecretV,
                        SecretFault,
                    >(e) && forall|j: int|
                        0 <= j < k ==> secret_of(#[trigger] before[j], allow_net) is Ok;
                assert(specs[k] == before[k]);
                assert forall|j: int| 0 <= j < k implies secret_of(
                    #[trigger] specs[j],
                    allow_net,
                ) is Ok by {
                    assert(before[j] == specs[j]);
                }
            },
        }
    }
}

/// A refusal is told with what was given: a specification in quotes at its
/// beginning, and a secret without hosts by its name.
pub proof fn law_refusals_name_what_was_given(f: SecretFault)
    ensures
        f matches SecretFault::Malformed(s) ==> fault_text(f) == "invalid --secret "@
            + text::debug_form(s) + "; expected name=value or name=value@host1,host2"@,
        f matches SecretFault::Empty(s) ==> fault_text(f) == "invalid --secret "@
            + text::debug_form(s) + ": name and value must be non-empty"@,
        f matches SecretFault::NoHosts(n) ==> text::starts_with(fault_text(f), "--secret "@ + n),
{
    match f {
        SecretFault::NoHosts(n) => {
            let a = "--secret "@ + n;
            assert(fault_text(f).take(a.len() as int) =~= a);
        },
        _ => {},
    }
}

/// An `@` before the first `=` belongs to the name: hosts come after a value.
pub proof fn law_at_sign_in_a_name_names_no_hosts(
    name: Seq<char>,
    value: Seq<char>,
    allow_net: Seq<Seq<char>>,
)
    requires
        name.len() > 0,
        value.len() > 0,
        forall|j: int| 0 <= j < name.len() ==> #[trigger] name[j] != '=',
        forall|j: int| 0 <= j < value.len() ==> #[trigger] value[j] != '@',
    ensures
        secret_of(name + seq!['='] + value, allow_net) == Ok::<SecretV, SecretFault>(
            SecretV {
                name,
                hosts: if allow_net.len() == 0 {
                    seq!["*"@]
                } else {
                    allow_net
                },
                value,
            },
        ),
{
    let s = name + seq!['='] + value;
    let n = name.len() as int;
    text::law_cutting_undoes_joining(name, '=', value);
    text::lemma_last_at(s, '@');
    let k = text::last_at(s, '@');
    if k >= 0 {
        if k > n {
            assert(s[k] == value[k - n - 1]);
        }
        assert(s[n] == '=');
        assert(k < n);
        let l = s.take(k);
        assert forall|j: int| 0 <= j < l.len() implies #[trigger] l[j] != '=' by {
            assert(l[j] == name[j]);
        }
        text::lemma_first_at_is(l, '=', l.len() as int);
    }
    assert(parts_of(s) == (s, None::<Seq<char>>));
}

} // verus!
