//! Settings of the gvproxy network backend.

use vstd::prelude::*;
use crate::json;
use crate::json::Json;
use crate::text;

verus! {

/// Subnet of the virtual network.
pub const SUBNET: &'static str = "192.168.127.0/24";

/// Address of the gateway.
pub const GATEWAY_IP: &'static str = "192.168.127.1";

/// Address of the guest.
pub const GUEST_IP: &'static str = "192.168.127.2";

/// Largest packet, unless another is set.
pub const DEFAULT_MTU: u16 = 1500;

/// A zone that the gateway's name server answers for.
#[derive(Debug, Clone)]
pub struct DnsZone {
    /// Name of the zone.
    pub name: String,
    /// Address for names that the zone does not hold.
    pub default_ip: String,
}

/// A host port and the guest port behind it.
#[derive(Debug, Clone, Copy, PartialEq, Eq, Structural)]
pub struct PortMapping {
    /// Port on the host.
    pub host_port: u16,
    /// Port in the guest.
    pub guest_port: u16,
}

/// A secret that the host puts in place of a placeholder in guest traffic.
#[derive(Clone)]
pub struct SecretConfig {
    /// Name.
    pub name: String,
    /// Hosts that it is for.
    pub hosts: Vec<String>,
    /// What stands for it in guest traffic.
    pub placeholder: String,
    /// Value, which never enters the guest and is never shown.
    pub value: String,
}

/// A list of texts, each quoted.
pub open spec fn quoted_list(v: Seq<Seq<char>>) -> Seq<char> {
    "["@ + text::join(Seq::new(v.len(), |i: int| text::debug_form(v[i])), ", "@) + "]"@
}

/// How a secret is shown: without its value.
pub open spec fn shown_secret(
    name: Seq<char>,
    hosts: Seq<Seq<char>>,
    placeholder: Seq<char>,
) -> Seq<char> {
    "SecretConfig { name: "@ + text::debug_form(name) + ", hosts: "@ + quoted_list(hosts)
        + ", placeholder: "@ + text::debug_form(placeholder) + ", value: "@ + text::quoted(
        "[REDACTED]"@,
    ) + " }"@
}

/// Quotes each text of a list.
fn quote_all(v: &Vec<String>) -> (r: Vec<String>)
    ensures
        text::views(r@) == Seq::new(
            v@.len(),
            |i: int| text::debug_form(text::views(v@)[i]),
        ),
{
    let ghost all = Seq::new(v@.len(), |i: int| text::debug_form(text::views(v@)[i]));
    let mut out: Vec<String> = Vec::new();
    let mut i: usize = 0;
    assert(text::views(out@) =~= all.take(0));
    while i < v.len()
        invariant
            i <= v.len(),
            all == Seq::new(v@.len(), |i: int| text::debug_form(text::views(v@)[i])),
            text::views(out@) == all.take(i as int),
        decreases v.len() - i,
    {
        let ghost before = text::views(out@);
        out.push(text::debug_of(v[i].as_str()));
        assert(text::views(out@) =~= before.push(all[i as int]));
        assert(all.take(i + 1) =~= before.push(all[i as int]));
        i = i + 1;
    }
    assert(all.take(v.len() as int) =~= all);
    out
}

impl SecretConfig {
    /// Shows the secret without its value.
    pub fn debug_text(&self) -> (r: String)
        ensures
            r@ == shown_secret(self.name@, text::views(self.hosts@), self.placeholder@),
    {
        let name = text::debug_of(self.name.as_str());
        let quoted = quote_all(&self.hosts);
        let joined = text::join_from(&quoted, 0, ", ");
        proof {
            assert(text::views(quoted@).skip(0) =~= text::views(quoted@));
            assert(text::views(quoted@) =~= Seq::new(
                text::views(self.hosts@).len(),
                |i: int| text::debug_form(text::views(self.hosts@)[i]),
            ));
        }
        let hosts = text::cat3("[", joined.as_str(), "]");
        let placeholder = text::debug_of(self.placeholder.as_str());
        proof {
            reveal_strlit("[REDACTED]");
        }
        let value = text::debug_of("[REDACTED]");
        let a = text::cat3("SecretConfig { name: ", name.as_str(), ", hosts: ");
        let b = text::cat3(a.as_str(), hosts.as_str(), ", placeholder: ");
        let c = text::cat3(b.as_str(), placeholder.as_str(), ", value: ");
        text::cat3(c.as_str(), value.as_str(), " }")
    }
}

/// What is shown of a secret is the same whatever its value, and says that the
/// value is left out.
pub proof fn law_value_is_never_shown(a: SecretConfig, b: SecretConfig)
    requires
        a.name@ == b.name@,
        text::views(a.hosts@) == text::views(b.hosts@),
        a.placeholder@ == b.placeholder@,
    ensures
        shown_secret(a.name@, text::views(a.hosts@), a.placeholder@) == shown_secret(
            b.name@,
            text::views(b.hosts@),
            b.placeholder@,
        ),
        text::holds(
            shown_secret(a.name@, text::views(a.hosts@), a.placeholder@),
            "[REDACTED]"@,
        ),
{
    let shown = shown_secret(a.name@, text::views(a.hosts@), a.placeholder@);
    let head = "SecretConfig { name: "@ + text::debug_form(a.name@) + ", hosts: "@ + quoted_list(
        text::views(a.hosts@),
    ) + ", placeholder: "@ + text::debug_form(a.placeholder@) + ", value: "@ + seq!['"'];
    let tail = seq!['"'] + " }"@;
    assert(shown =~= head + "[REDACTED]"@ + tail);
}

/// What the two ends of the virtual link are given.
#[derive(Debug)]
pub struct LinkDefaults {
    /// Hardware address of the gateway.
    pub gateway_mac: String,
    /// Hardware address of the guest.
    pub guest_mac: String,
    /// Search domains of the guest.
    pub dns_search_domains: Vec<String>,
}

/// Settings of a virtual network.
#[derive(Clone)]
pub struct GvproxyConfig {
    /// Socket of the network's tap interface.
    pub socket_path: String,
    /// Subnet.
    pub subnet: String,
    /// Address of the gateway.
    pub gateway_ip: String,
    /// Hardware address of the gateway.
    pub gateway_mac: String,
    /// Address of the guest.
    pub guest_ip: String,
    /// Hardware address of the guest.
    pub guest_mac: String,
    /// Largest packet.
    pub mtu: u16,
    /// Ports that are forwarded.
    pub port_mappings: Vec<PortMapping>,
    /// Zones of the gateway's name server.
    pub dns_zones: Vec<DnsZone>,
    /// Search domains of the guest.
    pub dns_search_domains: Vec<String>,
    /// Whether to log verbosely.
    pub debug: bool,
    /// File for captured packets.
    pub capture_file: Option<String>,
    /// Hosts and networks that the guest may reach; empty for all.
    pub allow_net: Vec<String>,
    /// Secrets to substitute; empty for none.
    pub secrets: Vec<SecretConfig>,
    /// Certificate of the substituting proxy; empty without secrets.
    pub ca_cert_pem: String,
    /// Private key of the substituting proxy; empty without secrets.
    pub ca_key_pem: String,
}

/// The mappings of a list of host and guest ports.
pub open spec fn mappings(ports: Seq<(u16, u16)>) -> Seq<PortMapping> {
    Seq::new(
        ports.len(),
        |i: int| PortMapping { host_port: ports[i].0, guest_port: ports[i].1 },
    )
}

impl GvproxyConfig {
    /// Settings with the usual network. `capture` is the value of
    /// `BUX_GVPROXY_CAPTURE_FILE`: unless it is empty, packets are captured to
    /// that file and logging is verbose.
    pub fn new(
        socket_path: String,
        port_mappings: Vec<(u16, u16)>,
        link: LinkDefaults,
        capture: Option<String>,
    ) -> (r: Self)
        ensures
            r.socket_path == socket_path,
            r.subnet@ == SUBNET@,
            r.gateway_ip@ == GATEWAY_IP@,
            r.gateway_mac == link.gateway_mac,
            r.guest_ip@ == GUEST_IP@,
            r.guest_mac == link.guest_mac,
            r.mtu == DEFAULT_MTU,
            r.port_mappings@ == mappings(port_mappings@),
            r.dns_zones@.len() == 0,
            r.dns_search_domains == link.dns_search_domains,
            r.debug == (capture is Some && capture->0@.len() > 0),
            r.capture_file == (if capture is Some && capture->0@.len() > 0 {
                capture
            } else {
                None
            }),
            r.allow_net@.len() == 0,
            r.secrets@.len() == 0,
            r.ca_cert_pem@.len() == 0,
            r.ca_key_pem@.len() == 0,
    {
        let mut list: Vec<PortMapping> = Vec::new();
        let mut i: usize = 0;
        let ghost all = mappings(port_mappings@);
        assert(list@ =~= all.take(0));
        while i < port_mappings.len()
            invariant
                i <= port_mappings.len(),
                all == mappings(port_mappings@),
                list@ == all.take(i as int),
            decreases port_mappings.len() - i,
        {
            let (host_port, guest_port) = port_mappings[i];
            let ghost before = list@;
            list.push(PortMapping { host_port, guest_port });
            assert(list@ =~= before.push(all[i as int]));
            assert(all.take(i + 1) =~= before.push(all[i as int]));
            i = i + 1;
        }
        assert(all.take(port_mappings.len() as int) =~= all);
        let capture_file = match capture {
            Some(path) => {
                if path.as_str().is_empty() {
                    None
                } else {
                    Some(path)
                }
            },
            None => None,
        };
        let debug = capture_file.is_some();
        GvproxyConfig {
            socket_path,
            subnet: SUBNET.to_owned(),
            gateway_ip: GATEWAY_IP.to_owned(),
            gateway_mac: link.gateway_mac,
            guest_ip: GUEST_IP.to_owned(),
            guest_mac: link.guest_mac,
            mtu: DEFAULT_MTU,
            port_mappings: list,
            dns_zones: Vec::new(),
            dns_search_domains: link.dns_search_domains,
            debug,
            capture_file,
            allow_net: Vec::new(),
            secrets: Vec::new(),
            ca_cert_pem: String::new(),
            ca_key_pem: String::new(),
        }
    }

    /// Sets whether to log verbosely.
    pub fn with_debug(self, debug: bool) -> (r: Self)
        ensures
            r == (GvproxyConfig { debug, ..self }),
    {
        GvproxyConfig { debug, ..self }
    }

    /// Sets the zones of the gateway's name server.
    pub fn with_dns_zones(self, zones: Vec<DnsZone>) -> (r: Self)
        ensures
            r == (GvproxyConfig { dns_zones: zones, ..self }),
    {
        GvproxyConfig { dns_zones: zones, ..self }
    }

    /// Sets the largest packet.
    pub fn with_mtu(self, mtu: u16) -> (r: Self)
        ensures
            r == (GvproxyConfig { mtu, ..self }),
    {
        GvproxyConfig { mtu, ..self }
    }

    /// Captures packets to a file.
    pub fn with_capture_file(self, path: String) -> (r: Self)
        ensures
            r == (GvproxyConfig { capture_file: Some(path), ..self }),
    {
        GvproxyConfig { capture_file: Some(path), ..self }
    }

    /// Sets the hosts and networks that the guest may reach; empty for all.
    pub fn with_allow_net(self, allow_net: Vec<String>) -> (r: Self)
        ensures
            r == (GvproxyConfig { allow_net, ..self }),
    {
        GvproxyConfig { allow_net, ..self }
    }

    /// Sets the secrets to substitute, and the certificate and key of the proxy
    /// that does it.
    pub fn with_secrets(
        self,
        secrets: Vec<SecretConfig>,
        ca_cert_pem: String,
        ca_key_pem: String,
    ) -> (r: Self)
        ensures
            r == (GvproxyConfig { secrets, ca_cert_pem, ca_key_pem, ..self }),
    {
        GvproxyConfig { secrets, ca_cert_pem, ca_key_pem, ..self }
    }
}

// ---------------------------------------------------------------------------
// Settings as JSON
// ---------------------------------------------------------------------------

/// A [`SecretConfig`] with its texts.
pub struct SecretConfigV {
    pub name: Seq<char>,
    pub hosts: Seq<Seq<char>>,
    pub placeholder: Seq<char>,
    pub value: Seq<char>,
}

impl View for SecretConfig {
    type V = SecretConfigV;

    open spec fn view(&self) -> SecretConfigV {
        SecretConfigV {
            name: self.name@,
            hosts: text::views(self.hosts@),
            placeholder: self.placeholder@,
            value: self.value@,
        }
    }
}

/// A [`GvproxyConfig`] with its texts.
#[verifier::ext_equal]
pub struct GvproxyConfigV {
    pub socket_path: Seq<char>,
    pub subnet: Seq<char>,
    pub gateway_ip: Seq<char>,
    pub gateway_mac: Seq<char>,
    pub guest_ip: Seq<char>,
    pub guest_mac: Seq<char>,
    pub mtu: u16,
    pub port_mappings: Seq<PortMapping>,
    pub dns_zones: Seq<(Seq<char>, Seq<char>)>,
    pub dns_search_domains: Seq<Seq<char>>,
    pub debug: bool,
    pub capture_file: Option<Seq<char>>,
    pub allow_net: Seq<Seq<char>>,
    pub secrets: Seq<SecretConfigV>,
    pub ca_cert_pem: Seq<char>,
    pub ca_key_pem: Seq<char>,
}

impl View for GvproxyConfig {
    type V = GvproxyConfigV;

    open spec fn view(&self) -> GvproxyConfigV {
        GvproxyConfigV {
            socket_path: self.socket_path@,
            subnet: self.subnet@,
            gateway_ip: self.gateway_ip@,
            gateway_mac: self.gateway_mac@,
            guest_ip: self.guest_ip@,
            guest_mac: self.guest_mac@,
            mtu: self.mtu,
            port_mappings: self.port_mappings@,
            dns_zones: Seq::new(
                self.dns_zones@.len(),
                |i: int| (self.dns_zones@[i].name@, self.dns_zones@[i].default_ip@),
            ),
            dns_search_domains: text::views(self.dns_search_domains@),
            debug: self.debug,
            capture_file: text::opt_view(self.capture_file),
            allow_net: text::views(self.allow_net@),
            secrets: Seq::new(self.secrets@.len(), |i: int| self.secrets@[i]@),
            ca_cert_pem: self.ca_cert_pem@,
            ca_key_pem: self.ca_key_pem@,
        }
    }
}

/// A list of texts.
pub open spec fn texts_json(v: Seq<Seq<char>>) -> Json {
    Json::List(Seq::new(v.len(), |i: int| Json::Text(v[i])))
}

/// A port mapping.
pub open spec fn mapping_json(p: PortMapping) -> Json {
    Json::Object(
        Map::empty().insert("host_port"@, Json::Number(p.host_port as u64)).insert(
            "guest_port"@,
            Json::Number(p.guest_port as u64),
        ),
    )
}

/// A zone.
pub open spec fn zone_json(z: (Seq<char>, Seq<char>)) -> Json {
    Json::Object(
        Map::empty().insert("name"@, Json::Text(z.0)).insert("default_ip"@, Json::Text(z.1)),
    )
}

/// A secret, with its value.
pub open spec fn secret_json(s: SecretConfigV) -> Json {
    Json::Object(
        Map::empty().insert("name"@, Json::Text(s.name)).insert("hosts"@, texts_json(s.hosts)).insert(
            "placeholder"@,
            Json::Text(s.placeholder),
        ).insert("value"@, Json::Text(s.value)),
    )
}

/// Addresses of the two ends, which are always written.
pub open spec fn link_fields(c: GvproxyConfigV) -> Map<Seq<char>, Json> {
    Map::empty().insert("socket_path"@, Json::Text(c.socket_path)).insert(
        "subnet"@,
        Json::Text(c.subnet),
    ).insert("gateway_ip"@, Json::Text(c.gateway_ip)).insert(
        "gateway_mac"@,
        Json::Text(c.gateway_mac),
    ).insert("guest_ip"@, Json::Text(c.guest_ip)).insert("guest_mac"@, Json::Text(c.guest_mac))
}

/// All settings that are always written.
pub open spec fn fixed_fields(c: GvproxyConfigV) -> Map<Seq<char>, Json> {
    link_fields(c).insert("mtu"@, Json::Number(c.mtu as u64)).insert(
        "port_mappings"@,
        Json::List(Seq::new(c.port_mappings.len(), |i: int| mapping_json(c.port_mappings[i]))),
    ).insert(
        "dns_zones"@,
        Json::List(Seq::new(c.dns_zones.len(), |i: int| zone_json(c.dns_zones[i]))),
    ).insert("dns_search_domains"@, texts_json(c.dns_search_domains)).insert(
        "debug"@,
        Json::Bool(c.debug),
    )
}

/// A field that is written only where there is something to write.
pub open spec fn put_if(m: Map<Seq<char>, Json>, there: bool, name: Seq<char>, j: Json) -> Map<
    Seq<char>,
    Json,
> {
    if there {
        m.insert(name, j)
    } else {
        m
    }
}

/// All settings: what is empty, or not set, is left out.
pub open spec fn settings_fields(c: GvproxyConfigV) -> Map<Seq<char>, Json> {
    let m = put_if(
        fixed_fields(c),
        c.capture_file is Some,
        "capture_file"@,
        Json::Text(c.capture_file->0),
    );
    let m = put_if(m, c.allow_net.len() > 0, "allow_net"@, texts_json(c.allow_net));
    let m = put_if(
        m,
        c.secrets.len() > 0,
        "secrets"@,
        Json::List(Seq::new(c.secrets.len(), |i: int| secret_json(c.secrets[i]))),
    );
    let m = put_if(m, c.ca_cert_pem.len() > 0, "ca_cert_pem"@, Json::Text(c.ca_cert_pem));
    put_if(m, c.ca_key_pem.len() > 0, "ca_key_pem"@, Json::Text(c.ca_key_pem))
}

/// Length and first letter tell the names of settings apart.
proof fn lemma_names()
    ensures
        "socket_path"@.len() == 11 && "socket_path"@[0] == 's',
        "subnet"@.len() == 6,
        "gateway_ip"@.len() == 10 && "gateway_ip"@[0] == 'g',
        "gateway_mac"@.len() == 11 && "gateway_mac"@[0] == 'g',
        "guest_ip"@.len() == 8,
        "guest_mac"@.len() == 9 && "guest_mac"@[0] == 'g',
        "mtu"@.len() == 3,
        "port_mappings"@.len() == 13,
        "dns_zones"@.len() == 9 && "dns_zones"@[0] == 'd',
        "dns_search_domains"@.len() == 18,
        "debug"@.len() == 5,
        "capture_file"@.len() == 12,
        "allow_net"@.len() == 9 && "allow_net"@[0] == 'a',
        "secrets"@.len() == 7,
        "ca_cert_pem"@.len() == 11 && "ca_cert_pem"@[0] == 'c',
        "ca_key_pem"@.len() == 10 && "ca_key_pem"@[0] == 'c',
{
    reveal_strlit("socket_path");
    reveal_strlit("subnet");
    reveal_strlit("gateway_ip");
    reveal_strlit("gateway_mac");
    reveal_strlit("guest_ip");
    reveal_strlit("guest_mac");
    reveal_strlit("mtu");
    reveal_strlit("port_mappings");
    reveal_strlit("dns_zones");
    reveal_strlit("dns_search_domains");
    reveal_strlit("debug");
    reveal_strlit("capture_file");
    reveal_strlit("allow_net");
    reveal_strlit("secrets");
    reveal_strlit("ca_cert_pem");
    reveal_strlit("ca_key_pem");
}

/// The names in a port mapping, a zone and a secret.
proof fn lemma_part_names()
    ensures
        "host_port"@.len() == 9,
        "guest_port"@.len() == 10,
        "name"@.len() == 4,
        "default_ip"@.len() == 10,
        "hosts"@.len() == 5 && "hosts"@[0] == 'h',
        "placeholder"@.len() == 11,
        "value"@.len() == 5 && "value"@[0] == 'v',
{
    reveal_strlit("host_port");
    reveal_strlit("guest_port");
    reveal_strlit("name");
    reveal_strlit("default_ip");
    reveal_strlit("hosts");
    reveal_strlit("placeholder");
    reveal_strlit("value");
}

/// A list of texts.
fn texts_value(v: &Vec<String>) -> (r: serde_json::Value)
    ensures
        json::json_of(r) == texts_json(text::views(v@)),
{
    let mut out: Vec<serde_json::Value> = Vec::new();
    let mut i: usize = 0;
    while i < v.len()
        invariant
            i <= v.len(),
            out@.len() == i,
            forall|j: int| 0 <= j < i ==> json::json_of(#[trigger] out@[j]) == Json::Text(v@[j]@),
        decreases v.len() - i,
    {
        out.push(json::text(v[i].as_str()));
        i = i + 1;
    }
    assert(json::list_of(out@) =~= Seq::new(
        text::views(v@).len(),
        |i: int| Json::Text(text::views(v@)[i]),
    ));
    json::list(out)
}

/// A port mapping.
fn mapping_value(p: PortMapping) -> (r: serde_json::Value)
    ensures
        json::json_of(r) == mapping_json(p),
{
    proof {
        lemma_part_names();
    }
    let mut f: Vec<(String, serde_json::Value)> = Vec::new();
    assert(json::object_of(f@) =~= Map::empty());
    json::put(&mut f, "host_port", json::number(p.host_port as u64));
    json::put(&mut f, "guest_port", json::number(p.guest_port as u64));
    json::object(f)
}

/// A zone.
fn zone_value(z: &DnsZone) -> (r: serde_json::Value)
    ensures
        json::json_of(r) == zone_json((z.name@, z.default_ip@)),
{
    proof {
        lemma_part_names();
    }
    let mut f: Vec<(String, serde_json::Value)> = Vec::new();
    assert(json::object_of(f@) =~= Map::empty());
    json::put(&mut f, "name", json::text(z.name.as_str()));
    json::put(&mut f, "default_ip", json::text(z.default_ip.as_str()));
    json::object(f)
}

/// A secret.
fn secret_value(s: &SecretConfig) -> (r: serde_json::Value)
    ensures
        json::json_of(r) == secret_json(s@),
{
    proof {
        lemma_part_names();
    }
    let mut f: Vec<(String, serde_json::Value)> = Vec::new();
    assert(json::object_of(f@) =~= Map::empty());
    json::put(&mut f, "name", json::text(s.name.as_str()));
    json::put(&mut f, "hosts", texts_value(&s.hosts));
    json::put(&mut f, "placeholder", json::text(s.placeholder.as_str()));
    json::put(&mut f, "value", json::text(s.value.as_str()));
    json::object(f)
}

impl GvproxyConfig {
    /// The port mappings.
    fn mappings_value(&self) -> (r: serde_json::Value)
        ensures
            json::json_of(r) == Json::List(
                Seq::new(self@.port_mappings.len(), |i: int| mapping_json(self@.port_mappings[i])),
            ),
    {
        let mut out: Vec<serde_json::Value> = Vec::new();
        let mut i: usize = 0;
        while i < self.port_mappings.len()
            invariant
                i <= self.port_mappings.len(),
                out@.len() == i,
                forall|j: int|
                    0 <= j < i ==> json::json_of(#[trigger] out@[j]) == mapping_json(
                        self.port_mappings@[j],
                    ),
            decreases self.port_mappings.len() - i,
        {
            out.push(mapping_value(self.port_mappings[i]));
            i = i + 1;
        }
        assert(json::list_of(out@) =~= Seq::new(
            self@.port_mappings.len(),
            |i: int| mapping_json(self@.port_mappings[i]),
        ));
        json::list(out)
    }

    /// The zones.
    fn zones_value(&self) -> (r: serde_json::Value)
        ensures
            json::json_of(r) == Json::List(
                Seq::new(self@.dns_zones.len(), |i: int| zone_json(self@.dns_zones[i])),
            ),
    {
        let mut out: Vec<serde_json::Value> = Vec::new();
        let mut i: usize = 0;
        while i < self.dns_zones.len()
            invariant
                i <= self.dns_zones.len(),
                out@.len() == i,
                forall|j: int|
                    0 <= j < i ==> json::json_of(#[trigger] out@[j]) == zone_json(
                        self@.dns_zones[j],
                    ),
            decreases self.dns_zones.len() - i,
        {
            out.push(zone_value(&self.dns_zones[i]));
            i = i + 1;
        }
        assert(json::list_of(out@) =~= Seq::new(
            self@.dns_zones.len(),
            |i: int| zone_json(self@.dns_zones[i]),
        ));
        json::list(out)
    }

    /// The secrets.
    fn secrets_value(&self) -> (r: serde_json::Value)
        ensures
            json::json_of(r) == Json::List(
                Seq::new(self@.secrets.len(), |i: int| secret_json(self@.secrets[i])),
            ),
    {
        let mut out: Vec<serde_json::Value> = Vec::new();
        let mut i: usize = 0;
        while i < self.secrets.len()
            invariant
                i <= self.secrets.len(),
                out@.len() == i,
                forall|j: int|
                    0 <= j < i ==> json::json_of(#[trigger] out@[j]) == secret_json(
                        self@.secrets[j],
                    ),
            decreases self.secrets.len() - i,
        {
            out.push(secret_value(&self.secrets[i]));
            i = i + 1;
        }
        assert(json::list_of(out@) =~= Seq::new(
            self@.secrets.len(),
            |i: int| secret_json(self@.secrets[i]),
        ));
        json::list(out)
    }

    /// Fields for the settings that are always written.
    fn fixed_values(&self) -> (f: Vec<(String, serde_json::Value)>)
        ensures
            json::names_differ(f@),
            json::object_of(f@) == fixed_fields(self@),
    {
        proof {
            lemma_names();
        }
        let mut f: Vec<(String, serde_json::Value)> = Vec::new();
        assert(json::object_of(f@) =~= Map::empty());
        json::put(&mut f, "socket_path", json::text(self.socket_path.as_str()));
        json::put(&mut f, "subnet", json::text(self.subnet.as_str()));
        json::put(&mut f, "gateway_ip", json::text(self.gateway_ip.as_str()));
        json::put(&mut f, "gateway_mac", json::text(self.gateway_mac.as_str()));
        json::put(&mut f, "guest_ip", json::text(self.guest_ip.as_str()));
        json::put(&mut f, "guest_mac", json::text(self.guest_mac.as_str()));
        assert(json::object_of(f@) == link_fields(self@));
        json::put(&mut f, "mtu", json::number(self.mtu as u64));
        json::put(&mut f, "port_mappings", self.mappings_value());
        json::put(&mut f, "dns_zones", self.zones_value());
        json::put(&mut f, "dns_search_domains", texts_value(&self.dns_search_domains));
        json::put(&mut f, "debug", json::truth(self.debug));
        f
    }

    /// The settings as JSON, for the network backend. Empty lists and texts of
    /// the optional settings are left out.
    pub fn to_json(&self) -> (r: String)
        ensures
            json::read_json(r@) == Some(Json::Object(settings_fields(self@))),
    {
        let mut f = self.fixed_values();
        proof {
            lemma_names();
        }
        match &self.capture_file {
            Some(path) => {
                json::put(&mut f, "capture_file", json::text(path.as_str()));
            },
            None => {},
        }
        if self.allow_net.len() > 0 {
            json::put(&mut f, "allow_net", texts_value(&self.allow_net));
        }
        if self.secrets.len() > 0 {
            json::put(&mut f, "secrets", self.secrets_value());
        }
        if !self.ca_cert_pem.as_str().is_empty() {
            json::put(&mut f, "ca_cert_pem", json::text(self.ca_cert_pem.as_str()));
        }
        if !self.ca_key_pem.as_str().is_empty() {
            json::put(&mut f, "ca_key_pem", json::text(self.ca_key_pem.as_str()));
        }
        let all = json::object(f);
        json::write(&all)
    }
}

/// The optional settings are written exactly where they are not empty.
pub proof fn law_empty_settings_are_left_out(c: GvproxyConfigV)
    ensures
        settings_fields(c).dom().contains("capture_file"@) <==> c.capture_file is Some,
        settings_fields(c).dom().contains("allow_net"@) <==> c.allow_net.len() > 0,
        settings_fields(c).dom().contains("secrets"@) <==> c.secrets.len() > 0,
        settings_fields(c).dom().contains("ca_cert_pem"@) <==> c.ca_cert_pem.len() > 0,
        settings_fields(c).dom().contains("ca_key_pem"@) <==> c.ca_key_pem.len() > 0,
{
    lemma_names();
}

/// The text of a field; empty where there is none.
pub open spec fn text_at(m: Map<Seq<char>, Json>, name: Seq<char>) -> Seq<char> {
    if m.dom().contains(name) && m[name] is Text {
        m[name]->Text_0
    } else {
        seq![]
    }
}

/// The number of a field, as one of 16 bits.
pub open spec fn number_at(m: Map<Seq<char>, Json>, name: Seq<char>) -> u16 {
    m[name]->Number_0 as u16
}

/// The list of a field; empty where there is none.
pub open spec fn list_at(m: Map<Seq<char>, Json>, name: Seq<char>) -> Seq<Json> {
    if m.dom().contains(name) && m[name] is List {
        m[name]->List_0
    } else {
        seq![]
    }
}

/// The texts of a field; empty where there are none.
pub open spec fn texts_at(m: Map<Seq<char>, Json>, name: Seq<char>) -> Seq<Seq<char>> {
    Seq::new(list_at(m, name).len(), |i: int| list_at(m, name)[i]->Text_0)
}

/// The port mapping that an object says.
pub open spec fn mapping_in(j: Json) -> PortMapping {
    PortMapping {
        host_port: number_at(j->Object_0, "host_port"@),
        guest_port: number_at(j->Object_0, "guest_port"@),
    }
}

/// The zone that an object says.
pub open spec fn zone_in(j: Json) -> (Seq<char>, Seq<char>) {
    (text_at(j->Object_0, "name"@), text_at(j->Object_0, "default_ip"@))
}

/// The secret that an object says.
pub open spec fn secret_in(j: Json) -> SecretConfigV {
    SecretConfigV {
        name: text_at(j->Object_0, "name"@),
        hosts: texts_at(j->Object_0, "hosts"@),
        placeholder: text_at(j->Object_0, "placeholder"@),
        value: text_at(j->Object_0, "value"@),
    }
}

/// The settings that an object says: each is that of its name, and an optional
/// one that is left out is empty.
pub open spec fn settings_in(m: Map<Seq<char>, Json>) -> GvproxyConfigV {
    GvproxyConfigV {
        socket_path: text_at(m, "socket_path"@),
        subnet: text_at(m, "subnet"@),
        gateway_ip: text_at(m, "gateway_ip"@),
        gateway_mac: text_at(m, "gateway_mac"@),
        guest_ip: text_at(m, "guest_ip"@),
        guest_mac: text_at(m, "guest_mac"@),
        mtu: number_at(m, "mtu"@),
        port_mappings: Seq::new(
            list_at(m, "port_mappings"@).len(),
            |i: int| mapping_in(list_at(m, "port_mappings"@)[i]),
        ),
        dns_zones: Seq::new(
            list_at(m, "dns_zones"@).len(),
            |i: int| zone_in(list_at(m, "dns_zones"@)[i]),
        ),
        dns_search_domains: texts_at(m, "dns_search_domains"@),
        debug: m["debug"@]->Bool_0,
        capture_file: if m.dom().contains("capture_file"@) {
            Some(text_at(m, "capture_file"@))
        } else {
            None
        },
        allow_net: texts_at(m, "allow_net"@),
        secrets: Seq::new(
            list_at(m, "secrets"@).len(),
            |i: int| secret_in(list_at(m, "secrets"@)[i]),
        ),
        ca_cert_pem: text_at(m, "ca_cert_pem"@),
        ca_key_pem: text_at(m, "ca_key_pem"@),
    }
}

/// A zone and a port mapping read back.
proof fn lemma_parts_read_back(p: PortMapping, z: (Seq<char>, Seq<char>))
    ensures
        mapping_in(mapping_json(p)) == p,
        zone_in(zone_json(z)) == z,
{
    lemma_part_names();
}

/// A secret reads back, with its value.
proof fn lemma_secret_reads_back(s: SecretConfigV)
    ensures
        secret_in(secret_json(s)) == s,
{
    lemma_part_names();
    assert(secret_in(secret_json(s)).hosts =~= s.hosts);
}

/// What is written of settings reads back as the same settings, values of
/// secrets and all.
pub proof fn law_settings_read_back(c: GvproxyConfigV)
    ensures
        settings_in(settings_fields(c)) == c,
{
    lemma_names();
    let m = settings_fields(c);
    let d = settings_in(m);
    assert forall|i: int| 0 <= i < c.port_mappings.len() implies mapping_in(
        #[trigger] mapping_json(c.port_mappings[i]),
    ) == c.port_mappings[i] by {
        lemma_parts_read_back(c.port_mappings[i], (seq![], seq![]));
    }
    assert forall|i: int| 0 <= i < c.dns_zones.len() implies zone_in(
        #[trigger] zone_json(c.dns_zones[i]),
    ) == c.dns_zones[i] by {
        lemma_parts_read_back(PortMapping { host_port: 0, guest_port: 0 }, c.dns_zones[i]);
    }
    assert forall|i: int| 0 <= i < c.secrets.len() implies secret_in(
        #[trigger] secret_json(c.secrets[i]),
    ) == c.secrets[i] by {
        lemma_secret_reads_back(c.secrets[i]);
    }
    assert(d.port_mappings =~= c.port_mappings);
    assert(d.dns_zones =~= c.dns_zones);
    assert(d.dns_search_domains =~= c.dns_search_domains);
    assert(d.allow_net =~= c.allow_net);
    assert(d.secrets =~= c.secrets);
    assert(d.ca_cert_pem =~= c.ca_cert_pem);
    assert(d.ca_key_pem =~= c.ca_key_pem);
    assert(d =~= c);
}

/// Different settings are never written as the same text.
pub proof fn law_different_settings_differ_in_json(
    a: GvproxyConfigV,
    b: GvproxyConfigV,
    a_text: Seq<char>,
    b_text: Seq<char>,
)
    requires
        a != b,
        json::read_json(a_text) == Some(Json::Object(settings_fields(a))),
        json::read_json(b_text) == Some(Json::Object(settings_fields(b))),
    ensures
        a_text != b_text,
{
    law_settings_read_back(a);
    law_settings_read_back(b);
}

/// Every pair of ports is mapped, in order, from the host's port to the guest's.
pub proof fn law_ports_are_mapped_one_by_one(ports: Seq<(u16, u16)>)
    ensures
        mappings(ports).len() == ports.len(),
        forall|i: int|
            0 <= i < ports.len() ==> (#[trigger] mappings(ports)[i]).host_port == ports[i].0
                && mappings(ports)[i].guest_port == ports[i].1,
{
}

/// A secret is shown with its name, its hosts and its placeholder, in that
/// order.
pub proof fn law_secrets_are_shown_by_name(
    name: Seq<char>,
    hosts: Seq<Seq<char>>,
    placeholder: Seq<char>,
)
    ensures
        ({
            let a = "SecretConfig { name: "@ + text::debug_form(name) + ", hosts: ["@;
            let list = text::join(
                Seq::new(hosts.len(), |i: int| text::debug_form(hosts[i])),
                ", "@,
            );
            let b = "], placeholder: "@ + text::debug_form(placeholder) + ", value: "@
                + text::quoted("[REDACTED]"@) + " }"@;
            shown_secret(name, hosts, placeholder) == a + list + b
        }),
{
    reveal_strlit(", hosts: ");
    reveal_strlit(", hosts: [");
    reveal_strlit("[");
    reveal_strlit("]");
    reveal_strlit(", placeholder: ");
    reveal_strlit("], placeholder: ");
    assert(", hosts: ["@ =~= ", hosts: "@ + "["@);
    assert("], placeholder: "@ =~= "]"@ + ", placeholder: "@);
    let a = "SecretConfig { name: "@ + text::debug_form(name) + ", hosts: ["@;
    let list = text::join(Seq::new(hosts.len(), |i: int| text::debug_form(hosts[i])), ", "@);
    let b = "], placeholder: "@ + text::debug_form(placeholder) + ", value: "@ + text::quoted(
        "[REDACTED]"@,
    ) + " }"@;
    assert(shown_secret(name, hosts, placeholder) =~= a + list + b);
}

} // verus!
