use vstd::prelude::*;

verus! {

// ---------------------------------------------------------------------------
// Address splitting
// ---------------------------------------------------------------------------

/// The mask used for a single host, and for addresses without a known suffix.
pub open spec fn host_mask() -> Seq<char> {
    "255.255.255.255"@
}

/// The mask of a /24 network.
pub open spec fn class_c_mask() -> Seq<char> {
    "255.255.255.0"@
}

/// `s` ends with the three characters `/`, `d1`, `d2`.
pub open spec fn ends_with_prefix_len(s: Seq<char>, d1: char, d2: char) -> bool {
    s.len() >= 3 && s[s.len() - 3] == '/' && s[s.len() - 2] == d1 && s[s.len() - 1] == d2
}

/// `s` without its last three characters.
pub open spec fn strip_suffix3(s: Seq<char>) -> Seq<char> {
    s.subrange(0, s.len() - 3)
}

fn ends_with_len_suffix(address: &str, len: usize, d1: char, d2: char) -> (r: bool)
    requires
        len == address@.len(),
    ensures
        r == ends_with_prefix_len(address@, d1, d2),
{
    len >= 3 && address.get_char(len - 3) == '/' && address.get_char(len - 2) == d1
        && address.get_char(len - 1) == d2
}

/// Splits `ip/32` or `ip/24` into the address and its netmask. Any other input
/// is kept whole and gets the host mask.
pub fn split_address_into_ip_and_mask(address: &str) -> (r: (String, String))
    ensures
        (r.0@, r.1@) == split_spec(address@),
        ends_with_prefix_len(address@, '3', '2') ==> r.0@ == strip_suffix3(address@) && r.1@
            == host_mask(),
        ends_with_prefix_len(address@, '2', '4') ==> r.0@ == strip_suffix3(address@) && r.1@
            == class_c_mask(),
        !ends_with_prefix_len(address@, '3', '2') && !ends_with_prefix_len(address@, '2', '4')
            ==> r.0@ == address@ && r.1@ == host_mask(),
{
    let len: usize = address.unicode_len();
    if ends_with_len_suffix(address, len, '3', '2') {
        let ip = String::from_str(address.substring_char(0, len - 3));
        (ip, String::from_str("255.255.255.255"))
    } else if ends_with_len_suffix(address, len, '2', '4') {
        let ip = String::from_str(address.substring_char(0, len - 3));
        (ip, String::from_str("255.255.255.0"))
    } else {
        (String::from_str(address), String::from_str("255.255.255.255"))
    }
}


// ---------------------------------------------------------------------------
// Configuration records sent to the switch
// ---------------------------------------------------------------------------

/// Breakout mode of a physical port.
#[allow(non_snake_case)]
pub struct Port {
    pub IntfRef: String,
    pub BreakOutMode: String,
}

/// Speed and administrative state of a port.
#[allow(non_snake_case)]
pub struct SubPort {
    pub IntfRef: String,
    pub Speed: i32,
    pub AdminState: String,
}

/// A VLAN with its untagged member interfaces.
#[allow(non_snake_case)]
pub struct Vlan {
    pub VlanId: i32,
    pub UntagIntfList: Vec<String>,
}

/// An IPv4 address bound to a VLAN interface.
#[allow(non_snake_case)]
pub struct IPv4Intf {
    pub IntfRef: String,
    pub IpAddr: String,
}

impl View for Port {
    type V = (Seq<char>, Seq<char>);

    open spec fn view(&self) -> (Seq<char>, Seq<char>) {
        (self.IntfRef@, self.BreakOutMode@)
    }
}

impl View for SubPort {
    type V = (Seq<char>, i32, Seq<char>);

    open spec fn view(&self) -> (Seq<char>, i32, Seq<char>) {
        (self.IntfRef@, self.Speed, self.AdminState@)
    }
}

impl View for Vlan {
    type V = (i32, Seq<Seq<char>>);

    open spec fn view(&self) -> (i32, Seq<Seq<char>>) {
        (self.VlanId, self.UntagIntfList@.map_values(|s: String| s@))
    }
}

impl View for IPv4Intf {
    type V = (Seq<char>, Seq<char>);

    open spec fn view(&self) -> (Seq<char>, Seq<char>) {
        (self.IntfRef@, self.IpAddr@)
    }
}

// ---------------------------------------------------------------------------
// The configuration file, as plain values
// ---------------------------------------------------------------------------

/// One entry of the `ports` section: `mode` and `speed` are optional.
pub struct PortEntry {
    pub name: String,
    pub mode: Option<String>,
    pub speed: Option<i32>,
}

/// One entry of the `vlans` section.
pub struct VlanEntry {
    pub id: i32,
    pub ports: String,
}

/// One entry of the `interfaces` section.
pub struct InterfaceEntry {
    pub vlan_id: i64,
    pub addr: String,
}

/// The configuration document; an absent section is an empty list.
pub struct SwitchConfig {
    pub ports: Vec<PortEntry>,
    pub vlans: Vec<VlanEntry>,
    pub interfaces: Vec<InterfaceEntry>,
}

/// The Port records for `entries`: one per entry that names a mode, in order.
pub open spec fn port_records(entries: Seq<PortEntry>) -> Seq<(Seq<char>, Seq<char>)>
    decreases entries.len(),
{
    if entries.len() == 0 {
        Seq::empty()
    } else {
        let prev = port_records(entries.drop_last());
        let e = entries.last();
        match e.mode {
            Some(m) => prev.push((e.name@, m@)),
            None => prev,
        }
    }
}

/// The SubPort records for `entries`: one per entry that names a speed, in
/// order, always administratively up.
pub open spec fn sub_port_records(entries: Seq<PortEntry>) -> Seq<(Seq<char>, i32, Seq<char>)>
    decreases entries.len(),
{
    if entries.len() == 0 {
        Seq::empty()
    } else {
        let prev = sub_port_records(entries.drop_last());
        let e = entries.last();
        match e.speed {
            Some(sp) => prev.push((e.name@, sp, "UP"@)),
            None => prev,
        }
    }
}

/// Builds the Port records of the `ports` section.
pub fn read_ports(config: &SwitchConfig) -> (r: Vec<Port>)
    ensures
        r@.map_values(|p: Port| p@) == port_records(config.ports@),
{
    let mut result: Vec<Port> = Vec::new();
    let n: usize = config.ports.len();
    let mut i: usize = 0;
    while i < n
        invariant
            n == config.ports@.len(),
            0 <= i <= n,
            result@.map_values(|p: Port| p@) == port_records(config.ports@.subrange(0, i as int)),
        decreases n - i,
    {
        let e = &config.ports[i];
        proof {
            assert(config.ports@.subrange(0, i + 1).drop_last() =~= config.ports@.subrange(
                0,
                i as int,
            ));
        }
        match &e.mode {
            Some(m) => {
                let p = Port { IntfRef: e.name.clone(), BreakOutMode: m.clone() };
                result.push(p);
                assert(result@.map_values(|p: Port| p@) =~= port_records(
                    config.ports@.subrange(0, i + 1),
                ));
            },
            None => {
                assert(result@.map_values(|p: Port| p@) =~= port_records(
                    config.ports@.subrange(0, i + 1),
                ));
            },
        }
        i = i + 1;
    }
    assert(config.ports@.subrange(0, n as int) =~= config.ports@);
    result
}

/// Builds the SubPort records of the `ports` section.
pub fn read_sub_ports(config: &SwitchConfig) -> (r: Vec<SubPort>)
    ensures
        r@.map_values(|p: SubPort| p@) == sub_port_records(config.ports@),
{
    let mut result: Vec<SubPort> = Vec::new();
    let n: usize = config.ports.len();
    let mut i: usize = 0;
    while i < n
        invariant
            n == config.ports@.len(),
            0 <= i <= n,
            result@.map_values(|p: SubPort| p@) == sub_port_records(
                config.ports@.subrange(0, i as int),
            ),
        decreases n - i,
    {
        let e = &config.ports[i];
        proof {
            assert(config.ports@.subrange(0, i + 1).drop_last() =~= config.ports@.subrange(
                0,
                i as int,
            ));
        }
        match e.speed {
            Some(sp) => {
                let p = SubPort { IntfRef: e.name.clone(), Speed: sp, AdminState: String::from_str("UP") };
                result.push(p);
                assert(result@.map_values(|p: SubPort| p@) =~= sub_port_records(
                    config.ports@.subrange(0, i + 1),
                ));
            },
            None => {
                assert(result@.map_values(|p: SubPort| p@) =~= sub_port_records(
                    config.ports@.subrange(0, i + 1),
                ));
            },
        }
        i = i + 1;
    }
    assert(config.ports@.subrange(0, n as int) =~= config.ports@);
    result
}


/// The Vlan records for `entries`, one per entry, in order.
pub open spec fn vlan_records(entries: Seq<VlanEntry>) -> Seq<(i32, Seq<Seq<char>>)> {
    Seq::new(entries.len(), |i: int| (entries[i].id, seq![entries[i].ports@]))
}

/// Builds the Vlan records of the `vlans` section: each names its single port.
pub fn read_vlans(config: &SwitchConfig) -> (r: Vec<Vlan>)
    ensures
        r@.map_values(|v: Vlan| v@) == vlan_records(config.vlans@),
{
    let mut result: Vec<Vlan> = Vec::new();
    let n: usize = config.vlans.len();
    let mut i: usize = 0;
    while i < n
        invariant
            n == config.vlans@.len(),
            0 <= i <= n,
            result@.len() == i,
            forall|j: int| 0 <= j < i ==> #[trigger] result@[j]@ == vlan_records(config.vlans@)[j],
        decreases n - i,
    {
        let e = &config.vlans[i];
        let inf_list: Vec<String> = vec![e.ports.clone()];
        let v = Vlan { VlanId: e.id, UntagIntfList: inf_list };
        assert(v@.1 =~= seq![e.ports@]);
        result.push(v);
        i = i + 1;
    }
    assert(result@.map_values(|v: Vlan| v@) =~= vlan_records(config.vlans@));
    result
}

/// The character of a decimal digit.
pub open spec fn digit_char(d: nat) -> char {
    if d == 0 {
        '0'
    } else if d == 1 {
        '1'
    } else if d == 2 {
        '2'
    } else if d == 3 {
        '3'
    } else if d == 4 {
        '4'
    } else if d == 5 {
        '5'
    } else if d == 6 {
        '6'
    } else if d == 7 {
        '7'
    } else if d == 8 {
        '8'
    } else {
        '9'
    }
}

/// The decimal digits of `n`, without leading zeros.
pub open spec fn nat_digits(n: nat) -> Seq<char>
    decreases n,
{
    if n < 10 {
        seq![digit_char(n)]
    } else {
        nat_digits(n / 10).push(digit_char(n % 10))
    }
}

/// The decimal notation of `n`, with a leading `-` when it is negative.
pub open spec fn decimal(n: int) -> Seq<char> {
    if n < 0 {
        seq!['-'] + nat_digits((-n) as nat)
    } else {
        nat_digits(n as nat)
    }
}

fn digit_str(d: u64) -> (r: &'static str)
    requires
        d < 10,
    ensures
        r@ == seq![digit_char(d as nat)],
{
    proof {
        reveal_strlit("0");
        reveal_strlit("1");
        reveal_strlit("2");
        reveal_strlit("3");
        reveal_strlit("4");
        reveal_strlit("5");
        reveal_strlit("6");
        reveal_strlit("7");
        reveal_strlit("8");
        reveal_strlit("9");
    }
    let r = if d == 0 {
        "0"
    } else if d == 1 {
        "1"
    } else if d == 2 {
        "2"
    } else if d == 3 {
        "3"
    } else if d == 4 {
        "4"
    } else if d == 5 {
        "5"
    } else if d == 6 {
        "6"
    } else if d == 7 {
        "7"
    } else if d == 8 {
        "8"
    } else {
        "9"
    };
    assert(r@ =~= seq![digit_char(d as nat)]);
    r
}

fn append_nat_digits(s: &mut String, n: u64)
    ensures
        final(s)@ == old(s)@ + nat_digits(n as nat),
    decreases n,
{
    if n >= 10 {
        append_nat_digits(s, n / 10);
    }
    s.append(digit_str(n % 10));
    assert(final(s)@ =~= old(s)@ + nat_digits(n as nat));
}

/// Appends the decimal notation of `n` to `s`.
pub fn append_decimal(s: &mut String, n: i64)
    ensures
        final(s)@ == old(s)@ + decimal(n as int),
{
    if n < 0 {
        proof {
            reveal_strlit("-");
        }
        s.append("-");
        let m: u64 = ((-1 - n) as u64) + 1;
        append_nat_digits(s, m);
        assert(final(s)@ =~= old(s)@ + decimal(n as int));
    } else {
        append_nat_digits(s, n as u64);
    }
}

/// The name of the interface of VLAN `id`.
pub open spec fn vlan_intf_name(id: int) -> Seq<char> {
    "vlan"@ + decimal(id)
}

/// The IPv4Intf records for `entries`, one per entry, in order.
pub open spec fn ipv4intf_records(entries: Seq<InterfaceEntry>) -> Seq<(Seq<char>, Seq<char>)> {
    Seq::new(entries.len(), |i: int| (vlan_intf_name(entries[i].vlan_id as int), entries[i].addr@))
}

/// Builds the IPv4Intf records of the `interfaces` section, each bound to the
/// interface `vlan<id>`.
pub fn read_ipv4intf(config: &SwitchConfig) -> (r: Vec<IPv4Intf>)
    ensures
        r@.map_values(|v: IPv4Intf| v@) == ipv4intf_records(config.interfaces@),
{
    let mut result: Vec<IPv4Intf> = Vec::new();
    let n: usize = config.interfaces.len();
    let mut i: usize = 0;
    while i < n
        invariant
            n == config.interfaces@.len(),
            0 <= i <= n,
            result@.len() == i,
            forall|j: int|
                0 <= j < i ==> #[trigger] result@[j]@ == ipv4intf_records(config.interfaces@)[j],
        decreases n - i,
    {
        let e = &config.interfaces[i];
        let mut name = String::from_str("vlan");
        append_decimal(&mut name, e.vlan_id);
        let v = IPv4Intf { IntfRef: name, IpAddr: e.addr.clone() };
        result.push(v);
        i = i + 1;
    }
    assert(result@.map_values(|v: IPv4Intf| v@) =~= ipv4intf_records(config.interfaces@));
    result
}


// ---------------------------------------------------------------------------
// Requests
// ---------------------------------------------------------------------------

/// Path of the port state listing.
pub const PORTS_STATE_PATH: &'static str = "/public/v1/state/Ports";

/// Path of the route state listing.
pub const ROUTES_STATE_PATH: &'static str = "/public/v1/state/IPv4Routes";

/// Path of the action that resets the configuration.
pub const RESET_CONFIG_PATH: &'static str = "/public/v1/action/ResetConfig";

/// Path where IPv4Route records are posted and deleted.
pub const IPV4ROUTE_CONFIG_PATH: &'static str = "/public/v1/config/IPv4Route";

/// The URL of `path` on the switch reachable at `connect_string` (`host:port`).
pub fn endpoint_url(connect_string: &str, path: &str) -> (r: String)
    ensures
        r@ == url_of(connect_string@, path@),
{
    let mut url = String::from_str("http://");
    url.append(connect_string);
    url.append(path);
    url
}

/// An answer with this status is reported as an error.
pub fn request_failed(status: u16) -> (r: bool)
    ensures
        r == (status >= 400),
{
    status >= 400
}

/// Only an answer with status 200 carries state to read.
pub open spec fn status_ok(status: u16) -> bool {
    status == 200
}

// ---------------------------------------------------------------------------
// State read from the switch
// ---------------------------------------------------------------------------

/// Operational state of one switch port.
pub struct PortStat {
    pub id: i32,
    pub connected: bool,
}

/// A route of the switch: `to` is empty when it has no next hop.
pub struct Route {
    pub from: String,
    pub to: String,
}

/// The fields read from one object of the port state listing.
pub struct PortStateRecord {
    pub if_index: i32,
    pub oper_state: String,
}

/// The fields read from one object of the route state listing.
pub struct RouteStateRecord {
    pub destination_nw: String,
    pub next_hop_ips: Vec<String>,
}

/// `p` is the port state that `rec` describes.
pub open spec fn port_stat_of(p: PortStat, rec: PortStateRecord) -> bool {
    p.id == rec.if_index && p.connected == (rec.oper_state@ == "UP"@)
}

/// `r` is the route that `rec` describes.
pub open spec fn route_of(r: Route, rec: RouteStateRecord) -> bool {
    r.from@ == rec.destination_nw@ && if rec.next_hop_ips@.len() > 0 {
        r.to@ == rec.next_hop_ips@[0]@
    } else {
        r.to@ == Seq::<char>::empty()
    }
}

/// The port is connected exactly when its operational state is `UP`.
pub fn port_stat_from_record(rec: &PortStateRecord) -> (r: PortStat)
    ensures
        r.id == rec.if_index,
        r.connected == (rec.oper_state@ == "UP"@),
{
    let up = String::from_str("UP");
    PortStat { id: rec.if_index, connected: rec.oper_state == up }
}

/// The route goes to the first next hop, or to the empty string when there is
/// none.
pub fn route_from_record(rec: &RouteStateRecord) -> (r: Route)
    ensures
        r.from@ == rec.destination_nw@,
        rec.next_hop_ips@.len() > 0 ==> r.to@ == rec.next_hop_ips@[0]@,
        rec.next_hop_ips@.len() == 0 ==> r.to@ == Seq::<char>::empty(),
{
    let to = if rec.next_hop_ips.len() > 0 {
        rec.next_hop_ips[0].clone()
    } else {
        String::new()
    };
    Route { from: rec.destination_nw.clone(), to }
}

/// The port states of an answer with status `status` whose `Objects` are
/// `objects`: one per object when the status is 200, none otherwise.
pub fn port_stats_from_response(status: u16, objects: &Vec<PortStateRecord>) -> (r: Vec<PortStat>)
    ensures
        !status_ok(status) ==> r@.len() == 0,
        objects@.len() == 0 ==> r@.len() == 0,
        status_ok(status) ==> r@.len() == objects@.len(),
        status_ok(status) ==> forall|i: int|
            0 <= i < r@.len() ==> port_stat_of(#[trigger] r@[i], objects@[i]),
{
    let mut result: Vec<PortStat> = Vec::new();
    if status != 200 {
        return result;
    }
    let n: usize = objects.len();
    let mut i: usize = 0;
    while i < n
        invariant
            n == objects@.len(),
            0 <= i <= n,
            result@.len() == i,
            forall|j: int| 0 <= j < i ==> port_stat_of(#[trigger] result@[j], objects@[j]),
        decreases n - i,
    {
        result.push(port_stat_from_record(&objects[i]));
        i = i + 1;
    }
    result
}

/// The routes of an answer with status `status` whose `Objects` are
/// `objects`: one per object when the status is 200, none otherwise.
pub fn routes_from_response(status: u16, objects: &Vec<RouteStateRecord>) -> (r: Vec<Route>)
    ensures
        !status_ok(status) ==> r@.len() == 0,
        objects@.len() == 0 ==> r@.len() == 0,
        status_ok(status) ==> r@.len() == objects@.len(),
        status_ok(status) ==> forall|i: int|
            0 <= i < r@.len() ==> route_of(#[trigger] r@[i], objects@[i]),
{
    let mut result: Vec<Route> = Vec::new();
    if status != 200 {
        return result;
    }
    let n: usize = objects.len();
    let mut i: usize = 0;
    while i < n
        invariant
            n == objects@.len(),
            0 <= i <= n,
            result@.len() == i,
            forall|j: int| 0 <= j < i ==> route_of(#[trigger] result@[j], objects@[j]),
        decreases n - i,
    {
        result.push(route_from_record(&objects[i]));
        i = i + 1;
    }
    result
}

// ---------------------------------------------------------------------------
// Static routes
// ---------------------------------------------------------------------------

/// A next hop of a route.
#[allow(non_snake_case)]
pub struct NextHopInfo {
    pub NextHopIp: String,
}

/// A static IPv4 route as the switch takes it.
#[allow(non_snake_case)]
pub struct IPv4Route {
    pub DestinationNw: String,
    pub NetworkMask: String,
    pub Protocol: String,
    pub NextHop: Vec<NextHopInfo>,
}

/// The destination and mask of a route to `address`, as the splitter gives
/// them.
pub open spec fn split_spec(address: Seq<char>) -> (Seq<char>, Seq<char>) {
    if ends_with_prefix_len(address, '3', '2') {
        (strip_suffix3(address), host_mask())
    } else if ends_with_prefix_len(address, '2', '4') {
        (strip_suffix3(address), class_c_mask())
    } else {
        (address, host_mask())
    }
}

/// The static route from `route_from` through the next hop `route_to`.
pub fn add_route_request(route_from: &str, route_to: &str) -> (r: IPv4Route)
    ensures
        (r.DestinationNw@, r.NetworkMask@) == split_spec(route_from@),
        r.Protocol@ == "STATIC"@,
        r.NextHop@.len() == 1,
        r.NextHop@[0].NextHopIp@ == route_to@,
{
    let (ip, mask) = split_address_into_ip_and_mask(route_from);
    let nexthop = NextHopInfo { NextHopIp: String::from_str(route_to) };
    IPv4Route {
        DestinationNw: ip,
        NetworkMask: mask,
        Protocol: String::from_str("STATIC"),
        NextHop: vec![nexthop],
    }
}

/// The static route from `route_from` that a delete names: no next hop.
pub fn delete_route_request(route_from: &str) -> (r: IPv4Route)
    ensures
        (r.DestinationNw@, r.NetworkMask@) == split_spec(route_from@),
        r.Protocol@ == "STATIC"@,
        r.NextHop@.len() == 0,
{
    let (ip, mask) = split_address_into_ip_and_mask(route_from);
    IPv4Route {
        DestinationNw: ip,
        NetworkMask: mask,
        Protocol: String::from_str("STATIC"),
        NextHop: Vec::new(),
    }
}


// ---------------------------------------------------------------------------
// JSON bodies of the configuration requests
// ---------------------------------------------------------------------------

/// The JSON string literal of `s`: quoted, with its special characters escaped.
pub uninterp spec fn json_str(s: Seq<char>) -> Seq<char>;

/// Relies on rustc_serialize::json::encode of a `str`, which writes the string
/// quoted and escaped into a fresh `String`; that write cannot fail.
#[verifier::external_body]
fn json_quote(s: &str) -> (r: String)
    ensures
        r@ == json_str(s@),
{
    rustc_serialize::json::encode(&s).unwrap()
}

/// `items` separated by commas.
pub open spec fn comma_joined(items: Seq<Seq<char>>) -> Seq<char>
    decreases items.len(),
{
    if items.len() == 0 {
        Seq::empty()
    } else if items.len() == 1 {
        items[0]
    } else {
        comma_joined(items.drop_last()) + ","@ + items.last()
    }
}

/// The JSON body of a Port record.
pub open spec fn port_json(p: (Seq<char>, Seq<char>)) -> Seq<char> {
    "{\"IntfRef\":"@ + json_str(p.0) + ",\"BreakOutMode\":"@ + json_str(p.1) + "}"@
}

/// The JSON body of a SubPort record.
pub open spec fn sub_port_json(p: (Seq<char>, i32, Seq<char>)) -> Seq<char> {
    "{\"IntfRef\":"@ + json_str(p.0) + ",\"Speed\":"@ + decimal(p.1 as int) + ",\"AdminState\":"@
        + json_str(p.2) + "}"@
}

/// The JSON array of the string literals of `items`.
pub open spec fn json_str_array(items: Seq<Seq<char>>) -> Seq<char> {
    "["@ + comma_joined(items.map_values(|t: Seq<char>| json_str(t))) + "]"@
}

/// The JSON body of a Vlan record.
pub open spec fn vlan_json(v: (i32, Seq<Seq<char>>)) -> Seq<char> {
    "{\"VlanId\":"@ + decimal(v.0 as int) + ",\"UntagIntfList\":"@ + json_str_array(v.1) + "}"@
}

/// The JSON body of an IPv4Intf record.
pub open spec fn ipv4intf_json(i: (Seq<char>, Seq<char>)) -> Seq<char> {
    "{\"IntfRef\":"@ + json_str(i.0) + ",\"IpAddr\":"@ + json_str(i.1) + "}"@
}

/// The JSON object of a next hop.
pub open spec fn next_hop_json(ip: Seq<char>) -> Seq<char> {
    "{\"NextHopIp\":"@ + json_str(ip) + "}"@
}

/// The JSON body of an IPv4Route record.
pub open spec fn ipv4route_json(r: IPv4Route) -> Seq<char> {
    "{\"DestinationNw\":"@ + json_str(r.DestinationNw@) + ",\"NetworkMask\":"@ + json_str(
        r.NetworkMask@,
    ) + ",\"Protocol\":"@ + json_str(r.Protocol@) + ",\"NextHop\":["@ + comma_joined(
        r.NextHop@.map_values(|h: NextHopInfo| next_hop_json(h.NextHopIp@)),
    ) + "]}"@
}

/// Appends `s` quoted as a JSON string.
fn append_json_str(out: &mut String, s: &str)
    ensures
        final(out)@ == old(out)@ + json_str(s@),
{
    let q = json_quote(s);
    out.append(q.as_str());
}

/// Encodes a Port record as the switch takes it.
pub fn encode_port(p: &Port) -> (r: String)
    ensures
        r@ == port_json(p@),
{
    let mut out = String::from_str("{\"IntfRef\":");
    append_json_str(&mut out, p.IntfRef.as_str());
    out.append(",\"BreakOutMode\":");
    append_json_str(&mut out, p.BreakOutMode.as_str());
    out.append("}");
    assert(out@ =~= port_json(p@));
    out
}

/// Encodes a SubPort record as the switch takes it.
pub fn encode_sub_port(p: &SubPort) -> (r: String)
    ensures
        r@ == sub_port_json(p@),
{
    let mut out = String::from_str("{\"IntfRef\":");
    append_json_str(&mut out, p.IntfRef.as_str());
    out.append(",\"Speed\":");
    append_decimal(&mut out, p.Speed as i64);
    out.append(",\"AdminState\":");
    append_json_str(&mut out, p.AdminState.as_str());
    out.append("}");
    assert(out@ =~= sub_port_json(p@));
    out
}

/// Encodes an IPv4Intf record as the switch takes it.
pub fn encode_ipv4intf(i: &IPv4Intf) -> (r: String)
    ensures
        r@ == ipv4intf_json(i@),
{
    let mut out = String::from_str("{\"IntfRef\":");
    append_json_str(&mut out, i.IntfRef.as_str());
    out.append(",\"IpAddr\":");
    append_json_str(&mut out, i.IpAddr.as_str());
    out.append("}");
    assert(out@ =~= ipv4intf_json(i@));
    out
}

/// Appends the comma-separated string literals of `items`.
fn append_json_str_items(out: &mut String, items: &Vec<String>)
    ensures
        final(out)@ == old(out)@ + comma_joined(
            items@.map_values(|s: String| s@).map_values(|t: Seq<char>| json_str(t)),
        ),
{
    let ghost start = out@;
    let ghost parts = items@.map_values(|s: String| s@).map_values(|t: Seq<char>| json_str(t));
    let n: usize = items.len();
    let mut i: usize = 0;
    while i < n
        invariant
            n == items@.len(),
            0 <= i <= n,
            parts == items@.map_values(|s: String| s@).map_values(|t: Seq<char>| json_str(t)),
            out@ == start + comma_joined(parts.subrange(0, i as int)),
        decreases n - i,
    {
        proof {
            assert(parts.subrange(0, i + 1).drop_last() =~= parts.subrange(0, i as int));
        }
        if i > 0 {
            out.append(",");
        }
        append_json_str(out, items[i].as_str());
        assert(out@ =~= start + comma_joined(parts.subrange(0, i + 1)));
        i = i + 1;
    }
    assert(parts.subrange(0, n as int) =~= parts);
}

/// Encodes a Vlan record as the switch takes it.
pub fn encode_vlan(v: &Vlan) -> (r: String)
    ensures
        r@ == vlan_json(v@),
{
    let mut out = String::from_str("{\"VlanId\":");
    append_decimal(&mut out, v.VlanId as i64);
    out.append(",\"UntagIntfList\":");
    out.append("[");
    append_json_str_items(&mut out, &v.UntagIntfList);
    out.append("]");
    out.append("}");
    assert(out@ =~= vlan_json(v@));
    out
}

/// Encodes an IPv4Route record as the switch takes it.
pub fn encode_ipv4route(r: &IPv4Route) -> (out: String)
    ensures
        out@ == ipv4route_json(*r),
{
    let mut out = String::from_str("{\"DestinationNw\":");
    append_json_str(&mut out, r.DestinationNw.as_str());
    out.append(",\"NetworkMask\":");
    append_json_str(&mut out, r.NetworkMask.as_str());
    out.append(",\"Protocol\":");
    append_json_str(&mut out, r.Protocol.as_str());
    out.append(",\"NextHop\":[");
    let ghost start = out@;
    let ghost parts = r.NextHop@.map_values(|h: NextHopInfo| next_hop_json(h.NextHopIp@));
    let n: usize = r.NextHop.len();
    let mut i: usize = 0;
    while i < n
        invariant
            n == r.NextHop@.len(),
            0 <= i <= n,
            parts == r.NextHop@.map_values(|h: NextHopInfo| next_hop_json(h.NextHopIp@)),
            out@ == start + comma_joined(parts.subrange(0, i as int)),
        decreases n - i,
    {
        proof {
            assert(parts.subrange(0, i + 1).drop_last() =~= parts.subrange(0, i as int));
        }
        if i > 0 {
            out.append(",");
        }
        out.append("{\"NextHopIp\":");
        append_json_str(&mut out, r.NextHop[i].NextHopIp.as_str());
        out.append("}");
        assert(out@ =~= start + comma_joined(parts.subrange(0, i + 1)));
        i = i + 1;
    }
    assert(parts.subrange(0, n as int) =~= parts);
    out.append("]}");
    assert(out@ =~= ipv4route_json(*r));
    out
}


// ---------------------------------------------------------------------------
// Initialization
// ---------------------------------------------------------------------------

/// The HTTP methods of configuration requests.
#[derive(PartialEq, Eq, Structural, Clone, Copy)]
pub enum Method {
    Post,
    Patch,
}

/// A request that writes configuration: method, URL and JSON body.
pub struct ConfigRequest {
    pub method: Method,
    pub url: String,
    pub body: String,
}

impl View for ConfigRequest {
    type V = (Method, Seq<char>, Seq<char>);

    open spec fn view(&self) -> (Method, Seq<char>, Seq<char>) {
        (self.method, self.url@, self.body@)
    }
}

/// The URL of `path` on the switch at `conn`.
pub open spec fn url_of(conn: Seq<char>, path: Seq<char>) -> Seq<char> {
    "http://"@ + conn + path
}

/// The requests that configure the switch at `conn` from `c`, in the order
/// they are sent: Port and SubPort records patched, then Vlan and IPv4Intf
/// records posted.
pub open spec fn initialization_plan(conn: Seq<char>, c: SwitchConfig) -> Seq<
    (Method, Seq<char>, Seq<char>),
> {
    port_records(c.ports@).map_values(
        |p: (Seq<char>, Seq<char>)|
            (Method::Patch, url_of(conn, "/public/v1/config/Port"@), port_json(p)),
    ) + sub_port_records(c.ports@).map_values(
        |p: (Seq<char>, i32, Seq<char>)|
            (Method::Patch, url_of(conn, "/public/v1/config/Port"@), sub_port_json(p)),
    ) + vlan_records(c.vlans@).map_values(
        |v: (i32, Seq<Seq<char>>)|
            (Method::Post, url_of(conn, "/public/v1/config/Vlan"@), vlan_json(v)),
    ) + ipv4intf_records(c.interfaces@).map_values(
        |i: (Seq<char>, Seq<char>)|
            (Method::Post, url_of(conn, "/public/v1/config/IPv4Intf"@), ipv4intf_json(i)),
    )
}

/// The configuration requests for the switch at `connect_string`, built from
/// `config`.
pub fn initialization_requests(connect_string: &str, config: &SwitchConfig) -> (r: Vec<
    ConfigRequest,
>)
    ensures
        r@.map_values(|q: ConfigRequest| q@) == initialization_plan(connect_string@, *config),
{
    let mut result: Vec<ConfigRequest> = Vec::new();
    let port_url = endpoint_url(connect_string, "/public/v1/config/Port");
    let vlan_url = endpoint_url(connect_string, "/public/v1/config/Vlan");
    let intf_url = endpoint_url(connect_string, "/public/v1/config/IPv4Intf");

    let ports = read_ports(config);
    let n: usize = ports.len();
    let mut i: usize = 0;
    while i < n
        invariant
            n == ports@.len(),
            0 <= i <= n,
            result@.map_values(|q: ConfigRequest| q@) =~= ports@.subrange(0, i as int).map_values(
                |p: Port| (Method::Patch, port_url@, port_json(p@)),
            ),
        decreases n - i,
    {
        let body = encode_port(&ports[i]);
        let ghost prev = result@;
        let req = ConfigRequest { method: Method::Patch, url: port_url.clone(), body };
        result.push(req);
        assert(result@.map_values(|q: ConfigRequest| q@) =~= prev.map_values(|q: ConfigRequest| q@).push(
            req@,
        ));
        assert(result@.map_values(|q: ConfigRequest| q@) =~= ports@.subrange(
            0,
            i + 1,
        ).map_values(|p: Port| (Method::Patch, port_url@, port_json(p@))));
        i = i + 1;
    }
    let ghost after_ports = result@.map_values(|q: ConfigRequest| q@);
    assert(after_ports =~= port_records(config.ports@).map_values(
        |p: (Seq<char>, Seq<char>)|
            (Method::Patch, url_of(connect_string@, "/public/v1/config/Port"@), port_json(p)),
    )) by {
        assert(ports@.subrange(0, n as int) =~= ports@);
        assert(forall|j: int| 0 <= j < n ==> #[trigger] ports@[j]@ == ports@.map_values(|p: Port| p@)[j]);
    }

    let sub_ports = read_sub_ports(config);
    let n: usize = sub_ports.len();
    let mut i: usize = 0;
    while i < n
        invariant
            n == sub_ports@.len(),
            0 <= i <= n,
            result@.map_values(|q: ConfigRequest| q@) =~= after_ports + sub_ports@.subrange(
                0,
                i as int,
            ).map_values(|p: SubPort| (Method::Patch, port_url@, sub_port_json(p@))),
        decreases n - i,
    {
        let body = encode_sub_port(&sub_ports[i]);
        let ghost prev = result@;
        let req = ConfigRequest { method: Method::Patch, url: port_url.clone(), body };
        result.push(req);
        assert(result@.map_values(|q: ConfigRequest| q@) =~= prev.map_values(|q: ConfigRequest| q@).push(
            req@,
        ));
        assert(result@.map_values(|q: ConfigRequest| q@) =~= after_ports + sub_ports@.subrange(
            0,
            i + 1,
        ).map_values(|p: SubPort| (Method::Patch, port_url@, sub_port_json(p@))));
        i = i + 1;
    }
    let ghost after_subs = result@.map_values(|q: ConfigRequest| q@);
    assert(after_subs =~= after_ports + sub_port_records(config.ports@).map_values(
        |p: (Seq<char>, i32, Seq<char>)|
            (Method::Patch, url_of(connect_string@, "/public/v1/config/Port"@), sub_port_json(p)),
    )) by {
        assert(sub_ports@.subrange(0, n as int) =~= sub_ports@);
        assert(forall|j: int|
            0 <= j < n ==> #[trigger] sub_ports@[j]@ == sub_ports@.map_values(|p: SubPort| p@)[j]);
    }

    let vlans = read_vlans(config);
    let n: usize = vlans.len();
    let mut i: usize = 0;
    while i < n
        invariant
            n == vlans@.len(),
            0 <= i <= n,
            result@.map_values(|q: ConfigRequest| q@) =~= after_subs + vlans@.subrange(
                0,
                i as int,
            ).map_values(|v: Vlan| (Method::Post, vlan_url@, vlan_json(v@))),
        decreases n - i,
    {
        let body = encode_vlan(&vlans[i]);
        let ghost prev = result@;
        let req = ConfigRequest { method: Method::Post, url: vlan_url.clone(), body };
        result.push(req);
        assert(result@.map_values(|q: ConfigRequest| q@) =~= prev.map_values(|q: ConfigRequest| q@).push(
            req@,
        ));
        assert(result@.map_values(|q: ConfigRequest| q@) =~= after_subs + vlans@.subrange(
            0,
            i + 1,
        ).map_values(|v: Vlan| (Method::Post, vlan_url@, vlan_json(v@))));
        i = i + 1;
    }
    let ghost after_vlans = result@.map_values(|q: ConfigRequest| q@);
    assert(after_vlans =~= after_subs + vlan_records(config.vlans@).map_values(
        |v: (i32, Seq<Seq<char>>)|
            (Method::Post, url_of(connect_string@, "/public/v1/config/Vlan"@), vlan_json(v)),
    )) by {
        assert(vlans@.subrange(0, n as int) =~= vlans@);
        assert(forall|j: int| 0 <= j < n ==> #[trigger] vlans@[j]@ == vlans@.map_values(|v: Vlan| v@)[j]);
    }

    let intfs = read_ipv4intf(config);
    let n: usize = intfs.len();
    let mut i: usize = 0;
    while i < n
        invariant
            n == intfs@.len(),
            0 <= i <= n,
            result@.map_values(|q: ConfigRequest| q@) =~= after_vlans + intfs@.subrange(
                0,
                i as int,
            ).map_values(|v: IPv4Intf| (Method::Post, intf_url@, ipv4intf_json(v@))),
        decreases n - i,
    {
        let body = encode_ipv4intf(&intfs[i]);
        let ghost prev = result@;
        let req = ConfigRequest { method: Method::Post, url: intf_url.clone(), body };
        result.push(req);
        assert(result@.map_values(|q: ConfigRequest| q@) =~= prev.map_values(|q: ConfigRequest| q@).push(
            req@,
        ));
        assert(result@.map_values(|q: ConfigRequest| q@) =~= after_vlans + intfs@.subrange(
            0,
            i + 1,
        ).map_values(|v: IPv4Intf| (Method::Post, intf_url@, ipv4intf_json(v@))));
        i = i + 1;
    }
    assert(result@.map_values(|q: ConfigRequest| q@) =~= after_vlans + ipv4intf_records(
        config.interfaces@,
    ).map_values(
        |v: (Seq<char>, Seq<char>)|
            (Method::Post, url_of(connect_string@, "/public/v1/config/IPv4Intf"@), ipv4intf_json(v)),
    )) by {
        assert(intfs@.subrange(0, n as int) =~= intfs@);
        assert(forall|j: int|
            0 <= j < n ==> #[trigger] intfs@[j]@ == intfs@.map_values(|v: IPv4Intf| v@)[j]);
    }
    result
}

} // verus!
