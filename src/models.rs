use vstd::prelude::*;

verus! {

/// A routing domain: the ranges from which its VPNs' subnets are carved.
pub struct Network {
    pub name: String,
    pub address_v4: String,
    pub address_v6: String,
}

/// A subnet of a network.
pub struct Vpn {
    pub name: String,
    pub network_name: String,
    pub index_in_network: i32,
    pub address_v4: String,
    pub address_v6: String,
}

/// A member of a VPN, keyed by its VPN and its name.
pub struct Peer {
    pub vpn_name: String,
    pub name: String,
    pub index_in_vpn: i32,
    pub private_key: String,
    pub public_key: String,
    pub address_v4: String,
    pub address_v6: String,
    pub endpoint: String,
    pub dns: String,
    pub status: String,
}

/// A row of the closed table of peer statuses.
pub struct PeerStatus {
    pub status: String,
}

/// An address that a peer may route, keyed by the peer and the address.
pub struct AllowedIp {
    pub peer_vpn: String,
    pub peer_name: String,
    pub address: String,
}

/// The key shared by two peers of one VPN.
pub struct PresharedKey {
    pub vpn: String,
    pub peer1: String,
    pub peer2: String,
    pub key: String,
}

/// The statuses that a peer may have.
pub open spec fn is_status(s: Seq<char>) -> bool {
    s == "active"@ || s == "disabled"@
}

pub open spec fn has_network(networks: Seq<Network>, name: Seq<char>) -> bool {
    exists|i: int| 0 <= i < networks.len() && #[trigger] networks[i].name@ == name
}

pub open spec fn has_vpn(vpns: Seq<Vpn>, name: Seq<char>) -> bool {
    exists|i: int| 0 <= i < vpns.len() && #[trigger] vpns[i].name@ == name
}

pub open spec fn network_in_use(vpns: Seq<Vpn>, name: Seq<char>) -> bool {
    exists|i: int| 0 <= i < vpns.len() && #[trigger] vpns[i].network_name@ == name
}

pub open spec fn has_peer(peers: Seq<Peer>, vpn: Seq<char>, name: Seq<char>) -> bool {
    exists|i: int| 0 <= i < peers.len() && #[trigger] peers[i].vpn_name@ == vpn && peers[i].name@ == name
}

pub open spec fn vpn_in_use(peers: Seq<Peer>, name: Seq<char>) -> bool {
    exists|i: int| 0 <= i < peers.len() && #[trigger] peers[i].vpn_name@ == name
}

pub open spec fn has_allowed_ip(ips: Seq<AllowedIp>, ip: AllowedIp) -> bool {
    exists|i: int| 0 <= i < ips.len() && #[trigger] ips[i].peer_vpn@ == ip.peer_vpn@
        && ips[i].peer_name@ == ip.peer_name@ && ips[i].address@ == ip.address@
}

/// Whether a key is stored for the pair of peers `a` and `b` of `vpn`, in
/// either order: the pairing is symmetric.
pub open spec fn has_pair(keys: Seq<PresharedKey>, vpn: Seq<char>, a: Seq<char>, b: Seq<char>) -> bool {
    exists|i: int| 0 <= i < keys.len() && #[trigger] keys[i].vpn@ == vpn
        && ((keys[i].peer1@ == a && keys[i].peer2@ == b) || (keys[i].peer1@ == b && keys[i].peer2@ == a))
}

/// Whether the peer `name` of `vpn` owns an allowed address or a shared key.
pub open spec fn peer_in_use(ips: Seq<AllowedIp>, keys: Seq<PresharedKey>, vpn: Seq<char>, name: Seq<char>) -> bool {
    (exists|i: int| 0 <= i < ips.len() && #[trigger] ips[i].peer_vpn@ == vpn && ips[i].peer_name@ == name)
    || (exists|i: int| 0 <= i < keys.len() && #[trigger] keys[i].vpn@ == vpn
        && (keys[i].peer1@ == name || keys[i].peer2@ == name))
}

/// Whether `s` is one of the statuses a peer may have.
pub fn is_valid_status(s: &String) -> (r: bool)
    ensures
        r == is_status(s@),
{
    let active = String::from_str("active");
    let disabled = String::from_str("disabled");
    *s == active || *s == disabled
}

fn find_network(networks: &Vec<Network>, name: &String) -> (r: bool)
    ensures
        r == has_network(networks@, name@),
{
    let mut i: usize = 0;
    while i < networks.len()
        invariant
            i <= networks.len(),
            forall|k: int| 0 <= k < i ==> (#[trigger] networks@[k]).name@ != name@,
        decreases networks.len() - i,
    {
        if networks[i].name == *name {
            assert(networks@[i as int].name@ == name@);
            return true;
        }
        i = i + 1;
    }
    false
}

fn find_vpn(vpns: &Vec<Vpn>, name: &String) -> (r: bool)
    ensures
        r == has_vpn(vpns@, name@),
{
    let mut i: usize = 0;
    while i < vpns.len()
        invariant
            i <= vpns.len(),
            forall|k: int| 0 <= k < i ==> (#[trigger] vpns@[k]).name@ != name@,
        decreases vpns.len() - i,
    {
        if vpns[i].name == *name {
            assert(vpns@[i as int].name@ == name@);
            return true;
        }
        i = i + 1;
    }
    false
}

fn find_peer(peers: &Vec<Peer>, vpn: &String, name: &String) -> (r: bool)
    ensures
        r == has_peer(peers@, vpn@, name@),
{
    let mut i: usize = 0;
    while i < peers.len()
        invariant
            i <= peers.len(),
            forall|k: int| 0 <= k < i ==> !((#[trigger] peers@[k]).vpn_name@ == vpn@ && peers@[k].name@ == name@),
        decreases peers.len() - i,
    {
        if peers[i].vpn_name == *vpn && peers[i].name == *name {
            assert(peers@[i as int].vpn_name@ == vpn@ && peers@[i as int].name@ == name@);
            return true;
        }
        i = i + 1;
    }
    false
}

/// A VPN may be added when its network exists and its name is free.
pub fn can_add_vpn(networks: &Vec<Network>, vpns: &Vec<Vpn>, vpn: &Vpn) -> (r: bool)
    ensures
        r == (has_network(networks@, vpn.network_name@) && !has_vpn(vpns@, vpn.name@)),
{
    find_network(networks, &vpn.network_name) && !find_vpn(vpns, &vpn.name)
}

/// A network may be removed only when no VPN belongs to it: its children
/// are never orphaned.
pub fn can_remove_network(vpns: &Vec<Vpn>, name: &String) -> (r: bool)
    ensures
        r == !network_in_use(vpns@, name@),
{
    let mut i: usize = 0;
    while i < vpns.len()
        invariant
            i <= vpns.len(),
            forall|k: int| 0 <= k < i ==> (#[trigger] vpns@[k]).network_name@ != name@,
        decreases vpns.len() - i,
    {
        if vpns[i].network_name == *name {
            assert(vpns@[i as int].network_name@ == name@);
            return false;
        }
        i = i + 1;
    }
    true
}

/// A peer may be added when its VPN exists, its name is free within that
/// VPN, and its status is one of the allowed statuses.
pub fn can_add_peer(vpns: &Vec<Vpn>, peers: &Vec<Peer>, peer: &Peer) -> (r: bool)
    ensures
        r == (has_vpn(vpns@, peer.vpn_name@) && !has_peer(peers@, peer.vpn_name@, peer.name@)
            && is_status(peer.status@)),
{
    find_vpn(vpns, &peer.vpn_name) && !find_peer(peers, &peer.vpn_name, &peer.name)
        && is_valid_status(&peer.status)
}

/// A VPN may be removed only when it has no peers.
pub fn can_remove_vpn(peers: &Vec<Peer>, name: &String) -> (r: bool)
    ensures
        r == !vpn_in_use(peers@, name@),
{
    let mut i: usize = 0;
    while i < peers.len()
        invariant
            i <= peers.len(),
            forall|k: int| 0 <= k < i ==> (#[trigger] peers@[k]).vpn_name@ != name@,
        decreases peers.len() - i,
    {
        if peers[i].vpn_name == *name {
            assert(peers@[i as int].vpn_name@ == name@);
            return false;
        }
        i = i + 1;
    }
    true
}

/// An allowed address may be added when its peer exists and the address is
/// not yet recorded for that peer.
pub fn can_add_allowed_ip(peers: &Vec<Peer>, ips: &Vec<AllowedIp>, ip: &AllowedIp) -> (r: bool)
    ensures
        r == (has_peer(peers@, ip.peer_vpn@, ip.peer_name@) && !has_allowed_ip(ips@, *ip)),
{
    if !find_peer(peers, &ip.peer_vpn, &ip.peer_name) {
        return false;
    }
    let mut i: usize = 0;
    while i < ips.len()
        invariant
            i <= ips.len(),
            forall|k: int| 0 <= k < i ==> !((#[trigger] ips@[k]).peer_vpn@ == ip.peer_vpn@
                && ips@[k].peer_name@ == ip.peer_name@ && ips@[k].address@ == ip.address@),
        decreases ips.len() - i,
    {
        if ips[i].peer_vpn == ip.peer_vpn && ips[i].peer_name == ip.peer_name && ips[i].address == ip.address {
            assert(ips@[i as int].peer_vpn@ == ip.peer_vpn@);
            return false;
        }
        i = i + 1;
    }
    true
}

/// A shared key may be added for two distinct peers of one VPN that both
/// exist, when no key is stored for that pair in either order.
pub fn can_add_preshared_key(peers: &Vec<Peer>, keys: &Vec<PresharedKey>, key: &PresharedKey) -> (r: bool)
    ensures
        r == (key.peer1@ != key.peer2@ && has_peer(peers@, key.vpn@, key.peer1@)
            && has_peer(peers@, key.vpn@, key.peer2@)
            && !has_pair(keys@, key.vpn@, key.peer1@, key.peer2@)),
{
    if key.peer1 == key.peer2 || !find_peer(peers, &key.vpn, &key.peer1)
        || !find_peer(peers, &key.vpn, &key.peer2) {
        return false;
    }
    let mut i: usize = 0;
    while i < keys.len()
        invariant
            i <= keys.len(),
            forall|k: int| 0 <= k < i ==> !((#[trigger] keys@[k]).vpn@ == key.vpn@
                && ((keys@[k].peer1@ == key.peer1@ && keys@[k].peer2@ == key.peer2@)
                || (keys@[k].peer1@ == key.peer2@ && keys@[k].peer2@ == key.peer1@))),
        decreases keys.len() - i,
    {
        let k = &keys[i];
        if k.vpn == key.vpn && ((k.peer1 == key.peer1 && k.peer2 == key.peer2)
            || (k.peer1 == key.peer2 && k.peer2 == key.peer1)) {
            assert(keys@[i as int].vpn@ == key.vpn@);
            return false;
        }
        i = i + 1;
    }
    true
}

/// A peer may be removed only when it owns no allowed address and no
/// shared key: those rows cannot rely on the engine's foreign keys.
pub fn can_remove_peer(ips: &Vec<AllowedIp>, keys: &Vec<PresharedKey>, vpn: &String, name: &String) -> (r: bool)
    ensures
        r == !peer_in_use(ips@, keys@, vpn@, name@),
{
    let mut i: usize = 0;
    while i < ips.len()
        invariant
            i <= ips.len(),
            forall|k: int| 0 <= k < i ==> !((#[trigger] ips@[k]).peer_vpn@ == vpn@ && ips@[k].peer_name@ == name@),
        decreases ips.len() - i,
    {
        if ips[i].peer_vpn == *vpn && ips[i].peer_name == *name {
            assert(ips@[i as int].peer_vpn@ == vpn@);
            return false;
        }
        i = i + 1;
    }
    let mut j: usize = 0;
    while j < keys.len()
        invariant
            j <= keys.len(),
            forall|k: int| 0 <= k < i ==> !((#[trigger] ips@[k]).peer_vpn@ == vpn@ && ips@[k].peer_name@ == name@),
            i == ips.len(),
            forall|k: int| 0 <= k < j ==> !((#[trigger] keys@[k]).vpn@ == vpn@
                && (keys@[k].peer1@ == name@ || keys@[k].peer2@ == name@)),
        decreases keys.len() - j,
    {
        if keys[j].vpn == *vpn && (keys[j].peer1 == *name || keys[j].peer2 == *name) {
            assert(keys@[j as int].vpn@ == vpn@);
            return false;
        }
        j = j + 1;
    }
    true
}

/// `x` is the index that a new VPN of `network` gets: the least index that
/// is not negative and above every index in use in that network.
pub open spec fn is_next_vpn_index(vpns: Seq<Vpn>, network: Seq<char>, x: int) -> bool {
    &&& x >= 0
    &&& forall|i: int| 0 <= i < vpns.len() && (#[trigger] vpns[i]).network_name@ == network
        ==> vpns[i].index_in_network < x
    &&& x == 0 || exists|i: int| 0 <= i < vpns.len() && (#[trigger] vpns[i]).network_name@ == network
        && vpns[i].index_in_network == x - 1
}

/// `x` is the index that a new peer of `vpn` gets: the least index that is
/// not negative and above every index in use in that VPN.
pub open spec fn is_next_peer_index(peers: Seq<Peer>, vpn: Seq<char>, x: int) -> bool {
    &&& x >= 0
    &&& forall|i: int| 0 <= i < peers.len() && (#[trigger] peers[i]).vpn_name@ == vpn
        ==> peers[i].index_in_vpn < x
    &&& x == 0 || exists|i: int| 0 <= i < peers.len() && (#[trigger] peers[i]).vpn_name@ == vpn
        && peers[i].index_in_vpn == x - 1
}

/// The index of a new VPN in `network`, or `None` when the largest index in
/// use there is already the largest an index can be.
pub fn next_vpn_index(vpns: &Vec<Vpn>, network: &String) -> (r: Option<i32>)
    ensures
        r matches Some(x) ==> is_next_vpn_index(vpns@, network@, x as int),
        r is None <==> exists|i: int| 0 <= i < vpns.len() && (#[trigger] vpns@[i]).network_name@ == network@
            && vpns@[i].index_in_network == i32::MAX,
{
    let mut best: i64 = -1;
    let mut i: usize = 0;
    while i < vpns.len()
        invariant
            i <= vpns.len(),
            -1 <= best <= i32::MAX,
            forall|k: int| 0 <= k < i && (#[trigger] vpns@[k]).network_name@ == network@
                ==> vpns@[k].index_in_network <= best,
            best == -1 || exists|k: int| 0 <= k < i && (#[trigger] vpns@[k]).network_name@ == network@
                && vpns@[k].index_in_network == best,
        decreases vpns.len() - i,
    {
        if vpns[i].network_name == *network && vpns[i].index_in_network as i64 > best {
            best = vpns[i].index_in_network as i64;
        }
        i = i + 1;
    }
    if best == i32::MAX as i64 {
        None
    } else {
        Some((best + 1) as i32)
    }
}

/// The index of a new peer in `vpn`, or `None` when the largest index in use
/// there is already the largest an index can be.
pub fn next_peer_index(peers: &Vec<Peer>, vpn: &String) -> (r: Option<i32>)
    ensures
        r matches Some(x) ==> is_next_peer_index(peers@, vpn@, x as int),
        r is None <==> exists|i: int| 0 <= i < peers.len() && (#[trigger] peers@[i]).vpn_name@ == vpn@
            && peers@[i].index_in_vpn == i32::MAX,
{
    let mut best: i64 = -1;
    let mut i: usize = 0;
    while i < peers.len()
        invariant
            i <= peers.len(),
            -1 <= best <= i32::MAX,
            forall|k: int| 0 <= k < i && (#[trigger] peers@[k]).vpn_name@ == vpn@
                ==> peers@[k].index_in_vpn <= best,
            best == -1 || exists|k: int| 0 <= k < i && (#[trigger] peers@[k]).vpn_name@ == vpn@
                && peers@[k].index_in_vpn == best,
        decreases peers.len() - i,
    {
        if peers[i].vpn_name == *vpn && peers[i].index_in_vpn as i64 > best {
            best = peers[i].index_in_vpn as i64;
        }
        i = i + 1;
    }
    if best == i32::MAX as i64 {
        None
    } else {
        Some((best + 1) as i32)
    }
}

} // verus!
