use vstd::prelude::*;

verus! {

/// The table of networks, keyed by name.
pub const CREATE_NETWORKS: &'static str = "CREATE TABLE networks (
    name TEXT PRIMARY KEY NOT NULL,
    address_v4 TEXT NOT NULL,
    address_v6 TEXT NOT NULL
);
";

/// The table of VPNs, keyed by name; each belongs to an existing network,
/// which cannot be removed while it has VPNs.
pub const CREATE_VPNS: &'static str = "CREATE TABLE vpns (
    name TEXT PRIMARY KEY NOT NULL,
    network_name TEXT NOT NULL REFERENCES networks(name) ON DELETE RESTRICT ON UPDATE CASCADE,
    index_in_network INTEGER,
    address_v4 TEXT NOT NULL,
    address_v6 TEXT NOT NULL
);
";

/// The closed table of peer statuses.
pub const CREATE_PEER_STATUSES: &'static str = "CREATE TABLE peer_statuses (
    status TEXT PRIMARY KEY NOT NULL
);
";

/// The two statuses a peer may have.
pub const SEED_PEER_STATUSES: &'static str = "INSERT INTO peer_statuses (status) VALUES ('active'), ('disabled');
";

/// The table of peers, keyed by VPN and name; each belongs to an existing
/// VPN, which cannot be removed while it has peers, and has a known status.
pub const CREATE_PEERS: &'static str = "CREATE TABLE peers (
    vpn_name TEXT NOT NULL REFERENCES vpns(name) ON DELETE RESTRICT ON UPDATE CASCADE,
    name TEXT NOT NULL,
    index_in_vpn INTEGER,
    privkey TEXT NOT NULL,
    pubkey TEXT NOT NULL,
    address_v4 TEXT NOT NULL,
    address_v6 TEXT NOT NULL,
    endpoint TEXT,
    dns TEXT,
    status TEXT NOT NULL REFERENCES peer_statuses(status),
    PRIMARY KEY (vpn_name, name)
);
";

/// The table of addresses a peer may route, keyed by peer and address. Its
/// owner is checked by the library, not by a foreign key.
pub const CREATE_ALLOWED_IPS: &'static str = "CREATE TABLE allowed_ips (
    peer_vpn TEXT NOT NULL,
    peer_name TEXT NOT NULL,
    address TEXT NOT NULL,
    PRIMARY KEY (peer_vpn, peer_name, address)
);
";

/// The table of keys shared by two peers of one VPN, keyed by VPN and the
/// pair. Its peers are checked by the library, not by a foreign key.
pub const CREATE_PRESHARED_KEYS: &'static str = "CREATE TABLE preshared_keys (
    vpn TEXT NOT NULL,
    peer1 TEXT NOT NULL,
    peer2 TEXT NOT NULL,
    key TEXT NOT NULL,
    PRIMARY KEY (vpn, peer1, peer2)
);
";

/// One structural change of the schema, known by its version.
pub struct Migration {
    pub version: String,
    pub up: String,
}

/// The statements of the first change: networks and their VPNs.
pub open spec fn first_up() -> Seq<char> {
    CREATE_NETWORKS@ + CREATE_VPNS@
}

/// The statements of the second change: peer statuses, peers, and the two
/// tables keyed by peers.
pub open spec fn second_up() -> Seq<char> {
    CREATE_PEER_STATUSES@ + SEED_PEER_STATUSES@ + CREATE_PEERS@ + CREATE_ALLOWED_IPS@
        + CREATE_PRESHARED_KEYS@
}

/// The schema's structural changes, in the order they are applied.
pub fn migrations() -> (r: Vec<Migration>)
    ensures
        r.len() == 2,
        r[0].version@ == "20211227000000"@,
        r[0].up@ == first_up(),
        r[1].version@ == "20211227000001"@,
        r[1].up@ == second_up(),
{
    let mut first = String::from_str(CREATE_NETWORKS);
    first.append(CREATE_VPNS);
    let mut second = String::from_str(CREATE_PEER_STATUSES);
    second.append(SEED_PEER_STATUSES);
    second.append(CREATE_PEERS);
    second.append(CREATE_ALLOWED_IPS);
    second.append(CREATE_PRESHARED_KEYS);
    let mut r: Vec<Migration> = Vec::new();
    r.push(Migration { version: String::from_str("20211227000000"), up: first });
    r.push(Migration { version: String::from_str("20211227000001"), up: second });
    r
}

/// Whether `version` is among the versions already applied.
pub open spec fn is_applied(applied: Seq<String>, version: Seq<char>) -> bool {
    exists|j: int| 0 <= j < applied.len() && #[trigger] applied[j]@ == version
}

/// The indices into `all` of the migrations still to run: every one whose
/// version has not been applied, each once, in the list's order.
pub open spec fn is_plan(all: Seq<Migration>, applied: Seq<String>, plan: Seq<usize>) -> bool {
    &&& forall|k: int| 0 <= k < plan.len() ==> (#[trigger] plan[k] as int) < all.len()
    &&& forall|k: int, l: int| 0 <= k < l < plan.len() ==> #[trigger] plan[k] < #[trigger] plan[l]
    &&& forall|i: int| 0 <= i < all.len() ==> (!is_applied(applied, #[trigger] all[i].version@)
        <==> exists|k: int| 0 <= k < plan.len() && plan[k] == i)
}

fn applied_contains(applied: &Vec<String>, version: &String) -> (r: bool)
    ensures
        r == is_applied(applied@, version@),
{
    let mut j: usize = 0;
    while j < applied.len()
        invariant
            j <= applied.len(),
            forall|k: int| 0 <= k < j ==> applied@[k]@ != version@,
        decreases applied.len() - j,
    {
        if applied[j] == *version {
            assert(applied@[j as int]@ == version@);
            return true;
        }
        j = j + 1;
    }
    false
}

/// The migrations of `all` still to run, given the versions already
/// applied: nothing on a current database, everything, in order, on an
/// empty one.
pub fn pending(all: &Vec<Migration>, applied: &Vec<String>) -> (plan: Vec<usize>)
    ensures
        is_plan(all@, applied@, plan@),
{
    let mut plan: Vec<usize> = Vec::new();
    let mut i: usize = 0;
    while i < all.len()
        invariant
            i <= all.len(),
            forall|k: int| 0 <= k < plan.len() ==> (#[trigger] plan@[k] as int) < i,
            forall|k: int, l: int| 0 <= k < l < plan.len() ==> #[trigger] plan@[k] < #[trigger] plan@[l],
            forall|m: int| 0 <= m < i ==> (!is_applied(applied@, #[trigger] all@[m].version@)
                <==> exists|k: int| 0 <= k < plan.len() && plan@[k] == m),
        decreases all.len() - i,
    {
        if !applied_contains(applied, &all[i].version) {
            let ghost before = plan@;
            plan.push(i);
            assert forall|m: int| 0 <= m < i + 1 implies (!is_applied(applied@, #[trigger] all@[m].version@)
                <==> exists|k: int| 0 <= k < plan.len() && plan@[k] == m) by {
                if m < i {
                    if exists|k: int| 0 <= k < before.len() && before[k] == m {
                        let k = choose|k: int| 0 <= k < before.len() && before[k] == m;
                        assert(plan@[k] == m);
                    }
                } else {
                    assert(plan@[plan.len() - 1] == m);
                }
            }
        }
        i = i + 1;
    }
    plan
}

} // verus!
