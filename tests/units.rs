use vpnutils::cipher::{seal, unseal};
use vpnutils::migrations::{
    migrations, pending, CREATE_ALLOWED_IPS, CREATE_NETWORKS, CREATE_PEERS, CREATE_PEER_STATUSES,
    CREATE_PRESHARED_KEYS, CREATE_VPNS, SEED_PEER_STATUSES,
};
use vpnutils::models::{
    can_add_allowed_ip, can_add_peer, can_add_preshared_key, can_add_vpn, can_remove_network,
    can_remove_peer, can_remove_vpn, is_valid_status, next_peer_index, next_vpn_index,
};
use vpnutils::paths::{history_file_name, join};
use vpnutils::sql::{foreign_keys_on, vacuum_into};
use vpnutils::{path_to_string, AllowedIp, DatabaseError, Network, Peer, PeerStatus, PresharedKey, Vpn};

fn s(x: &str) -> String {
    x.to_string()
}

fn network(name: &str) -> Network {
    Network { name: s(name), address_v4: s("10.0.0.0/8"), address_v6: s("fd00::/8") }
}

fn vpn(name: &str, net: &str) -> Vpn {
    Vpn { name: s(name), network_name: s(net), index_in_network: 0, address_v4: s("10.1.0.0/24"), address_v6: s("fd00:1::/32") }
}

fn peer(vpn: &str, name: &str, status: &str) -> Peer {
    Peer {
        vpn_name: s(vpn),
        name: s(name),
        index_in_vpn: 1,
        private_key: s("priv"),
        public_key: s("pub"),
        address_v4: s("10.1.0.2"),
        address_v6: s("fd00:1::2"),
        endpoint: s(""),
        dns: s(""),
        status: s(status),
    }
}

#[test]
fn path_bytes_become_text() {
    assert_eq!(path_to_string(&b"/tmp/x.db".to_vec()).unwrap(), "/tmp/x.db");
    assert!(matches!(path_to_string(&vec![0x2f, 0xff, 0xfe]), Err(DatabaseError::CannotConvertPath())));
}

#[test]
fn join_puts_one_separator() {
    assert_eq!(join(&s("/tmp/dir"), "database.db"), "/tmp/dir/database.db");
    assert_eq!(join(&s("/tmp/dir/"), "backup.db"), "/tmp/dir/backup.db");
    assert_eq!(join(&s(""), "backup.db"), "backup.db");
}

#[test]
fn vacuum_statement_quotes_path() {
    assert_eq!(vacuum_into(&s("/tmp/a/backup.db")), "VACUUM main INTO '/tmp/a/backup.db'");
    assert_eq!(vacuum_into(&s("/tmp/o'neil/b.db")), "VACUUM main INTO '/tmp/o''neil/b.db'");
    assert_eq!(foreign_keys_on(), "PRAGMA foreign_keys = ON");
}

#[test]
fn pending_migrations_in_order() {
    let all = migrations();
    assert_eq!(all.len(), 2);
    assert_eq!(pending(&all, &vec![]), vec![0, 1]);
    assert_eq!(pending(&all, &vec![all[0].version.clone()]), vec![1]);
    assert_eq!(pending(&all, &vec![all[1].version.clone(), all[0].version.clone()]), Vec::<usize>::new());
    assert_eq!(pending(&all, &vec![s("19990101000000")]), vec![0, 1]);
    assert_eq!(all[0].up, format!("{}{}", CREATE_NETWORKS, CREATE_VPNS));
    assert_eq!(
        all[1].up,
        format!("{}{}{}{}{}", CREATE_PEER_STATUSES, SEED_PEER_STATUSES, CREATE_PEERS, CREATE_ALLOWED_IPS, CREATE_PRESHARED_KEYS)
    );
    assert!(all[0].up.starts_with("CREATE TABLE networks ("));
    assert!(all[1].up.contains("PRIMARY KEY (vpn, peer1, peer2)"));
}

#[test]
fn seal_then_unseal() {
    let image = b"SQLite format 3\0 rows".to_vec();
    let pw = s("supersafe");
    let c1 = seal(&image, &pw).unwrap();
    let c2 = seal(&image, &pw).unwrap();
    assert_ne!(c1, image);
    assert!(c1.starts_with(b"age-encryption.org/v1\n"));
    assert_ne!(c1, c2);
    assert_eq!(unseal(&c1, &pw).unwrap(), image);
    assert_eq!(unseal(&c2, &pw).unwrap(), image);
    assert!(matches!(unseal(&c1, &s("wrong")), Err(DatabaseError::DecryptError(_))));
    let mut broken = c1.clone();
    let last = broken.len() - 1;
    broken[last] ^= 1;
    assert!(matches!(unseal(&broken, &pw), Err(DatabaseError::DecryptError(_))));
}

#[test]
fn vpn_needs_its_network() {
    let nets = vec![network("corp")];
    let vpns = vec![vpn("office", "corp")];
    assert!(can_add_vpn(&nets, &vpns, &vpn("lab", "corp")));
    assert!(!can_add_vpn(&nets, &vpns, &vpn("lab", "home")));
    assert!(!can_add_vpn(&nets, &vpns, &vpn("office", "corp")));
    assert!(!can_remove_network(&vpns, &s("corp")));
    assert!(can_remove_network(&vpns, &s("home")));
}

#[test]
fn peer_needs_its_vpn_and_a_known_status() {
    let vpns = vec![vpn("office", "corp")];
    let peers = vec![peer("office", "alice", "active")];
    assert!(can_add_peer(&vpns, &peers, &peer("office", "bob", "disabled")));
    assert!(!can_add_peer(&vpns, &peers, &peer("office", "alice", "active")));
    assert!(!can_add_peer(&vpns, &peers, &peer("lab", "bob", "active")));
    assert!(!can_add_peer(&vpns, &peers, &peer("office", "bob", "paused")));
    assert!(!can_remove_vpn(&peers, &s("office")));
    assert!(can_remove_vpn(&peers, &s("lab")));
    assert!(is_valid_status(&s("active")));
    assert!(!is_valid_status(&s("Active")));
}

#[test]
fn composite_keys_checked_by_hand() {
    let peers = vec![peer("office", "alice", "active"), peer("office", "bob", "active")];
    let ips = vec![AllowedIp { peer_vpn: s("office"), peer_name: s("alice"), address: s("10.1.0.0/24") }];
    let fresh = AllowedIp { peer_vpn: s("office"), peer_name: s("alice"), address: s("10.2.0.0/24") };
    let dup = AllowedIp { peer_vpn: s("office"), peer_name: s("alice"), address: s("10.1.0.0/24") };
    let orphan = AllowedIp { peer_vpn: s("office"), peer_name: s("carol"), address: s("10.2.0.0/24") };
    assert!(can_add_allowed_ip(&peers, &ips, &fresh));
    assert!(!can_add_allowed_ip(&peers, &ips, &dup));
    assert!(!can_add_allowed_ip(&peers, &ips, &orphan));

    let key = |a: &str, b: &str| PresharedKey { vpn: s("office"), peer1: s(a), peer2: s(b), key: s("k") };
    let keys = vec![key("alice", "bob")];
    assert!(can_add_preshared_key(&peers, &vec![], &key("alice", "bob")));
    assert!(!can_add_preshared_key(&peers, &keys, &key("bob", "alice")));
    assert!(!can_add_preshared_key(&peers, &vec![], &key("alice", "alice")));
    assert!(!can_add_preshared_key(&peers, &vec![], &key("alice", "carol")));

    assert!(!can_remove_peer(&ips, &vec![], &s("office"), &s("alice")));
    assert!(!can_remove_peer(&vec![], &keys, &s("office"), &s("bob")));
    assert!(can_remove_peer(&ips, &keys, &s("office"), &s("carol")));
}

#[test]
fn peer_status_text() {
    assert_eq!(PeerStatus::Active.as_text(), "active");
    assert_eq!(PeerStatus::Disabled.as_text(), "disabled");
    assert_eq!(PeerStatus::from_text(&s("disabled")), Some(PeerStatus::Disabled));
    assert_eq!(PeerStatus::from_text(&s("gone")), None);
    let row = vpnutils::models::PeerStatus { status: PeerStatus::Active.as_text() };
    assert!(is_valid_status(&row.status));
}

#[test]
fn history_name_flattens_separators() {
    assert_eq!(history_file_name(&s("/home/me/t.db")), "history___home__me__t.db.txt");
    assert_eq!(history_file_name(&s("t.db")), "history_t.db.txt");
}

#[test]
fn next_indices_go_above_those_in_use() {
    let mut a = vpn("a", "corp");
    a.index_in_network = 3;
    let mut b = vpn("b", "corp");
    b.index_in_network = 1;
    let mut c = vpn("c", "home");
    c.index_in_network = 9;
    let vpns = vec![a, b, c];
    assert_eq!(next_vpn_index(&vpns, &s("corp")), Some(4));
    assert_eq!(next_vpn_index(&vpns, &s("home")), Some(10));
    assert_eq!(next_vpn_index(&vpns, &s("lab")), Some(0));
    let mut full = vpn("d", "lab");
    full.index_in_network = i32::MAX;
    assert_eq!(next_vpn_index(&vec![full], &s("lab")), None);

    let mut p = peer("office", "alice", "active");
    p.index_in_vpn = -4;
    assert_eq!(next_peer_index(&vec![p], &s("office")), Some(0));
    let peers = vec![peer("office", "alice", "active"), peer("lab", "bob", "active")];
    assert_eq!(next_peer_index(&peers, &s("office")), Some(2));
    let mut last = peer("office", "zed", "active");
    last.index_in_vpn = i32::MAX;
    assert_eq!(next_peer_index(&vec![last], &s("office")), None);
}
