use std::collections::HashMap;
use vpnutils::{recovery_for, Action, DatabaseError, Event, Phase, Recovery, Store};

static PASSWORD: &str = "supersafe";
const STAGING: &str = "/staging";

/// A disk held in memory, with a switch that makes snapshots fail.
struct Disk {
    files: HashMap<String, Vec<u8>>,
    snapshot_fails: bool,
}

impl Disk {
    fn new() -> Disk {
        Disk { files: HashMap::new(), snapshot_fails: false }
    }

    fn event_for(&mut self, action: Action) -> Result<Event, Result<(), DatabaseError>> {
        let backup = format!("{}/backup.db", STAGING);
        Ok(match action {
            Action::CheckExists { path } => Event::Exists(self.files.contains_key(&path)),
            Action::ReadSource { path } | Action::ReadBackup { path } => match self.files.get(&path) {
                Some(b) => Event::Loaded(b.clone()),
                None => Event::Failed(format!("no file at {}", path)),
            },
            Action::WriteWorking { path, contents } | Action::ReplaceSource { path, contents } => {
                self.files.insert(path, contents);
                Event::Completed
            }
            Action::Migrate { path } => {
                self.files.entry(path).or_insert_with(|| b"schema".to_vec());
                Event::Completed
            }
            Action::Snapshot { database, statement } => {
                assert_eq!(statement, format!("VACUUM main INTO '{}'", backup));
                if self.snapshot_fails {
                    Event::Failed(String::from("disk full"))
                } else {
                    let image = self.files.get(&database).cloned().unwrap_or_default();
                    self.files.insert(backup, image);
                    Event::Completed
                }
            }
            Action::RemoveBackup { path } => {
                self.files.remove(&path);
                Event::Completed
            }
            Action::Finish(r) => return Err(r),
        })
    }

    fn run(&mut self, store: &mut Store, first: Action) -> Result<(), DatabaseError> {
        let mut action = first;
        loop {
            match self.event_for(action) {
                Ok(event) => action = store.step(event),
                Err(r) => return r,
            }
        }
    }

    fn create(&mut self, path: &str, password: &str) -> Result<Store, DatabaseError> {
        let (mut store, first) = Store::create(path.to_string(), STAGING.to_string(), password.to_string());
        self.run(&mut store, first).map(|_| store)
    }

    fn open(&mut self, path: &str, password: &str) -> Result<Store, DatabaseError> {
        let (mut store, first) = Store::open(path.to_string(), STAGING.to_string(), password.to_string());
        self.run(&mut store, first).map(|_| store)
    }

    fn save(&mut self, store: &mut Store) -> Result<(), DatabaseError> {
        let first = store.save();
        self.run(store, first)
    }
}

#[test]
fn test_database() {
    let mut disk = Disk::new();
    let db_str = String::from("/data/database.db");

    // file does not exists
    assert!(disk.open(&db_str, "otherpass").is_err());

    // I can create, connect, and save back
    let mut db = disk.create(&db_str, PASSWORD).unwrap();
    assert_eq!(db.database_path(), "/staging/database.db");
    disk.save(&mut db).unwrap();

    // cannot create twice
    assert!(disk.create(&db_str, PASSWORD).is_err());

    // password mismatch
    assert!(disk.open(&db_str, "otherpass").is_err());

    let new = disk.open(&db_str, PASSWORD).unwrap();
    assert_eq!(db_str, db.path());
    assert_eq!(db.path(), new.path());
}

#[test]
fn corp_network_survives_save_and_reopen() {
    let mut disk = Disk::new();
    let mut store = disk.create("t.db", "supersafe").unwrap();
    let image = b"networks: corp 10.0.0.0/8 fd00::/8".to_vec();
    disk.files.insert(store.database_path(), image.clone());
    disk.save(&mut store).unwrap();
    assert!(!disk.files.contains_key("/staging/backup.db"));
    let ciphertext = disk.files["t.db"].clone();
    assert_ne!(ciphertext, image);

    disk.files.remove("/staging/database.db");
    let reopened = disk.open("t.db", "supersafe").unwrap();
    assert_eq!(reopened.phase(), Phase::Ready);
    assert_eq!(disk.files["/staging/database.db"], image);

    let wrong = disk.open("t.db", "wrong");
    assert!(matches!(wrong, Err(DatabaseError::DecryptError(_))));
    assert_eq!(disk.files["t.db"], ciphertext);
}

#[test]
fn missing_file_is_an_open_error_with_its_path() {
    let mut disk = Disk::new();
    match disk.open("absent.db", PASSWORD) {
        Err(DatabaseError::OpenError { path, .. }) => assert_eq!(path, "absent.db"),
        other => panic!("unexpected outcome {:?}", other.map(|s| s.path())),
    }
}

#[test]
fn second_create_keeps_existing_bytes() {
    let mut disk = Disk::new();
    disk.create("s.db", PASSWORD).unwrap();
    let before = disk.files["s.db"].clone();
    match disk.create("s.db", "another") {
        Err(DatabaseError::CreateError { path, .. }) => assert_eq!(path, "s.db"),
        other => panic!("unexpected outcome {:?}", other.map(|s| s.path())),
    }
    assert_eq!(disk.files["s.db"], before);
}

#[test]
fn failed_snapshot_leaves_ciphertext_untouched() {
    let mut disk = Disk::new();
    let mut store = disk.create("a.db", PASSWORD).unwrap();
    let before = disk.files["a.db"].clone();
    disk.files.insert(store.database_path(), b"changed".to_vec());
    disk.snapshot_fails = true;
    let r = disk.save(&mut store);
    assert!(matches!(r, Err(DatabaseError::Other(ref m)) if m == "disk full"));
    assert_eq!(disk.files["a.db"], before);
    assert_eq!(store.phase(), Phase::Ready);
}

#[test]
fn corrupt_ciphertext_is_a_decrypt_error() {
    let mut disk = Disk::new();
    disk.files.insert(String::from("c.db"), b"not an age file".to_vec());
    let r = disk.open("c.db", PASSWORD);
    assert!(matches!(r, Err(DatabaseError::DecryptError(_))));
}

#[test]
fn save_before_open_is_refused() {
    let (mut store, _) = Store::open(String::from("x.db"), STAGING.to_string(), PASSWORD.to_string());
    let a = store.save();
    assert!(matches!(a, Action::Finish(Err(DatabaseError::Other(_)))));
    assert_eq!(store.phase(), Phase::Reading);
}

#[test]
fn migration_failure_fails_the_open() {
    let (mut store, _) = Store::open(String::from("x.db"), STAGING.to_string(), PASSWORD.to_string());
    let mut plain = vec![1u8, 2, 3];
    let sealed = vpnutils::cipher::seal(&plain, &PASSWORD.to_string()).unwrap();
    match store.step(Event::Loaded(sealed)) {
        Action::WriteWorking { path, contents } => {
            assert_eq!(path, "/staging/database.db");
            assert_eq!(contents, plain);
        }
        other => panic!("unexpected action {:?}", other),
    }
    assert!(matches!(store.step(Event::Completed), Action::Migrate { .. }));
    let a = store.step(Event::Failed(String::from("bad sql")));
    assert!(matches!(a, Action::Finish(Err(DatabaseError::MigrationsError(ref m))) if m == "bad sql"));
    assert_eq!(store.phase(), Phase::Failed);
    plain.clear();
    assert!(matches!(store.step(Event::Completed), Action::Finish(Err(DatabaseError::Other(_)))));
    assert_eq!(store.phase(), Phase::Failed);
}

#[test]
fn no_connection_is_a_connection_error() {
    let (mut store, _) = Store::create(String::from("n.db"), STAGING.to_string(), PASSWORD.to_string());
    assert!(matches!(store.step(Event::Exists(false)), Action::Migrate { .. }));
    let a = store.step(Event::NoConnection(String::from("locked")));
    assert!(matches!(a, Action::Finish(Err(DatabaseError::ConnectionError(_)))));
}

#[test]
fn unwritable_destination_is_a_create_error() {
    let mut disk = Disk::new();
    let mut store = disk.create("w.db", PASSWORD).unwrap();
    let first = store.save();
    let mut action = first;
    loop {
        action = match action {
            Action::ReplaceSource { .. } => store.step(Event::Failed(String::from("read-only"))),
            Action::Finish(r) => {
                assert!(matches!(r, Err(DatabaseError::CreateError { ref path, .. }) if path == "w.db"));
                break;
            }
            other => {
                let e = disk.event_for(other).ok().unwrap();
                store.step(e)
            }
        }
    }
    assert_eq!(store.phase(), Phase::Ready);
    assert!(!disk.files.contains_key("/staging/backup.db"));
}

#[test]
fn recovery_policy() {
    let open = DatabaseError::OpenError { source: String::from("missing"), path: String::from("p") };
    assert_eq!(recovery_for(&open), Recovery::CreateNew);
    let wrong = vpnutils::cipher::unseal(&b"garbage".to_vec(), &String::from("pw")).unwrap_err();
    assert_eq!(recovery_for(&wrong), Recovery::InvalidPassword);
    assert_eq!(recovery_for(&DatabaseError::IOError(String::from("x"))), Recovery::Abort);
    assert_eq!(recovery_for(&DatabaseError::CannotConvertPath()), Recovery::Abort);
}

#[test]
fn failed_probe_is_a_create_error_with_its_reason() {
    let (mut store, _) = Store::create(String::from("p.db"), STAGING.to_string(), PASSWORD.to_string());
    let a = store.step(Event::Failed(String::from("permission denied")));
    match a {
        Action::Finish(Err(DatabaseError::CreateError { source, path })) => {
            assert_eq!(source, "permission denied");
            assert_eq!(path, "p.db");
        }
        other => panic!("unexpected action {:?}", other),
    }
    assert_eq!(store.phase(), Phase::Failed);
}

#[test]
fn unexpected_event_is_reported_as_other() {
    let (mut store, _) = Store::open(String::from("u.db"), STAGING.to_string(), PASSWORD.to_string());
    assert!(matches!(store.step(Event::Completed), Action::Finish(Err(DatabaseError::Other(_)))));
    assert_eq!(store.phase(), Phase::Failed);
}
