use crate::cipher::{age_plaintext, is_age_file, seal, unseal};
use crate::error::DatabaseError;
use crate::paths::{join, joined};
use crate::sql::{vacuum_into, vacuum_into_text};
use vstd::prelude::*;

verus! {

/// Where a store stands in its lifecycle. Every phase but `Ready` and
/// `Failed` waits for the outcome of one action.
#[derive(Debug, Clone, Copy, PartialEq, Eq, Structural)]
pub enum Phase {
    /// Creating: waiting to learn whether the ciphertext file exists.
    Probing,
    /// Creating: waiting for the migrations on the fresh working database.
    Initializing,
    /// Opening: waiting for the ciphertext file's bytes.
    Reading,
    /// Opening: waiting for the plaintext to be written as the working database.
    Staging,
    /// Opening: waiting for the migrations on the decrypted working database.
    Migrating,
    /// Open; a save may begin.
    Ready,
    /// Saving: waiting for the snapshot of the working database.
    BackingUp,
    /// Saving: waiting for the snapshot's bytes.
    Loading,
    /// Saving: waiting for the ciphertext to replace the file on disk.
    Writing,
    /// Saving: waiting for the snapshot file to be removed.
    Cleaning,
    /// A save failed after its snapshot was taken: waiting for the snapshot
    /// file to be removed before the failure is reported.
    Discarding,
    /// Creating or opening failed; the store cannot be used.
    Failed,
}

/// What the store asks its caller to do next.
#[derive(Debug)]
pub enum Action {
    /// Report whether a file exists at `path`.
    CheckExists { path: String },
    /// Read the whole file at `path`.
    ReadSource { path: String },
    /// Write `contents` as the file at `path`.
    WriteWorking { path: String, contents: Vec<u8> },
    /// Connect to the database at `path` and run the pending migrations.
    Migrate { path: String },
    /// Connect to the database at `database` and execute `statement`.
    Snapshot { database: String, statement: String },
    /// Read the whole snapshot file at `path`.
    ReadBackup { path: String },
    /// Replace the file at `path` by `contents` in one step, so that a
    /// failure leaves the earlier file as it was.
    ReplaceSource { path: String, contents: Vec<u8> },
    /// Remove the snapshot file at `path`.
    RemoveBackup { path: String },
    /// The operation is over, with this outcome.
    Finish(Result<(), DatabaseError>),
}

/// The outcome of the action last asked for.
#[derive(Debug)]
pub enum Event {
    /// The file does or does not exist.
    Exists(bool),
    /// The file was read; these are its bytes.
    Loaded(Vec<u8>),
    /// The action succeeded.
    Completed,
    /// No connection to the working database could be made.
    NoConnection(String),
    /// The action failed, for this reason.
    Failed(String),
}

/// An encrypted store in the making, open, or being saved: its ciphertext
/// path, its two staging paths, its passphrase and its phase.
pub struct Store {
    source_path: String,
    database_path: String,
    backup_path: String,
    password: String,
    phase: Phase,
    pending: Option<DatabaseError>,
}

pub struct StoreModel {
    pub source: Seq<char>,
    pub database: Seq<char>,
    pub backup: Seq<char>,
    pub password: Seq<char>,
    pub phase: Phase,
    /// The failure a save reports once its snapshot is discarded.
    pub pending: Option<DatabaseError>,
}

impl View for Store {
    type V = StoreModel;

    closed spec fn view(&self) -> StoreModel {
        StoreModel {
            source: self.source_path@,
            database: self.database_path@,
            backup: self.backup_path@,
            password: self.password@,
            phase: self.phase,
            pending: self.pending,
        }
    }
}

/// The working database's path inside a staging directory.
pub open spec fn database_in(staging: Seq<char>) -> Seq<char> {
    joined(staging, "database.db"@)
}

/// The snapshot's path inside a staging directory.
pub open spec fn backup_in(staging: Seq<char>) -> Seq<char> {
    joined(staging, "backup.db"@)
}

/// A step never changes the store's paths or passphrase.
pub open spec fn same_paths(s: StoreModel, t: StoreModel) -> bool {
    &&& t.source == s.source
    &&& t.database == s.database
    &&& t.backup == s.backup
    &&& t.password == s.password
}

/// The action ends the operation with a failure.
pub open spec fn is_error(a: Action) -> bool {
    a matches Action::Finish(Err(_))
}

/// The action ends the operation with a failure of the `Other` kind: the
/// event does not fit the phase.
pub open spec fn is_unexpected(a: Action) -> bool {
    a matches Action::Finish(Err(DatabaseError::Other(_)))
}

/// On an event that does not fit its phase, the store ends in `phase` and
/// the operation with a failure of the `Other` kind. A save that cannot go
/// on ends in `Ready`, with the working database intact; a create or open
/// that cannot go on ends in `Failed`.
pub open spec fn fails_to(t: StoreModel, a: Action, phase: Phase) -> bool {
    t.phase == phase && is_unexpected(a)
}

/// A save failed with `err` after its snapshot was taken: the snapshot file
/// is removed first, and the failure reported after.
pub open spec fn discards(s: StoreModel, t: StoreModel, a: Action, err: DatabaseError) -> bool {
    &&& a matches Action::RemoveBackup { path } && path@ == s.backup
    &&& t.phase == Phase::Discarding
    &&& t.pending == Some(err)
}

/// How the store moves from `s` to `t` on event `e`, asking for action `a`.
pub open spec fn transition(s: StoreModel, e: Event, t: StoreModel, a: Action) -> bool {
    &&& same_paths(s, t)
    &&& match s.phase {
        Phase::Probing => match e {
            Event::Exists(false) => {
                &&& a matches Action::Migrate { path } && path@ == s.database
                &&& t.phase == Phase::Initializing
            },
            Event::Exists(true) => {
                &&& a matches Action::Finish(Err(DatabaseError::CreateError { path, .. }))
                    && path@ == s.source
                &&& t.phase == Phase::Failed
            },
            Event::Failed(m) => {
                &&& a matches Action::Finish(Err(DatabaseError::CreateError { source, path }))
                    && source == m && path@ == s.source
                &&& t.phase == Phase::Failed
            },
            _ => fails_to(t, a, Phase::Failed),
        },
        Phase::Initializing | Phase::Migrating => match e {
            Event::Completed => if s.phase == Phase::Initializing {
                &&& a matches Action::Snapshot { database, statement }
                    && database@ == s.database && statement@ == vacuum_into_text(s.backup)
                &&& t.phase == Phase::BackingUp
            } else {
                &&& a matches Action::Finish(Ok(()))
                &&& t.phase == Phase::Ready
            },
            Event::NoConnection(m) => {
                &&& a == Action::Finish(Err(DatabaseError::ConnectionError(m)))
                &&& t.phase == Phase::Failed
            },
            Event::Failed(m) => {
                &&& a == Action::Finish(Err(DatabaseError::MigrationsError(m)))
                &&& t.phase == Phase::Failed
            },
            _ => fails_to(t, a, Phase::Failed),
        },
        Phase::Reading => match e {
            Event::Loaded(c) => {
                &&& ({
                    &&& a matches Action::WriteWorking { path, contents }
                        && path@ == s.database && age_plaintext(c@, s.password) == Some(contents@)
                    &&& t.phase == Phase::Staging
                } || {
                    &&& a matches Action::Finish(Err(DatabaseError::DecryptError(_)))
                    &&& t.phase == Phase::Failed
                })
                &&& age_plaintext(c@, s.password) is None ==> t.phase == Phase::Failed
            },
            Event::Failed(m) => {
                &&& a matches Action::Finish(Err(DatabaseError::OpenError { source, path }))
                    && source == m && path@ == s.source
                &&& t.phase == Phase::Failed
            },
            _ => fails_to(t, a, Phase::Failed),
        },
        Phase::Staging => match e {
            Event::Completed => {
                &&& a matches Action::Migrate { path } && path@ == s.database
                &&& t.phase == Phase::Migrating
            },
            Event::Failed(m) => {
                &&& a == Action::Finish(Err(DatabaseError::IOError(m)))
                &&& t.phase == Phase::Failed
            },
            _ => fails_to(t, a, Phase::Failed),
        },
        Phase::BackingUp => match e {
            Event::Completed => {
                &&& a matches Action::ReadBackup { path } && path@ == s.backup
                &&& t.phase == Phase::Loading
            },
            Event::NoConnection(m) => {
                &&& a == Action::Finish(Err(DatabaseError::ConnectionError(m)))
                &&& t.phase == Phase::Ready
            },
            Event::Failed(m) => {
                &&& a == Action::Finish(Err(DatabaseError::Other(m)))
                &&& t.phase == Phase::Ready
            },
            _ => fails_to(t, a, Phase::Ready),
        },
        Phase::Loading => match e {
            Event::Loaded(b) => {
                &&& a matches Action::ReplaceSource { path, contents }
                    && path@ == s.source && age_plaintext(contents@, s.password) == Some(b@)
                    && is_age_file(contents@)
                &&& t.phase == Phase::Writing
            },
            Event::Failed(m) => discards(s, t, a, DatabaseError::IOError(m)),
            _ => t.pending matches Some(DatabaseError::Other(_)) && discards(s, t, a, t.pending.unwrap()),
        },
        Phase::Writing => match e {
            Event::Completed => {
                &&& a matches Action::RemoveBackup { path } && path@ == s.backup
                &&& t.phase == Phase::Cleaning
            },
            Event::Failed(m) => {
                &&& t.pending matches Some(DatabaseError::CreateError { source, path })
                    && source == m && path@ == s.source
                &&& discards(s, t, a, t.pending.unwrap())
            },
            _ => t.pending matches Some(DatabaseError::Other(_)) && discards(s, t, a, t.pending.unwrap()),
        },
        Phase::Cleaning => match e {
            Event::Completed => {
                &&& a matches Action::Finish(Ok(()))
                &&& t.phase == Phase::Ready
            },
            Event::Failed(m) => {
                &&& a == Action::Finish(Err(DatabaseError::IOError(m)))
                &&& t.phase == Phase::Ready
            },
            _ => fails_to(t, a, Phase::Ready),
        },
        Phase::Discarding => {
            &&& t.phase == Phase::Ready
            &&& t.pending is None
            &&& match s.pending {
                Some(err) => a == Action::Finish(Err(err)),
                None => is_error(a),
            }
        },
        Phase::Ready | Phase::Failed => fails_to(t, a, s.phase),
    }
}

fn unexpected() -> (a: Action)
    ensures
        is_unexpected(a),
{
    Action::Finish(Err(DatabaseError::Other(String::from_str("event does not fit the store's phase"))))
}

impl Store {
    fn staged(source: String, staging: String, password: String, phase: Phase) -> (r: Store)
        ensures
            r@.source == source@,
            r@.database == database_in(staging@),
            r@.backup == backup_in(staging@),
            r@.password == password@,
            r@.phase == phase,
    {
        let database_path = join(&staging, "database.db");
        let backup_path = join(&staging, "backup.db");
        Store { source_path: source, database_path, backup_path, password, phase, pending: None }
    }

    /// Begins creating a new store whose ciphertext goes to `source`, with
    /// its plaintext staged in the directory `staging`. The first step is to
    /// make sure no file is at `source` yet.
    pub fn create(source: String, staging: String, password: String) -> (r: (Store, Action))
        ensures
            r.0@.source == source@,
            r.0@.database == database_in(staging@),
            r.0@.backup == backup_in(staging@),
            r.0@.password == password@,
            r.0@.phase == Phase::Probing,
            r.1 matches Action::CheckExists { path } && path@ == source@,
    {
        let path = source.clone();
        (Store::staged(source, staging, password, Phase::Probing), Action::CheckExists { path })
    }

    /// Begins opening the store whose ciphertext is at `source`, with its
    /// plaintext staged in the directory `staging`. The first step is to read
    /// the ciphertext.
    pub fn open(source: String, staging: String, password: String) -> (r: (Store, Action))
        ensures
            r.0@.source == source@,
            r.0@.database == database_in(staging@),
            r.0@.backup == backup_in(staging@),
            r.0@.password == password@,
            r.0@.phase == Phase::Reading,
            r.1 matches Action::ReadSource { path } && path@ == source@,
    {
        let path = source.clone();
        (Store::staged(source, staging, password, Phase::Reading), Action::ReadSource { path })
    }

    /// Begins saving an open store: the first step is a snapshot of the
    /// working database. A store that is not open is left as it is.
    pub fn save(&mut self) -> (a: Action)
        ensures
            old(self)@.phase == Phase::Ready ==> {
                &&& a matches Action::Snapshot { database, statement }
                    && database@ == old(self)@.database
                    && statement@ == vacuum_into_text(old(self)@.backup)
                &&& final(self)@.phase == Phase::BackingUp
                &&& same_paths(old(self)@, final(self)@)
            },
            old(self)@.phase != Phase::Ready ==> final(self)@ == old(self)@ && is_unexpected(a),
    {
        if self.phase == Phase::Ready {
            self.phase = Phase::BackingUp;
            Action::Snapshot {
                database: self.database_path.clone(),
                statement: vacuum_into(&self.backup_path),
            }
        } else {
            Action::Finish(Err(DatabaseError::Other(String::from_str("the store is not open"))))
        }
    }

    /// Takes the outcome of the action last asked for and says what to do
    /// next.
    pub fn step(&mut self, event: Event) -> (a: Action)
        ensures
            transition(old(self)@, event, final(self)@, a),
    {
        match self.phase {
            Phase::Probing => match event {
                Event::Exists(false) => {
                    self.phase = Phase::Initializing;
                    Action::Migrate { path: self.database_path.clone() }
                },
                Event::Exists(true) => {
                    self.phase = Phase::Failed;
                    let source = String::from_str("a file already exists there");
                    Action::Finish(Err(DatabaseError::CreateError { source, path: self.source_path.clone() }))
                },
                Event::Failed(source) => {
                    self.phase = Phase::Failed;
                    Action::Finish(Err(DatabaseError::CreateError { source, path: self.source_path.clone() }))
                },
                _ => {
                    self.phase = Phase::Failed;
                    unexpected()
                },
            },
            Phase::Initializing | Phase::Migrating => match event {
                Event::Completed => {
                    if self.phase == Phase::Initializing {
                        self.phase = Phase::BackingUp;
                        Action::Snapshot {
                            database: self.database_path.clone(),
                            statement: vacuum_into(&self.backup_path),
                        }
                    } else {
                        self.phase = Phase::Ready;
                        Action::Finish(Ok(()))
                    }
                },
                Event::NoConnection(m) => {
                    self.phase = Phase::Failed;
                    Action::Finish(Err(DatabaseError::ConnectionError(m)))
                },
                Event::Failed(m) => {
                    self.phase = Phase::Failed;
                    Action::Finish(Err(DatabaseError::MigrationsError(m)))
                },
                _ => {
                    self.phase = Phase::Failed;
                    unexpected()
                },
            },
            Phase::Reading => match event {
                Event::Loaded(c) => match unseal(&c, &self.password) {
                    Ok(contents) => {
                        self.phase = Phase::Staging;
                        Action::WriteWorking { path: self.database_path.clone(), contents }
                    },
                    Err(e) => {
                        self.phase = Phase::Failed;
                        Action::Finish(Err(e))
                    },
                },
                Event::Failed(source) => {
                    self.phase = Phase::Failed;
                    Action::Finish(Err(DatabaseError::OpenError { source, path: self.source_path.clone() }))
                },
                _ => {
                    self.phase = Phase::Failed;
                    unexpected()
                },
            },
            Phase::Staging => match event {
                Event::Completed => {
                    self.phase = Phase::Migrating;
                    Action::Migrate { path: self.database_path.clone() }
                },
                Event::Failed(m) => {
                    self.phase = Phase::Failed;
                    Action::Finish(Err(DatabaseError::IOError(m)))
                },
                _ => {
                    self.phase = Phase::Failed;
                    unexpected()
                },
            },
            Phase::BackingUp => match event {
                Event::Completed => {
                    self.phase = Phase::Loading;
                    Action::ReadBackup { path: self.backup_path.clone() }
                },
                Event::NoConnection(m) => {
                    self.phase = Phase::Ready;
                    Action::Finish(Err(DatabaseError::ConnectionError(m)))
                },
                Event::Failed(m) => {
                    self.phase = Phase::Ready;
                    Action::Finish(Err(DatabaseError::Other(m)))
                },
                _ => {
                    self.phase = Phase::Ready;
                    unexpected()
                },
            },
            Phase::Loading => match event {
                Event::Loaded(b) => match seal(&b, &self.password) {
                    Ok(contents) => {
                        self.phase = Phase::Writing;
                        Action::ReplaceSource { path: self.source_path.clone(), contents }
                    },
                    Err(e) => self.discard(e),
                },
                Event::Failed(m) => self.discard(DatabaseError::IOError(m)),
                _ => self.discard(DatabaseError::Other(String::from_str("event does not fit the store's phase"))),
            },
            Phase::Writing => match event {
                Event::Completed => {
                    self.phase = Phase::Cleaning;
                    Action::RemoveBackup { path: self.backup_path.clone() }
                },
                Event::Failed(source) => {
                    let path = self.source_path.clone();
                    self.discard(DatabaseError::CreateError { source, path })
                },
                _ => self.discard(DatabaseError::Other(String::from_str("event does not fit the store's phase"))),
            },
            Phase::Cleaning => match event {
                Event::Completed => {
                    self.phase = Phase::Ready;
                    Action::Finish(Ok(()))
                },
                Event::Failed(m) => {
                    self.phase = Phase::Ready;
                    Action::Finish(Err(DatabaseError::IOError(m)))
                },
                _ => {
                    self.phase = Phase::Ready;
                    unexpected()
                },
            },
            Phase::Discarding => {
                self.phase = Phase::Ready;
                match self.pending.take() {
                    Some(err) => Action::Finish(Err(err)),
                    None => unexpected(),
                }
            },
            Phase::Ready | Phase::Failed => unexpected(),
        }
    }

    fn discard(&mut self, err: DatabaseError) -> (a: Action)
        ensures
            same_paths(old(self)@, final(self)@),
            discards(old(self)@, final(self)@, a, err),
    {
        self.phase = Phase::Discarding;
        self.pending = Some(err);
        Action::RemoveBackup { path: self.backup_path.clone() }
    }

    /// The store's phase.
    pub fn phase(&self) -> (r: Phase)
        ensures
            r == self@.phase,
    {
        self.phase
    }

    /// The store's identity for display: the ciphertext path, never a
    /// staging path.
    pub fn path(&self) -> (r: String)
        ensures
            r@ == self@.source,
    {
        self.source_path.clone()
    }

    /// The working database's path, for the caller's connections.
    pub fn database_path(&self) -> (r: String)
        ensures
            r@ == self@.database,
    {
        self.database_path.clone()
    }
}

/// What a caller does when opening a store fails.
#[derive(Debug, Clone, Copy, PartialEq, Eq, Structural)]
pub enum Recovery {
    /// Nothing is there to open: create a new store at the path.
    CreateNew,
    /// The ciphertext did not decrypt: report a wrong passphrase and stop,
    /// never replacing the existing store.
    InvalidPassword,
    /// Any other failure: stop.
    Abort,
}

/// Chooses how to react to a failed open. Only a missing or unreadable file
/// leads to creating a new store, so an existing store is never replaced
/// because of a wrong passphrase.
pub fn recovery_for(e: &DatabaseError) -> (r: Recovery)
    ensures
        e is OpenError <==> r == Recovery::CreateNew,
        e is DecryptError <==> r == Recovery::InvalidPassword,
{
    match e {
        DatabaseError::OpenError { .. } => Recovery::CreateNew,
        DatabaseError::DecryptError(_) => Recovery::InvalidPassword,
        _ => Recovery::Abort,
    }
}

} // verus!
