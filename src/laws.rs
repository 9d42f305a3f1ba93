use crate::cipher::{age_plaintext, is_age_file};
use crate::error::DatabaseError;
use crate::store::{is_error, transition, Action, Event, Phase, StoreModel};
use vstd::prelude::*;

verus! {

/// Round trip: the ciphertext that a save writes, read back by an open with
/// the same passphrase, stages exactly the snapshot that was saved. The open
/// may fail (the codec's work bound depends on the machine), but it never
/// stages other bytes.
pub proof fn round_trip(
    saving: StoreModel,
    snapshot: Vec<u8>,
    saved: StoreModel,
    write: Action,
    ciphertext: Vec<u8>,
    opening: StoreModel,
    opened: StoreModel,
    stage: Action,
)
    requires
        saving.phase == Phase::Loading,
        transition(saving, Event::Loaded(snapshot), saved, write),
        write matches Action::ReplaceSource { contents, .. } && contents@ == ciphertext@,
        opening.phase == Phase::Reading,
        opening.password == saving.password,
        transition(opening, Event::Loaded(ciphertext), opened, stage),
    ensures
        opened.phase == Phase::Staging || opened.phase == Phase::Failed,
        opened.phase == Phase::Staging ==> (stage matches Action::WriteWorking { contents, .. }
            && contents@ == snapshot@),
{
}

/// An open whose ciphertext does not authenticate under its passphrase
/// fails with the decryption error kind, and a failed store stays failed:
/// it never becomes ready, so it never hands out a working database.
pub proof fn undecryptable_is_rejected(opening: StoreModel, ciphertext: Vec<u8>, next: StoreModel, a: Action)
    requires
        opening.phase == Phase::Reading,
        transition(opening, Event::Loaded(ciphertext), next, a),
        age_plaintext(ciphertext@, opening.password) is None,
    ensures
        next.phase == Phase::Failed,
        a matches Action::Finish(Err(DatabaseError::DecryptError(_))),
{
}

/// A store that failed to be created or opened stays failed on every event,
/// and asks for nothing but reports an error.
pub proof fn failed_is_final(s: StoreModel, e: Event, t: StoreModel, a: Action)
    requires
        s.phase == Phase::Failed,
        transition(s, e, t, a),
    ensures
        t.phase == Phase::Failed,
        is_error(a),
{
}

/// No double create: when a file already exists at the ciphertext path,
/// creating fails with the create error kind naming that path, and the
/// store is failed, so it never writes there.
pub proof fn no_double_create(s: StoreModel, t: StoreModel, a: Action)
    requires
        s.phase == Phase::Probing,
        transition(s, Event::Exists(true), t, a),
    ensures
        t.phase == Phase::Failed,
        a matches Action::Finish(Err(DatabaseError::CreateError { path, .. })) && path@ == s.source,
{
}

/// The ciphertext file is only ever replaced on the snapshot's bytes, and
/// only by a ciphertext that decrypts to them.
pub proof fn replace_only_with_snapshot(s: StoreModel, e: Event, t: StoreModel, a: Action)
    requires
        transition(s, e, t, a),
        a is ReplaceSource,
    ensures
        s.phase == Phase::Loading,
        e matches Event::Loaded(b) && a matches Action::ReplaceSource { path, contents }
            && path@ == s.source && age_plaintext(contents@, s.password) == Some(b@),
{
}

/// The snapshot's bytes are only read once the snapshot has completed.
pub proof fn load_only_after_snapshot(s: StoreModel, e: Event, t: StoreModel, a: Action)
    requires
        transition(s, e, t, a),
        t.phase == Phase::Loading,
    ensures
        s.phase == Phase::BackingUp,
        e is Completed,
        a matches Action::ReadBackup { path } && path@ == s.backup,
{
}

/// Atomic save: when the snapshot fails, the save ends with an error and
/// asks for nothing more, so the ciphertext file is left as it was; the
/// store stays open.
pub proof fn failed_snapshot_keeps_file(s: StoreModel, e: Event, t: StoreModel, a: Action)
    requires
        s.phase == Phase::BackingUp,
        !(e is Completed),
        transition(s, e, t, a),
    ensures
        t.phase == Phase::Ready,
        is_error(a),
{
}

/// The snapshot file is removed once the new ciphertext is in place, or
/// once the save has failed after taking it: the plaintext snapshot never
/// outlives the save.
pub proof fn remove_after_replace_or_failure(s: StoreModel, e: Event, t: StoreModel, a: Action)
    requires
        transition(s, e, t, a),
        a is RemoveBackup,
    ensures
        (s.phase == Phase::Writing && e is Completed && t.phase == Phase::Cleaning)
            || ((s.phase == Phase::Loading || s.phase == Phase::Writing) && t.phase == Phase::Discarding
            && t.pending matches Some(_)),
{
}

/// A save that failed after its snapshot reports that failure once the
/// snapshot is discarded, and the store is open again.
pub proof fn discarded_save_reports_failure(s: StoreModel, e: Event, t: StoreModel, a: Action)
    requires
        s.phase == Phase::Discarding,
        s.pending is Some,
        transition(s, e, t, a),
    ensures
        t.phase == Phase::Ready,
        a == Action::Finish(Err(s.pending.unwrap())),
{
}

/// Create succeeds when every step it asks for succeeds: with no file at the
/// path, migrations, snapshot, write and removal all completing, it ends
/// ready and reports success, having replaced the file at the path by a
/// ciphertext of the snapshot.
pub proof fn create_succeeds_when_steps_succeed(
    s0: StoreModel,
    s1: StoreModel,
    a1: Action,
    s2: StoreModel,
    a2: Action,
    s3: StoreModel,
    a3: Action,
    snapshot: Vec<u8>,
    s4: StoreModel,
    a4: Action,
    s5: StoreModel,
    a5: Action,
    s6: StoreModel,
    a6: Action,
)
    requires
        s0.phase == Phase::Probing,
        transition(s0, Event::Exists(false), s1, a1),
        transition(s1, Event::Completed, s2, a2),
        transition(s2, Event::Completed, s3, a3),
        transition(s3, Event::Loaded(snapshot), s4, a4),
        transition(s4, Event::Completed, s5, a5),
        transition(s5, Event::Completed, s6, a6),
    ensures
        s6.phase == Phase::Ready,
        a6 matches Action::Finish(Ok(())),
        a4 matches Action::ReplaceSource { path, contents } && path@ == s0.source
            && age_plaintext(contents@, s0.password) == Some(snapshot@),
{
}

/// A save of an open store succeeds when every step it asks for succeeds:
/// snapshot, write and removal completing, it ends ready and reports
/// success, having replaced the file at the path by a ciphertext of the
/// snapshot.
pub proof fn save_succeeds_when_steps_succeed(
    s1: StoreModel,
    s2: StoreModel,
    a2: Action,
    snapshot: Vec<u8>,
    s3: StoreModel,
    a3: Action,
    s4: StoreModel,
    a4: Action,
    s5: StoreModel,
    a5: Action,
)
    requires
        s1.phase == Phase::BackingUp,
        transition(s1, Event::Completed, s2, a2),
        transition(s2, Event::Loaded(snapshot), s3, a3),
        transition(s3, Event::Completed, s4, a4),
        transition(s4, Event::Completed, s5, a5),
    ensures
        s5.phase == Phase::Ready,
        a5 matches Action::Finish(Ok(())),
        a3 matches Action::ReplaceSource { path, contents } && path@ == s1.source
            && age_plaintext(contents@, s1.password) == Some(snapshot@),
{
}

/// The first bytes of every SQLite database file: `SQLite format 3` and a
/// zero byte.
pub open spec fn sqlite_header_start() -> Seq<u8> {
    seq![0x53u8, 0x51u8, 0x4cu8, 0x69u8, 0x74u8, 0x65u8, 0x20u8, 0x66u8, 0x6fu8, 0x72u8, 0x6du8, 0x61u8, 0x74u8, 0x20u8, 0x33u8, 0x00u8]
}

/// Whether `b` begins like a SQLite database file.
pub open spec fn is_sqlite_image(b: Seq<u8>) -> bool {
    b.len() >= sqlite_header_start().len()
        && b.subrange(0, sqlite_header_start().len() as int) == sqlite_header_start()
}

/// The store only writes the working database and the ciphertext file, and
/// what it writes to the ciphertext file is an age file, never a plaintext
/// database image: plaintext is only ever written inside the staging
/// directory.
pub proof fn writes_stay_confined(s: StoreModel, e: Event, t: StoreModel, a: Action)
    requires
        transition(s, e, t, a),
    ensures
        a matches Action::WriteWorking { path, .. } ==> path@ == s.database,
        a matches Action::ReplaceSource { path, contents } ==> path@ == s.source
            && is_age_file(contents@) && !is_sqlite_image(contents@),
{
    if let Action::ReplaceSource { path, contents } = a {
        let b = contents@;
        assert(b.subrange(0, 22)[0] == b[0]);
        if is_sqlite_image(b) {
            assert(b.subrange(0, 16)[0] == b[0]);
        }
    }
}

} // verus!
