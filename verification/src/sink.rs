//! The rotating log sink as a state machine over plain values. The sink
//! decides, per emitted record, which file actions must happen: open a new
//! file at a day boundary, delete the oldest rotated files beyond the
//! retention ceiling, and append the formatted line to the current file.
//! Performing the file I/O is the caller's side effect.

use vstd::prelude::*;
use vstd::string::StringExecFns;
use crate::logfmt::{format_record, spec_format_record, LogRecord, RemapTable};
use crate::timefmt::Timestamp;

verus! {

/// Default retention ceiling: how many rotated files are kept.
pub const DEFAULT_RETAINED: usize = 90;

/// The directory that holds every log file of the process.
pub fn log_directory() -> (r: &'static str)
    ensures
        r@ == "logs"@,
{
    "logs"
}

/// Static configuration of the sink.
pub struct SinkConfig {
    /// Base name of every log file of this sink.
    pub basename: String,
    /// Maximum count of retained rotated files.
    pub max_rotated: usize,
}

impl SinkConfig {
    /// A configuration with the default retention ceiling.
    pub fn new(basename: String) -> (r: SinkConfig)
        ensures
            r.basename == basename,
            r.max_rotated == DEFAULT_RETAINED,
    {
        SinkConfig { basename, max_rotated: DEFAULT_RETAINED }
    }

    /// A configuration with an explicit retention ceiling.
    pub fn with_retention(basename: String, max_rotated: usize) -> (r: SinkConfig)
        ensures
            r.basename == basename,
            r.max_rotated == max_rotated,
    {
        SinkConfig { basename, max_rotated }
    }
}

/// The name of the file opened at instant `ts`:
/// `<basename>_r<timestamp suffix>.log`. Zero-padded fields make lexical
/// order of names equal chronological order of their instants.
pub open spec fn spec_rotated_name(basename: Seq<char>, ts: Timestamp) -> Seq<char> {
    basename + "_r"@ + ts.spec_file_suffix() + ".log"@
}

/// Renders the file name for the file opened at `ts`.
pub fn rotated_file_name(basename: &String, ts: &Timestamp) -> (r: String)
    requires
        ts.valid(),
    ensures
        r@ == spec_rotated_name(basename@, *ts),
{
    let mut r = basename.clone();
    r.append("_r");
    let s = ts.file_suffix();
    r.append(s.as_str());
    r.append(".log");
    proof {
        assert(r@ =~= spec_rotated_name(basename@, *ts));
    }
    r
}

/// One file-system action the caller must perform, in order.
pub enum SinkAction {
    /// Open (create) a new current file.
    OpenFile { name: String, key: u64 },
    /// Delete a rotated file that fell past the retention ceiling.
    DeleteFile { name: String, key: u64 },
    /// Append one line to the file with the given key.
    WriteLine { line: String, key: u64 },
}

/// The rotating sink: the creation instant of the current file and the
/// creation instants of the retained rotated files, oldest first.
pub struct LogSink {
    pub config: SinkConfig,
    /// Creation instant of the current file; also its identity.
    pub created: Timestamp,
    /// Creation instants of retained rotated files, strictly increasing.
    pub archived: Vec<Timestamp>,
}

/// In a well-formed sink the current file's key strictly exceeds every
/// rotated file's key: since every `WriteLine` a sink ever returns carries
/// the key of its then-current file, no line is ever written to a file
/// that was already rotated.
pub proof fn lemma_current_key_dominates(s: LogSink)
    requires
        s.wf(),
    ensures
        forall|i: int|
            0 <= i < s.archived@.len() ==> (#[trigger] s.archived@[i]).spec_key()
                < s.created.spec_key(),
{
    assert forall|i: int| 0 <= i < s.archived@.len() implies (
    #[trigger] s.archived@[i]).spec_key() < s.created.spec_key() by {
        crate::timefmt::lemma_key_increases(s.archived@[i], s.created);
    }
}

/// Chronological strict order on timestamps is transitive.
pub proof fn lemma_before_trans(a: Timestamp, b: Timestamp, c: Timestamp)
    requires
        a.before(b),
        b.before(c),
    ensures
        a.before(c),
{
}

impl LogSink {
    /// Well-formedness: all instants valid, rotated files strictly ordered,
    /// and every rotated file older than the current one. With
    /// `lemma_key_increases` this puts the current file's key strictly above
    /// every archived key: a line written to the current file can never land
    /// in a rotated one.
    pub open spec fn wf(self) -> bool {
        &&& self.created.valid()
        &&& forall|i: int| 0 <= i < self.archived@.len() ==> (#[trigger] self.archived@[i]).valid()
        &&& forall|i: int, j: int|
            0 <= i < j < self.archived@.len() ==> (#[trigger] self.archived@[i]).before(
                #[trigger] self.archived@[j],
            )
        &&& forall|i: int|
            0 <= i < self.archived@.len() ==> (#[trigger] self.archived@[i]).before(self.created)
    }

    /// Opens a sink: the first file is created at `now`. The returned name
    /// is the file the caller must open; failing to open it is fatal to
    /// startup, by design.
    pub fn new(config: SinkConfig, now: Timestamp) -> (r: (LogSink, String))
        requires
            now.valid(),
        ensures
            r.0.wf(),
            r.0.config == config,
            r.0.created == now,
            r.0.archived@.len() == 0,
            r.1@ == spec_rotated_name(config.basename@, now),
    {
        let name = rotated_file_name(&config.basename, &now);
        (LogSink { config, created: now, archived: Vec::new() }, name)
    }

    /// Emits one record. Exactly one of two shapes comes back:
    ///
    /// * same calendar day as the current file: a single `WriteLine` to the
    ///   current file, state unchanged;
    /// * day boundary crossed: an `OpenFile` for the new current file (whose
    ///   key strictly exceeds the previous file's), then one `DeleteFile`
    ///   per rotated file past the retention ceiling, oldest first, then the
    ///   `WriteLine` — to the new file, never to the closed one.
    ///
    /// The line is the record's JSON rendering under `table`.
    pub fn emit(&mut self, table: &RemapTable, record: &LogRecord) -> (actions: Vec<SinkAction>)
        requires
            old(self).wf(),
            record.timestamp.valid(),
            !record.timestamp.before(old(self).created),
        ensures
            final(self).wf(),
            final(self).config == old(self).config,
            ({
                let aug = old(self).archived@.push(old(self).created);
                let max = old(self).config.max_rotated as int;
                let d = if aug.len() <= max {
                    0
                } else {
                    aug.len() - max
                };
                if record.timestamp.spec_same_day(old(self).created) {
                    &&& *final(self) == *old(self)
                    &&& actions@.len() == 1
                    &&& (actions@[0] matches SinkAction::WriteLine { line, key }
                        && line@ == spec_format_record(table.rules@, *record)
                        && key == old(self).created.spec_key())
                } else {
                    &&& final(self).created == record.timestamp
                    &&& final(self).archived@ == aug.skip(d)
                    &&& actions@.len() == 2 + d
                    &&& (actions@[0] matches SinkAction::OpenFile { name, key }
                        && name@ == spec_rotated_name(
                            old(self).config.basename@,
                            record.timestamp,
                        )
                        && key == record.timestamp.spec_key())
                    &&& forall|j: int|
                        1 <= j <= d ==> (#[trigger] actions@[j] matches SinkAction::DeleteFile {
                            name,
                            key,
                        } && name@ == spec_rotated_name(old(self).config.basename@, aug[j - 1])
                            && key == aug[j - 1].spec_key())
                    &&& (actions@[actions@.len() - 1] matches SinkAction::WriteLine { line, key }
                        && line@ == spec_format_record(table.rules@, *record)
                        && key == record.timestamp.spec_key())
                    &&& old(self).created.spec_key() < record.timestamp.spec_key()
                    &&& forall|x: int, y: int|
                        0 <= x < d && d <= y < aug.len() ==> (#[trigger] aug[x]).before(
                            #[trigger] aug[y],
                        )
                }
            }),
    {
        let line = format_record(table, record);
        let mut actions: Vec<SinkAction> = Vec::new();
        if record.timestamp.same_day(&self.created) {
            let key = self.created.key();
            actions.push(SinkAction::WriteLine { line, key });
            actions
        } else {
            proof {
                assert(old(self).created.before(record.timestamp));
                crate::timefmt::lemma_key_increases(old(self).created, record.timestamp);
            }
            let new_key = record.timestamp.key();
            let name = rotated_file_name(&self.config.basename, &record.timestamp);
            actions.push(SinkAction::OpenFile { name, key: new_key });
            let closed = self.created;
            self.archived.push(closed);
            self.created = record.timestamp;
            let ghost aug: Seq<Timestamp> = old(self).archived@.push(old(self).created);
            let ghost max: int = old(self).config.max_rotated as int;
            let ghost d: int = if aug.len() <= max {
                0
            } else {
                aug.len() - max
            };
            proof {
                assert(self.archived@ =~= aug.skip(0));
            }
            while self.archived.len() > self.config.max_rotated
                invariant
                    self.config == old(self).config,
                    self.created == record.timestamp,
                    record.timestamp.valid(),
                    max == old(self).config.max_rotated as int,
                    d == if aug.len() <= max {
                        0int
                    } else {
                        aug.len() - max
                    },
                    self.archived@.len() <= aug.len(),
                    aug.len() - self.archived@.len() <= d,
                    self.archived@ == aug.skip(aug.len() - self.archived@.len()),
                    actions@.len() == 1 + aug.len() - self.archived@.len(),
                    forall|i: int|
                        0 <= i < aug.len() ==> (#[trigger] aug[i]).valid(),
                    forall|j: int|
                        1 <= j < actions@.len() ==> (
                        #[trigger] actions@[j] matches SinkAction::DeleteFile { name, key }
                            && name@ == spec_rotated_name(
                            old(self).config.basename@,
                            aug[j - 1],
                        ) && key == aug[j - 1].spec_key()),
                    (actions@[0] matches SinkAction::OpenFile { name, key }
                        && name@ == spec_rotated_name(old(self).config.basename@, record.timestamp)
                        && key == record.timestamp.spec_key()),
                decreases self.archived@.len(),
            {
                proof {
                    let k0 = aug.len() - self.archived@.len();
                    assert(self.archived@[0] == aug[k0]);
                    assert(aug[k0].valid());
                }
                let t = self.archived.remove(0);
                let dname = rotated_file_name(&self.config.basename, &t);
                let dkey = t.key();
                actions.push(SinkAction::DeleteFile { name: dname, key: dkey });
                proof {
                    let k = aug.len() - self.archived@.len();
                    assert(self.archived@ =~= aug.skip(k));
                }
            }
            actions.push(SinkAction::WriteLine { line, key: new_key });
            proof {
                let k = aug.len() - self.archived@.len();
                assert(k == d);
                assert forall|i: int, j: int| 0 <= i < j < aug.len() implies (
                #[trigger] aug[i]).before(#[trigger] aug[j]) by {
                    if j == aug.len() - 1 {
                        assert(aug[i] == old(self).archived@[i]);
                    }
                }
                assert forall|i: int| 0 <= i < aug.len() implies (#[trigger] aug[i]).before(
                    record.timestamp,
                ) by {
                    if i < aug.len() - 1 {
                        lemma_before_trans(aug[i], old(self).created, record.timestamp);
                    }
                }
            }
            actions
        }
    }
}

} // verus!
