//! The debug log: a ring buffer of the most recent log entries, and the
//! names of the dump files it is written to.
use vstd::prelude::*;
use std::collections::VecDeque;
use crate::text::{chars_of, concat_str, eq_lit, starts_with, starts_with_lit, string_of};
use crate::themes::{text_le, text_le_exec};
use crate::paths::{join_path, path_joined};

verus! {

/// Severity of a log entry.
#[derive(Debug, Clone, Copy, PartialEq, Eq, Structural)]
pub enum LogLevel {
    Error,
    Warn,
    Info,
    Debug,
}

/// The name of a log level.
pub open spec fn level_name(l: LogLevel) -> Seq<char> {
    match l {
        LogLevel::Error => "ERROR"@,
        LogLevel::Warn => "WARN"@,
        LogLevel::Info => "INFO"@,
        LogLevel::Debug => "DEBUG"@,
    }
}

/// The level name padded with spaces to five characters, in brackets.
pub open spec fn level_tag(l: LogLevel) -> Seq<char> {
    match l {
        LogLevel::Error => "[ERROR]"@,
        LogLevel::Warn => "[WARN ]"@,
        LogLevel::Info => "[INFO ]"@,
        LogLevel::Debug => "[DEBUG]"@,
    }
}

impl LogLevel {
    /// Upper-case name of the level.
    pub fn as_str(self) -> (r: &'static str)
        ensures
            r@ == level_name(self),
    {
        match self {
            LogLevel::Error => "ERROR",
            LogLevel::Warn => "WARN",
            LogLevel::Info => "INFO",
            LogLevel::Debug => "DEBUG",
        }
    }

    /// The level as a dump line shows it: its name left-aligned in five
    /// columns, in brackets (`"[WARN ]"`).
    pub fn padded(self) -> (r: String)
        ensures
            r@ == level_tag(self),
            r@ == seq!['['] + level_name(self) + Seq::new(
                (5 - level_name(self).len()) as nat,
                |i: int| ' ',
            ) + seq![']'],
    {
        proof {
            reveal_strlit("ERROR");
            reveal_strlit("WARN");
            reveal_strlit("INFO");
            reveal_strlit("DEBUG");
            reveal_strlit("[ERROR]");
            reveal_strlit("[WARN ]");
            reveal_strlit("[INFO ]");
            reveal_strlit("[DEBUG]");
        }
        let r = match self {
            LogLevel::Error => String::from_str("[ERROR]"),
            LogLevel::Warn => String::from_str("[WARN ]"),
            LogLevel::Info => String::from_str("[INFO ]"),
            LogLevel::Debug => String::from_str("[DEBUG]"),
        };
        assert(r@ =~= seq!['['] + level_name(self) + Seq::new(
            (5 - level_name(self).len()) as nat,
            |i: int| ' ',
        ) + seq![']']);
        r
    }
}

/// One entry of the ring buffer.
#[derive(Debug, Clone)]
pub struct LogEntry {
    /// Milliseconds since the Unix epoch.
    pub timestamp_ms: i64,
    pub level: LogLevel,
    pub target: &'static str,
    pub message: String,
}

/// Reads the system clock: `SystemTime::now()`, then `duration_since` the
/// Unix epoch, in whole milliseconds (`Duration::as_millis`); `None` when
/// the clock is set before the epoch, where `duration_since` returns its
/// error. Trusted: nothing is promised of the value, which is the clock's.
/// Unlike `chrono::Local::now()`, this neither panics on a clock set before
/// the epoch nor looks up the local time zone.
#[verifier::external_body]
fn clock_millis() -> (r: Option<u128>) {
    match std::time::SystemTime::now().duration_since(std::time::UNIX_EPOCH) {
        Ok(d) => Some(d.as_millis()),
        Err(_) => None,
    }
}

/// The time stamp of an entry made when the clock reads `clock`
/// (milliseconds since the epoch, `None` before it): that reading, capped at
/// `i64::MAX`, and 0 before the epoch.
pub open spec fn stamp_of(clock: Option<u128>) -> i64 {
    match clock {
        Some(ms) => if ms <= i64::MAX as u128 {
            ms as i64
        } else {
            i64::MAX
        },
        None => 0,
    }
}

/// The time stamp of an entry for a clock reading; see `stamp_of`.
pub fn stamp_from_clock(clock: Option<u128>) -> (r: i64)
    ensures
        r == stamp_of(clock),
{
    match clock {
        Some(ms) => if ms <= i64::MAX as u128 {
            ms as i64
        } else {
            i64::MAX
        },
        None => 0,
    }
}

/// The current time in milliseconds since the Unix epoch; 0 when the clock
/// is set before the epoch.
fn now_millis() -> (r: i64)
    ensures
        r >= 0,
{
    stamp_from_clock(clock_millis())
}

/// What the ring holds after `e` is logged: the oldest entry dropped when
/// the ring already holds `max` or more.
pub open spec fn ring_push<T>(s: Seq<T>, e: T, max: nat) -> Seq<T> {
    if s.len() >= max && s.len() > 0 {
        s.drop_first().push(e)
    } else {
        s.push(e)
    }
}

/// What a ring of capacity `max` holds after `es` are logged into it, in
/// order, starting from `s`.
pub open spec fn ring_push_all<T>(s: Seq<T>, es: Seq<T>, max: nat) -> Seq<T>
    decreases es.len(),
{
    if es.len() == 0 {
        s
    } else {
        ring_push(ring_push_all(s, es.drop_last(), max), es.last(), max)
    }
}

/// The capacity a ring of nominal size `max` keeps: `max`, or one entry
/// when `max` is zero.
pub open spec fn ring_cap(max: nat) -> nat {
    if max == 0 {
        1
    } else {
        max
    }
}

/// Ring buffer of the most recent log entries, and the directory and
/// count of its dumps.
pub struct DebugBuffer {
    entries: VecDeque<LogEntry>,
    max_size: usize,
    dump_dir: String,
    dump_count: usize,
}

impl DebugBuffer {
    /// The entries held, oldest first.
    pub closed spec fn entries_view(&self) -> Seq<LogEntry> {
        self.entries@
    }

    /// How many entries the buffer keeps.
    pub closed spec fn max_size_view(&self) -> nat {
        self.max_size as nat
    }

    /// The directory dumps are written to.
    pub closed spec fn dump_dir_view(&self) -> Seq<char> {
        self.dump_dir@
    }

    /// How many dumps were named so far.
    pub closed spec fn dump_count_view(&self) -> nat {
        self.dump_count as nat
    }

    /// A buffer that keeps the last `max_size` entries and dumps into the
    /// `debug` directory under `data_dir`.
    pub fn new(max_size: usize, data_dir: &str) -> (r: DebugBuffer)
        ensures
            r.entries_view() == Seq::<LogEntry>::empty(),
            r.max_size_view() == max_size,
            r.dump_dir_view() == path_joined(data_dir@, "debug"@),
            r.dump_count_view() == 0,
    {
        DebugBuffer {
            entries: VecDeque::new(),
            max_size,
            dump_dir: join_path(data_dir, "debug"),
            dump_count: 0,
        }
    }

    /// The entries, oldest first.
    pub fn entries(&self) -> (r: &VecDeque<LogEntry>)
        ensures
            r@ == self.entries_view(),
    {
        &self.entries
    }

    /// The nominal capacity.
    pub fn max_size(&self) -> (r: usize)
        ensures
            r == self.max_size_view(),
    {
        self.max_size
    }

    /// The number of dumps written so far.
    pub fn dump_count(&self) -> (r: usize)
        ensures
            r == self.dump_count_view(),
    {
        self.dump_count
    }

    /// The directory dumps are written to.
    pub fn dump_dir(&self) -> (r: &str)
        ensures
            r@ == self.dump_dir_view(),
    {
        self.dump_dir.as_str()
    }

    /// Appends an entry stamped with the current time (milliseconds since
    /// the Unix epoch, 0 when the clock is set before it); once `max_size`
    /// entries are held, the oldest is dropped first.
    pub fn log(&mut self, level: LogLevel, target: &'static str, message: String)
        ensures
            final(self).entries_view().len() > 0,
            final(self).entries_view() == ring_push(
                old(self).entries_view(),
                final(self).entries_view().last(),
                old(self).max_size_view(),
            ),
            final(self).entries_view().last().level == level,
            final(self).entries_view().last().target == target,
            final(self).entries_view().last().message == message,
            final(self).entries_view().last().timestamp_ms >= 0,
            final(self).max_size_view() == old(self).max_size_view(),
            final(self).dump_dir_view() == old(self).dump_dir_view(),
            final(self).dump_count_view() == old(self).dump_count_view(),
    {
        let entry = LogEntry { timestamp_ms: now_millis(), level, target, message };
        self.push_entry(entry);
    }

    /// Appends `entry`; once `max_size` entries are held, the oldest is
    /// dropped first.
    pub fn push_entry(&mut self, entry: LogEntry)
        ensures
            final(self).entries_view() == ring_push(
                old(self).entries_view(),
                entry,
                old(self).max_size_view(),
            ),
            final(self).max_size_view() == old(self).max_size_view(),
            final(self).dump_dir_view() == old(self).dump_dir_view(),
            final(self).dump_count_view() == old(self).dump_count_view(),
    {
        if self.entries.len() >= self.max_size && self.entries.len() > 0 {
            let ghost before = self.entries@;
            self.entries.pop_front();
            assert(self.entries@ =~= before.drop_first());
        }
        self.entries.push_back(entry);
    }

    /// Counts one more dump and returns the file name for it: the first
    /// dump is `clin-debug-<ts>.log`, later ones `clin-debug-<ts>-<n>.log`
    /// with `n` the number of dumps before.
    pub fn next_dump_name(&mut self, ts: &str) -> (r: String)
        requires
            old(self).dump_count_view() < usize::MAX,
        ensures
            r@ == dump_file_name(ts@, old(self).dump_count_view()),
            final(self).dump_count_view() == old(self).dump_count_view() + 1,
            final(self).entries_view() == old(self).entries_view(),
            final(self).max_size_view() == old(self).max_size_view(),
            final(self).dump_dir_view() == old(self).dump_dir_view(),
    {
        let name = dump_name(ts, self.dump_count);
        self.dump_count = self.dump_count + 1;
        name
    }
}

/// A ring never holds more than its capacity.
pub proof fn ring_push_bounded<T>(s: Seq<T>, e: T, max: nat)
    requires
        s.len() <= ring_cap(max),
    ensures
        ring_push(s, e, max).len() <= ring_cap(max),
        ring_push(s, e, max).last() == e,
{
}

/// Logging `es` into an empty ring keeps exactly the most recent
/// `min(es.len(), ring_cap(max))` of them, in order.
pub proof fn ring_keeps_most_recent<T>(es: Seq<T>, max: nat)
    ensures
        ring_push_all(Seq::empty(), es, max) == es.skip(
            es.len() - (if es.len() < ring_cap(max) {
                es.len()
            } else {
                ring_cap(max)
            }),
        ),
    decreases es.len(),
{
    if es.len() > 0 {
        let prev = es.drop_last();
        ring_keeps_most_recent(prev, max);
        let k = if prev.len() < ring_cap(max) {
            prev.len()
        } else {
            ring_cap(max)
        };
        let held = prev.skip(prev.len() - k);
        if held.len() >= max && held.len() > 0 {
            assert(held.drop_first().push(es.last()) =~= es.skip(
                es.len() - (if es.len() < ring_cap(max) {
                    es.len()
                } else {
                    ring_cap(max)
                }),
            ));
        } else {
            assert(held.push(es.last()) =~= es.skip(
                es.len() - (if es.len() < ring_cap(max) {
                    es.len()
                } else {
                    ring_cap(max)
                }),
            ));
        }
    } else {
        assert(es.skip(0) =~= es);
    }
}

// ---------------------------------------------------------------------------
// Dump files
// ---------------------------------------------------------------------------


/// Decimal digits of `n`, most significant first.
pub open spec fn decimal(n: nat) -> Seq<char>
    decreases n,
{
    if n < 10 {
        seq![(n + 48) as char]
    } else {
        decimal(n / 10).push(((n % 10) + 48) as char)
    }
}

/// `n` written in decimal.
pub fn usize_to_decimal(n: usize) -> (r: String)
    ensures
        r@ == decimal(n as nat),
    decreases n,
{
    if n < 10 {
        let mut s = String::new();
        let c = ((n as u8) + 48) as char;
        s.push(c);
        assert(s@ =~= decimal(n as nat));
        s
    } else {
        let mut s = usize_to_decimal(n / 10);
        let c = (((n % 10) as u8) + 48) as char;
        s.push(c);
        s
    }
}

/// The file name of a dump: `clin-debug-<ts>.log` for the first dump,
/// `clin-debug-<ts>-<count>.log` after.
pub open spec fn dump_file_name(ts: Seq<char>, count: nat) -> Seq<char> {
    if count > 0 {
        "clin-debug-"@ + ts + seq!['-'] + decimal(count) + ".log"@
    } else {
        "clin-debug-"@ + ts + ".log"@
    }
}

/// The file name of a dump.
pub fn dump_name(ts: &str, count: usize) -> (r: String)
    ensures
        r@ == dump_file_name(ts@, count as nat),
{
    let head = concat_str("clin-debug-", ts);
    if count > 0 {
        let mut h = head;
        h.push('-');
        let num = usize_to_decimal(count);
        let h2 = concat_str(h.as_str(), num.as_str());
        let r = concat_str(h2.as_str(), ".log");
        assert(r@ =~= dump_file_name(ts@, count as nat));
        r
    } else {
        concat_str(head.as_str(), ".log")
    }
}

/// Whether a file name is that of a dump: it starts with `clin-debug-` and
/// ends with `.log`.
pub open spec fn is_dump_name(name: Seq<char>) -> bool {
    starts_with(name, "clin-debug-"@) && name.len() >= ".log"@.len() && name.subrange(
        name.len() - ".log"@.len(),
        name.len() as int,
    ) == ".log"@
}

/// Whether `name` is the file name of a dump.
pub fn is_dump_file(name: &str) -> (r: bool)
    ensures
        r == is_dump_name(name@),
{
    let v = chars_of(name);
    assert(v@.skip(0) =~= v@);
    if !starts_with_lit(&v, 0, "clin-debug-") {
        return false;
    }
    let n = ".log".unicode_len();
    if v.len() < n {
        return false;
    }
    let ghost tail = v@.subrange(v@.len() - n, v@.len() as int);
    assert(v@.skip(v.len() - n) =~= tail);
    let r = starts_with_lit(&v, v.len() - n, ".log");
    assert(r == (tail == ".log"@)) by {
        assert(tail.subrange(0, n as int) =~= tail);
    }
    r
}

// ---------------------------------------------------------------------------
// Redaction of the configuration dump
// ---------------------------------------------------------------------------

/// The dotted path of a configuration key under `path`.
pub open spec fn child_key_path(path: Seq<char>, key: Seq<char>) -> Seq<char> {
    if path.len() == 0 {
        key
    } else {
        path + seq!['.'] + key
    }
}

/// The dotted path of `key` under `path`.
pub fn child_path(path: &str, key: &str) -> (r: String)
    ensures
        r@ == child_key_path(path@, key@),
{
    if path.unicode_len() == 0 {
        String::from_str(key)
    } else {
        let mut s = String::from_str(path);
        s.push('.');
        s.append(key);
        s
    }
}

/// The configuration keys whose values a dump never shows.
pub open spec fn is_sensitive(p: Seq<char>) -> bool {
    p == "core.storage_path"@ || p == "core.previous_storage_path"@ || p == "core.default_folder"@
        || p == "backup.remote_url"@ || p == "backup.remote_name"@ || p
        == "editor.external_command"@
}

/// Whether the configuration key at dotted path `p` is redacted in dumps.
pub fn is_sensitive_path(p: &str) -> (r: bool)
    ensures
        r == is_sensitive(p@),
{
    let v = chars_of(p);
    eq_lit(&v, "core.storage_path") || eq_lit(&v, "core.previous_storage_path") || eq_lit(
        &v,
        "core.default_folder",
    ) || eq_lit(&v, "backup.remote_url") || eq_lit(&v, "backup.remote_name") || eq_lit(
        &v,
        "editor.external_command",
    )
}


/// The line of a dump that shows one entry, with its time already written
/// out as `stamp`: `[<stamp>] [LEVEL] [<target>] <message>` and a line
/// break.
pub open spec fn entry_line(stamp: Seq<char>, e: LogEntry) -> Seq<char> {
    seq!['['] + stamp + "] "@ + level_tag(e.level) + " ["@ + e.target@ + "] "@ + e.message@
        + seq!['\n']
}

/// The heading of the entries section of a dump.
pub open spec fn entries_heading(max: nat, present: nat) -> Seq<char> {
    "-- Ring buffer entries ("@ + decimal(max) + " max, "@ + decimal(present) + " present) --"@
        + seq!['\n']
}

/// The lines of the first `n` entries.
pub open spec fn entry_lines(stamps: Seq<Seq<char>>, es: Seq<LogEntry>, n: nat) -> Seq<char>
    decreases n,
{
    if n == 0 {
        Seq::empty()
    } else {
        entry_lines(stamps, es, (n - 1) as nat) + entry_line(stamps[n - 1], es[n - 1])
    }
}

/// The views of a list of strings.
pub open spec fn stamp_views(v: Seq<String>) -> Seq<Seq<char>> {
    v.map_values(|p: String| p@)
}

impl DebugBuffer {
    /// The entries section of a dump: its heading with the capacity and the
    /// number of entries, then one line per entry, oldest first.
    /// `stamps[i]` is the time of entry `i` as the dump shows it.
    pub fn render_entries(&self, stamps: &Vec<String>) -> (r: String)
        requires
            stamps@.len() == self.entries_view().len(),
        ensures
            r@ == entries_heading(self.max_size_view(), self.entries_view().len())
                + entry_lines(stamp_views(stamps@), self.entries_view(), self.entries_view().len()),
    {
        proof {
            reveal_strlit("] ");
            reveal_strlit(" [");
        }
        let a = concat_str("-- Ring buffer entries (", usize_to_decimal(self.max_size).as_str());
        let b = concat_str(a.as_str(), " max, ");
        let c = concat_str(b.as_str(), usize_to_decimal(self.entries.len()).as_str());
        let mut out = concat_str(c.as_str(), " present) --");
        out.push('\n');
        let ghost head = out@;
        let mut i: usize = 0;
        while i < self.entries.len()
            invariant
                stamps@.len() == self.entries@.len(),
                i <= self.entries@.len(),
                out@ == head + entry_lines(stamp_views(stamps@), self.entries@, i as nat),
            decreases self.entries@.len() - i,
        {
            let e = &self.entries[i];
            let mut line = String::from_str("[");
            line = concat_str(line.as_str(), stamps[i].as_str());
            line = concat_str(line.as_str(), "] ");
            line = concat_str(line.as_str(), e.level.padded().as_str());
            line = concat_str(line.as_str(), " [");
            line = concat_str(line.as_str(), e.target);
            line = concat_str(line.as_str(), "] ");
            line = concat_str(line.as_str(), e.message.as_str());
            line.push('\n');
            proof {
                reveal_strlit("[");
                assert(stamp_views(stamps@)[i as int] == stamps@[i as int]@);
                assert(line@ =~= entry_line(stamp_views(stamps@)[i as int], self.entries@[i as int]));
            }
            out = concat_str(out.as_str(), line.as_str());
            proof {
                assert(out@ =~= head + entry_lines(stamp_views(stamps@), self.entries@, (i + 1) as nat));
            }
            i = i + 1;
        }
        out
    }
}


/// A file of the dump directory: its name and its modification time, when
/// it could be read.
pub type DumpFile = (String, Option<u128>);

/// Whether `a` is listed before `b` when the dumps are ordered newest
/// first: a later modification time first (a known time before an unknown
/// one), and between equal times the greater name first.
pub open spec fn listed_before(a: (Seq<char>, Option<u128>), b: (Seq<char>, Option<u128>)) -> bool {
    let time_greater = match (a.1, b.1) {
        (Some(x), Some(y)) => x > y,
        (Some(_), None) => true,
        _ => false,
    };
    time_greater || (a.1 == b.1 && !text_le(a.0, b.0))
}

/// The view of a dump directory listing.
pub open spec fn dump_views(files: Seq<DumpFile>) -> Seq<(Seq<char>, Option<u128>)> {
    files.map_values(|f: DumpFile| (f.0@, f.1))
}

/// How many dumps among the first `n` files are listed before `e`.
pub open spec fn dumps_before(fs: Seq<(Seq<char>, Option<u128>)>, e: (Seq<char>, Option<u128>), n: nat) -> nat
    decreases n,
{
    if n == 0 {
        0
    } else {
        dumps_before(fs, e, (n - 1) as nat) + if is_dump_name(fs[n - 1].0) && listed_before(
            fs[n - 1],
            e,
        ) {
            1nat
        } else {
            0nat
        }
    }
}

/// The dumps among the first `n` files that are not among the `keep`
/// newest, in listing order.
pub open spec fn pruned_dumps(fs: Seq<(Seq<char>, Option<u128>)>, keep: nat, n: nat) -> Seq<Seq<char>>
    decreases n,
{
    if n == 0 {
        Seq::empty()
    } else {
        let earlier = pruned_dumps(fs, keep, (n - 1) as nat);
        let e = fs[n - 1];
        if is_dump_name(e.0) && dumps_before(fs, e, fs.len()) >= keep {
            earlier.push(e.0)
        } else {
            earlier
        }
    }
}

/// Whether `a` is listed before `b`.
fn listed_before_exec(a: &DumpFile, b: &DumpFile) -> (r: bool)
    ensures
        r == listed_before((a.0@, a.1), (b.0@, b.1)),
{
    let time_greater = match (a.1, b.1) {
        (Some(x), Some(y)) => x > y,
        (Some(_), None) => true,
        _ => false,
    };
    if time_greater {
        return true;
    }
    if a.1 != b.1 {
        return false;
    }
    let an = chars_of(a.0.as_str());
    let bn = chars_of(b.0.as_str());
    !text_le_exec(&an, &bn)
}

/// The dumps to delete so that only the `keep` newest remain: every dump
/// file (by its name) with at least `keep` dumps listed before it when they
/// are ordered newest first. Other files are left alone. The names of a
/// directory are distinct.
pub fn dumps_to_prune(files: &Vec<DumpFile>, keep: usize) -> (r: Vec<String>)
    ensures
        r@.map_values(|s: String| s@) == pruned_dumps(dump_views(files@), keep as nat, files@.len()),
{
    let ghost fs = dump_views(files@);
    let mut out: Vec<String> = Vec::new();
    let mut i: usize = 0;
    while i < files.len()
        invariant
            fs == dump_views(files@),
            i <= files@.len(),
            out@.map_values(|s: String| s@) == pruned_dumps(fs, keep as nat, i as nat),
        decreases files@.len() - i,
    {
        let e = &files[i];
        proof {
            assert(fs[i as int] == (e.0@, e.1));
        }
        if is_dump_file(e.0.as_str()) {
            let mut count: usize = 0;
            let mut j: usize = 0;
            while j < files.len()
                invariant
                    fs == dump_views(files@),
                    i < files@.len(),
                    j <= files@.len(),
                    fs[i as int] == (e.0@, e.1),
                    count == dumps_before(fs, fs[i as int], j as nat),
                    count <= j,
                decreases files@.len() - j,
            {
                let f = &files[j];
                proof {
                    assert(fs[j as int] == (f.0@, f.1));
                }
                if is_dump_file(f.0.as_str()) && listed_before_exec(f, e) {
                    count = count + 1;
                }
                j = j + 1;
            }
            if count >= keep {
                let ghost pre = out@;
                out.push(e.0.clone());
                proof {
                    assert(out@.map_values(|s: String| s@) =~= pre.map_values(|s: String| s@).push(
                        e.0@,
                    ));
                }
            }
        }
        i = i + 1;
    }
    out
}

} // verus!
