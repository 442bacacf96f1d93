//! Conflict handling: which side wins a two-sided modification, and the
//! de-duplicated name of the copy that keeps the losing side.
//!
//! The local side wins only when its modification time is more than sixty
//! seconds later than the cloud edit time; otherwise the cloud time, the
//! trusted reference, wins.

use vstd::prelude::*;
use vstd::string::*;
use crate::model::{DriveFile, DriveFileView};
use crate::paths::{last_slash, parent_of};
use crate::text::{decimal, push_decimal, push_signed_decimal, signed_decimal};
use crate::hydration::file_name;

verus! {

/// The side of a conflict.
#[derive(Debug, Clone, Copy, PartialEq, Eq, Structural)]
pub enum ConflictSide {
    Local,
    Cloud,
}

/// Outcome of one conflict resolution.
#[derive(Debug)]
pub struct ConflictResolution {
    /// The winning side.
    pub winner: ConflictSide,
    /// Local path of the winning content.
    pub local_path: String,
    /// Path that receives a copy of the losing side.
    pub copy_path: String,
    /// Log line describing the resolution.
    pub log_message: String,
}

/// Resolver that keeps a newest-first log of resolved conflicts.
#[derive(Debug)]
pub struct ConflictResolver {
    log: Vec<String>,
}

/// Text of a timestamp as `YYYY-MM-DD HH-mm-ss` (UTC), as chrono formats it;
/// `None` for a time that chrono cannot represent.
pub uninterp spec fn formatted_stamp(millis: i64) -> Option<Seq<char>>;

/// The stamp text of a time: its formatted text, or nothing when chrono
/// cannot represent the time.
pub open spec fn stamp_text(millis: i64) -> Seq<char> {
    match formatted_stamp(millis) {
        Some(t) => t,
        None => Seq::empty(),
    }
}

/// chrono's text of a millisecond timestamp in UTC
/// (`DateTime::from_timestamp_millis`, then `format("%Y-%m-%d %H-%M-%S")`);
/// `None` when the time is out of chrono's range. Nothing is stated of the
/// text beyond its name.
#[verifier::external_body]
fn chrono_stamp(millis: i64) -> (s: Option<String>)
    ensures
        crate::paths::opt_chars(s) == formatted_stamp(millis),
{
    match chrono::DateTime::from_timestamp_millis(millis) {
        Some(dt) => Some(dt.format("%Y-%m-%d %H-%M-%S").to_string()),
        None => None,
    }
}

/// Text of a timestamp as `YYYY-MM-DD HH:MM:SS` (UTC), as chrono formats it
/// for log lines; `None` for a time that chrono cannot represent.
pub uninterp spec fn formatted_log_time(millis: i64) -> Option<Seq<char>>;

/// The log-line text of a time, or nothing when chrono cannot represent it.
pub open spec fn log_time_text(millis: i64) -> Seq<char> {
    match formatted_log_time(millis) {
        Some(t) => t,
        None => Seq::empty(),
    }
}

/// chrono's log-line text of a millisecond timestamp in UTC
/// (`DateTime::from_timestamp_millis`, then `format("%Y-%m-%d %H:%M:%S")`);
/// `None` when the time is out of chrono's range. Nothing is stated of the
/// text beyond its name.
#[verifier::external_body]
fn chrono_log_time(millis: i64) -> (s: Option<String>)
    ensures
        crate::paths::opt_chars(s) == formatted_log_time(millis),
{
    match chrono::DateTime::from_timestamp_millis(millis) {
        Some(dt) => Some(dt.format("%Y-%m-%d %H:%M:%S").to_string()),
        None => None,
    }
}

fn text_or_empty(s: Option<String>) -> (t: String)
    ensures
        t@ == match crate::paths::opt_chars(s) { Some(x) => x, None => Seq::<char>::empty() },
{
    match s {
        Some(x) => x,
        None => String::new(),
    }
}

/// Format a millisecond timestamp as `YYYY-MM-DD HH-mm-ss` in UTC: the
/// file-name safe form without colons. `None` when the time is out of
/// chrono's range.
pub fn format_timestamp(millis: i64) -> (s: Option<String>)
    ensures
        crate::paths::opt_chars(s) == formatted_stamp(millis),
{
    chrono_stamp(millis)
}

/// The system clock's distance from the Unix epoch in milliseconds
/// (`SystemTime::now().duration_since(UNIX_EPOCH)`): `Ok` when the clock is
/// at or after the epoch, `Err` with the distance when it is before. Nothing
/// is stated of the value: it depends on the clock.
#[verifier::external_body]
fn clock_since_epoch() -> (r: Result<u128, u128>)
{
    match std::time::SystemTime::now().duration_since(std::time::UNIX_EPOCH) {
        Ok(d) => Ok(d.as_millis()),
        Err(e) => Err(e.duration().as_millis()),
    }
}

/// The current time in milliseconds since the epoch, negative before it and
/// held at the ends of `i64`. It depends on the clock, so nothing is stated
/// of it; it never panics, whatever the clock says.
pub(crate) fn now_millis() -> (ms: i64)
{
    match clock_since_epoch() {
        Ok(m) => if m <= 9_223_372_036_854_775_807u128 { m as i64 } else { i64::MAX },
        Err(m) => if m <= 9_223_372_036_854_775_807u128 { 0i64 - (m as i64) } else { i64::MIN },
    }
}

/// The local side wins: its time is more than sixty seconds later.
pub open spec fn local_wins(local_ms: i64, cloud_ms: i64) -> bool {
    local_ms - cloud_ms > 60_000
}

/// The winner of a conflict between a local modification time and a cloud
/// edit time.
pub fn decide_winner(local_mtime_ms: i64, cloud_time_ms: i64) -> (side: ConflictSide)
    ensures
        side == if local_wins(local_mtime_ms, cloud_time_ms) { ConflictSide::Local } else { ConflictSide::Cloud },
{
    let delta: i128 = local_mtime_ms as i128 - cloud_time_ms as i128;
    if delta > 60_000 { ConflictSide::Local } else { ConflictSide::Cloud }
}

/// Label of the copy that keeps the losing side.
pub open spec fn copy_label(winner: ConflictSide) -> Seq<char> {
    match winner {
        ConflictSide::Local => "云端副本"@,
        ConflictSide::Cloud => "本地副本"@,
    }
}

/// The file name part of a path (after its last `/`).
pub open spec fn base_name(path: Seq<char>) -> Seq<char> {
    match last_slash(path) {
        Some(k) => path.subrange(k + 1, path.len() as int),
        None => path,
    }
}

/// Position of the last `.` in a name.
pub open spec fn last_dot(name: Seq<char>) -> Option<int>
    decreases name.len(),
{
    if name.len() == 0 {
        None
    } else if name.last() == '.' {
        Some(name.len() - 1)
    } else {
        last_dot(name.drop_last())
    }
}

/// Stem and extension of a file name: split at the last `.` unless the dot
/// is its first character; `.` and `..` name no file and have an empty stem.
pub open spec fn stem_ext(name: Seq<char>) -> (Seq<char>, Option<Seq<char>>) {
    if name == seq!['.', '.'] || name == seq!['.'] {
        (Seq::empty(), None)
    } else {
        match last_dot(name) {
            Some(k) => if k == 0 {
                (name, None)
            } else {
                (name.subrange(0, k), Some(name.subrange(k + 1, name.len() as int)))
            },
            None => (name, None),
        }
    }
}

/// Name of the copy with sequence number `seq`.
pub open spec fn copy_name(stem: Seq<char>, label: Seq<char>, stamp: Seq<char>, seq: nat, ext: Option<Seq<char>>) -> Seq<char> {
    let base = stem + " ("@ + label + " "@ + stamp + ")"@;
    let numbered = if seq == 0 { base } else { base + " ("@ + decimal(seq) + ")"@ };
    match ext {
        Some(e) => numbered + "."@ + e,
        None => numbered,
    }
}

/// Path of a copy named `name` beside `local_path`.
pub open spec fn sibling(local_path: Seq<char>, name: Seq<char>) -> Seq<char> {
    match parent_of(local_path) {
        Some(dir) => dir + "/"@ + name,
        None => name,
    }
}

/// Split a path into its directory (if any), stem and extension.
fn split_path(path: &str) -> (r: (Option<String>, String, Option<String>))
    ensures
        crate::paths::opt_chars(r.0) == parent_of(path@),
        r.1@ == stem_ext(base_name(path@)).0,
        crate::paths::opt_chars(r.2) == stem_ext(base_name(path@)).1,
{
    let dir = crate::paths::parent_path(path);
    let name = crate::hydration::file_name(path);
    let n = name.unicode_len();
    proof {
        reveal_strlit("..");
        reveal_strlit(".");
        assert(".."@ =~= seq!['.', '.']);
        assert("."@ =~= seq!['.']);
    }
    if crate::paths::str_equal(name.as_str(), "..") || crate::paths::str_equal(name.as_str(), ".") {
        return (dir, String::new(), None);
    }
    let mut i = n;
    assert(name@.take(n as int) =~= name@);
    assert(name@ == base_name(path@));
    while i > 0
        invariant
            i <= n,
            n == name@.len(),
            name@ == base_name(path@),
            name@ != seq!['.', '.'],
            name@ != seq!['.'],
            crate::paths::opt_chars(dir) == parent_of(path@),
            last_dot(name@) == last_dot(name@.take(i as int)),
        decreases i,
    {
        proof {
            assert(name@.take(i as int).drop_last() =~= name@.take(i as int - 1));
            assert(name@.take(i as int).last() == name@[i as int - 1]);
        }
        if name.as_str().get_char(i - 1) == '.' {
            if i - 1 == 0 {
                return (dir, name, None);
            }
            let stem = name.as_str().substring_char(0, i - 1).to_owned();
            let ext = name.as_str().substring_char(i, n).to_owned();
            return (dir, stem, Some(ext));
        }
        i = i - 1;
    }
    assert(name@.take(0) =~= Seq::<char>::empty());
    (dir, name, None)
}

/// Path of the copy with sequence number `seq` beside `local_path`.
fn copy_path_for(
    dir: &Option<String>,
    stem: &str,
    label: &str,
    stamp: &str,
    seq: u64,
    ext: &Option<String>,
) -> (p: String)
    ensures
        p@ == match crate::paths::opt_chars(*dir) {
            Some(d) => d + "/"@ + copy_name(stem@, label@, stamp@, seq as nat,
                crate::paths::opt_chars(*ext)),
            None => copy_name(stem@, label@, stamp@, seq as nat, crate::paths::opt_chars(*ext)),
        },
{
    let mut name = stem.to_owned().concat(" (").concat(label).concat(" ").concat(stamp).concat(")");
    if seq != 0 {
        name = name.concat(" (");
        push_decimal(&mut name, seq);
        name = name.concat(")");
    }
    if let Some(e) = ext {
        name = name.concat(".").concat(e.as_str());
    }
    match dir {
        Some(d) => d.clone().concat("/").concat(name.as_str()),
        None => name,
    }
}

/// The name of the winning side in a log line.
pub open spec fn winner_text(winner: ConflictSide) -> Seq<char> {
    match winner {
        ConflictSide::Local => "本地"@,
        ConflictSide::Cloud => "云端"@,
    }
}

/// The log line of a resolution written at `now_ms`: the time, the file
/// name, the winning side, both sides' times and the copy's file name.
pub open spec fn conflict_log_line(
    now_ms: i64,
    local_path: Seq<char>,
    winner: ConflictSide,
    local_ms: i64,
    cloud_ms: i64,
    copy_path: Seq<char>,
) -> Seq<char> {
    "["@ + log_time_text(now_ms) + "] 冲突："@ + base_name(local_path) + " | 正本="@ + winner_text(winner)
        + " (本地="@ + stamp_text(local_ms) + " 云端="@ + stamp_text(cloud_ms) + ") → 副本 "@ + base_name(copy_path)
}

/// A resolution made with the cloud time `cloud_ms` (the edit time when
/// the cloud file has one, else a clock reading) and logged at `now_ms`: the
/// winner by the sixty-second rule, the copy named after the losing side's
/// time, and the log line of both.
pub open spec fn resolved_at(
    r: ConflictResolution,
    edited: Option<i64>,
    local_path: Seq<char>,
    local_ms: i64,
    taken: Seq<Seq<char>>,
    cloud_ms: i64,
    now_ms: i64,
) -> bool {
    &&& edited matches Some(c) ==> cloud_ms == c
    &&& r.winner == if local_wins(local_ms, cloud_ms) { ConflictSide::Local } else { ConflictSide::Cloud }
    &&& copy_path_chosen(r.copy_path@, local_path, copy_label(r.winner),
        stamp_text(if r.winner == ConflictSide::Local { cloud_ms } else { local_ms }), taken)
    &&& r.log_message@ == conflict_log_line(now_ms, local_path, r.winner, local_ms, cloud_ms, r.copy_path@)
}

impl ConflictResolver {
    /// A resolver with an empty log.
    pub fn new() -> (r: ConflictResolver)
        ensures
            r.log_view() == Seq::<Seq<char>>::empty(),
    {
        let r = ConflictResolver { log: Vec::new() };
        assert(r.log_view() =~= Seq::<Seq<char>>::empty());
        r
    }

    /// The log lines, newest first.
    pub closed spec fn log_view(self) -> Seq<Seq<char>> {
        crate::model::strs(self.log)
    }

    /// The log lines, newest first.
    pub fn log(&self) -> (l: &Vec<String>)
        ensures
            crate::model::strs(*l) == self.log_view(),
    {
        &self.log
    }

    /// Resolve a conflict: decide the winner, and name the copy of the losing
    /// side beside `local_path` (see [`dedupe_copy_path`]). A cloud file
    /// without an edit time is compared at the current time.
    pub fn resolve(
        &mut self,
        local_path: &str,
        cloud_file: &DriveFile,
        local_mtime_ms: i64,
        taken: &Vec<String>,
    ) -> (r: ConflictResolution)
        ensures
            cloud_file.edited_time matches Some(cloud_ms) ==> {
                &&& r.winner == if local_wins(local_mtime_ms, cloud_ms) { ConflictSide::Local } else { ConflictSide::Cloud }
                &&& copy_path_chosen(r.copy_path@, local_path@, copy_label(r.winner),
                    stamp_text(if r.winner == ConflictSide::Local { cloud_ms } else { local_mtime_ms }),
                    crate::model::strs(*taken))
            },
            r.local_path@ == local_path@,
            exists|cloud_ms: i64, now_ms: i64| #[trigger] resolved_at(r, cloud_file.edited_time, local_path@,
                local_mtime_ms, crate::model::strs(*taken), cloud_ms, now_ms),
            final(self).log_view() == old(self).log_view().insert(0, r.log_message@),
    {
        let cloud_time = match cloud_file.edited_time {
            Some(t) => t,
            None => now_millis(),
        };
        let winner = decide_winner(local_mtime_ms, cloud_time);
        let stamp_ms = match winner {
            ConflictSide::Local => cloud_time,
            ConflictSide::Cloud => local_mtime_ms,
        };
        proof {
            reveal_strlit("云端副本");
            reveal_strlit("本地副本");
        }
        let label = match winner {
            ConflictSide::Local => "云端副本",
            ConflictSide::Cloud => "本地副本",
        };
        let copy_path = dedupe_copy_path(local_path, label, stamp_ms, taken);
        let now = now_millis();
        let now_text = text_or_empty(chrono_log_time(now));
        let local_text = text_or_empty(format_timestamp(local_mtime_ms));
        let cloud_text = text_or_empty(format_timestamp(cloud_time));
        let base = file_name(local_path);
        let copy_base = file_name(copy_path.as_str());
        let side = match winner {
            ConflictSide::Local => "本地",
            ConflictSide::Cloud => "云端",
        };
        proof {
            reveal_strlit("本地");
            reveal_strlit("云端");
        }
        let message = "[".to_owned().concat(now_text.as_str()).concat("] 冲突：").concat(base.as_str())
            .concat(" | 正本=").concat(side).concat(" (本地=").concat(local_text.as_str())
            .concat(" 云端=").concat(cloud_text.as_str()).concat(") → 副本 ").concat(copy_base.as_str());
        assert(message@ == conflict_log_line(now, local_path@, winner, local_mtime_ms, cloud_time, copy_path@));
        let ghost before = crate::model::strs(self.log);
        self.log.insert(0, message.clone());
        assert(crate::model::strs(self.log) =~= before.insert(0, message@));
        let r = ConflictResolution {
            winner,
            local_path: local_path.to_owned(),
            copy_path,
            log_message: message,
        };
        assert(resolved_at(r, cloud_file.edited_time, local_path@, local_mtime_ms, crate::model::strs(*taken), cloud_time, now));
        r
    }
}

/// Name of copy number `seq` for a path, label and stamp.
pub open spec fn copy_name_for(local_path: Seq<char>, label: Seq<char>, stamp: Seq<char>, seq: nat) -> Seq<char> {
    copy_name(stem_ext(base_name(local_path)).0, label, stamp, seq, stem_ext(base_name(local_path)).1)
}

/// `path` is the copy path chosen among `taken` names: the first copy number
/// below 1000 whose name is free; when all are taken, the name stamped with
/// some clock reading `t` in milliseconds instead.
pub open spec fn copy_path_chosen(path: Seq<char>, local_path: Seq<char>, label: Seq<char>, stamp: Seq<char>, taken: Seq<Seq<char>>) -> bool {
    if exists|k: nat| k < 1000 && !taken.contains(#[trigger] copy_name_for(local_path, label, stamp, k)) {
        exists|seq: nat| seq < 1000 && path == sibling(local_path, copy_name_for(local_path, label, stamp, seq))
            && !taken.contains(copy_name_for(local_path, label, stamp, seq))
            && forall|k: nat| k < seq ==> taken.contains(#[trigger] copy_name_for(local_path, label, stamp, k))
    } else {
        exists|t: i64| path == sibling(local_path, #[trigger] copy_name_for(local_path, label, signed_decimal(t as int), 0))
    }
}

/// Path of the copy that keeps the losing side: beside `local_path`, named
/// `stem (label stamp)ext` or `stem (label stamp) (n)ext` with the first
/// number `n` below 1000 whose name is not taken; when all are taken, the
/// stamp is replaced by the current time in milliseconds (negative before
/// the epoch).
pub fn dedupe_copy_path(local_path: &str, label: &str, stamp_ms: i64, taken: &Vec<String>) -> (p: String)
    ensures
        copy_path_chosen(p@, local_path@, label@, stamp_text(stamp_ms), crate::model::strs(*taken)),
{
    let (dir, stem, ext) = split_path(local_path);
    let stamp = match format_timestamp(stamp_ms) {
        Some(t) => t,
        None => String::new(),
    };
    let ghost st = stamp_text(stamp_ms);
    assert(stamp@ == st);
    let mut seq: u64 = 0;
    while seq < 1000
        invariant
            seq <= 1000,
            stamp@ == st,
            st == stamp_text(stamp_ms),
            stem@ == stem_ext(base_name(local_path@)).0,
            crate::paths::opt_chars(ext) == stem_ext(base_name(local_path@)).1,
            crate::paths::opt_chars(dir) == parent_of(local_path@),
            forall|k: nat| k < seq ==> crate::model::strs(*taken).contains(#[trigger] copy_name_for(local_path@, label@, st, k)),
        decreases 1000 - seq,
    {
        let name = copy_path_for(&None, stem.as_str(), label, stamp.as_str(), seq, &ext);
        assert(name@ == copy_name_for(local_path@, label@, st, seq as nat));
        if !crate::planner::strings_contain(taken, name.as_str()) {
            let path = match &dir {
                Some(d) => d.clone().concat("/").concat(name.as_str()),
                None => name,
            };
            assert(path@ == sibling(local_path@, copy_name_for(local_path@, label@, st, seq as nat)));
            assert(!crate::model::strs(*taken).contains(copy_name_for(local_path@, label@, st, seq as nat)));
            assert(copy_path_chosen(path@, local_path@, label@, st, crate::model::strs(*taken))) by {
                let w: nat = seq as nat;
                assert(w < 1000 && path@ == sibling(local_path@, copy_name_for(local_path@, label@, st, w))
                    && !crate::model::strs(*taken).contains(copy_name_for(local_path@, label@, st, w))
                    && forall|k: nat| k < w ==> crate::model::strs(*taken).contains(#[trigger] copy_name_for(local_path@, label@, st, k)));
            }
            return path;
        }
        seq = seq + 1;
    }
    let now = now_millis();
    let mut name = stem.concat(" (").concat(label).concat(" ");
    push_signed_decimal(&mut name, now);
    name = name.concat(")");
    if let Some(e) = &ext {
        name = name.concat(".").concat(e.as_str());
    }
    assert(name@ == copy_name_for(local_path@, label@, signed_decimal(now as int), 0));
    proof {
        assert forall|k: nat| k < 1000 implies crate::model::strs(*taken).contains(#[trigger] copy_name_for(local_path@, label@, st, k)) by {}
    }
    let path = match &dir {
        Some(d) => d.clone().concat("/").concat(name.as_str()),
        None => name,
    };
    assert(path@ == sibling(local_path@, copy_name_for(local_path@, label@, signed_decimal(now as int), 0)));
    path
}

} // verus!
