//! The geometry-free part of the UI settings: the version policy of the
//! settings file, the names of its backup and temporary files, and the
//! debounced write that persists only the latest settings.

use vstd::prelude::*;
use vstd::string::*;
use crate::paths::{
    adjoined, bare_file_name, ends_with, file_at_root, file_in_backslash_dir, file_in_plain_dir, file_name_of, is_path_separator,
    plain_name, renamed_in_place, replace_file_name,
};

verus! {

/// The settings format that this version writes.
pub const CURRENT_SETTINGS_VERSION: u32 = 1;

/// What a settings file allows: whether it may be replaced, and whether it
/// held settings that can be used.
#[derive(Clone, Copy, Debug, PartialEq, Eq, Structural)]
pub struct SourceStatus {
    pub may_overwrite_source: bool,
    pub has_valid_source: bool,
}

/// What a settings source allows, given the version of the settings it
/// held (none when it could not be read or parsed): settings of a future
/// version are neither used nor overwritten; unreadable ones are replaced.
pub open spec fn source_status_for(parsed_version: Option<u32>) -> SourceStatus {
    match parsed_version {
        None => SourceStatus { may_overwrite_source: true, has_valid_source: false },
        Some(version) => if version > CURRENT_SETTINGS_VERSION {
            SourceStatus { may_overwrite_source: false, has_valid_source: false }
        } else {
            SourceStatus { may_overwrite_source: true, has_valid_source: true }
        },
    }
}

pub fn source_status(parsed_version: Option<u32>) -> (status: SourceStatus)
    ensures
        status == source_status_for(parsed_version),
{
    match parsed_version {
        None => SourceStatus { may_overwrite_source: true, has_valid_source: false },
        Some(version) => {
            if version > CURRENT_SETTINGS_VERSION {
                SourceStatus { may_overwrite_source: false, has_valid_source: false }
            } else {
                SourceStatus { may_overwrite_source: true, has_valid_source: true }
            }
        },
    }
}

/// Settings written by a newer version (any format above the current one)
/// are neither used nor overwritten; settings of the current or an older
/// format are used and may be overwritten; settings that could not be read
/// are not used but may be replaced.
pub proof fn law_only_known_formats_are_used(version: u32)
    ensures
        version > CURRENT_SETTINGS_VERSION ==> source_status_for(Some(version)) == (SourceStatus {
            may_overwrite_source: false,
            has_valid_source: false,
        }),
        version <= CURRENT_SETTINGS_VERSION ==> source_status_for(Some(version)) == (SourceStatus {
            may_overwrite_source: true,
            has_valid_source: true,
        }),
        source_status_for(None) == (SourceStatus { may_overwrite_source: true, has_valid_source: false }),
        source_status_for(Some(version)).has_valid_source == (version <= CURRENT_SETTINGS_VERSION),
{
}

/// A settings file that is about to be replaced by defaults is first copied
/// to its backup, unless a backup exists already.
pub fn needs_backup(status: SourceStatus, backup_exists: bool) -> (backup: bool)
    ensures
        backup == (!status.has_valid_source && status.may_overwrite_source && !backup_exists),
{
    !status.has_valid_source && status.may_overwrite_source && !backup_exists
}

proof fn lemma_plain_concat(a: Seq<char>, b: Seq<char>)
    requires
        plain_name(a),
        forall|i: int| 0 <= i < b.len() ==> #[trigger] b[i] != '/' && b[i] != '\\' && b[i] != ':',
    ensures
        plain_name(a + b),
{
    assert forall|i: int| 0 <= i < (a + b).len() implies !(#[trigger] (a + b)[i] == '/' || (a
        + b)[i] == '\\') && (a + b)[i] != ':' by {
        if i < a.len() {
            assert((a + b)[i] == a[i]);
        } else {
            assert((a + b)[i] == b[i - a.len()]);
        }
    }
}

/// `renamed` is the file at `target` renamed to `prefix`, its file name and
/// `suffix`, where its file name is the one that the target has under one of
/// the two readings of a Windows path: the name after the `\` at `k`, or
/// the whole path.
pub open spec fn renamed_with(target: Seq<char>, k: int, prefix: Seq<char>, suffix: Seq<char>, renamed: Seq<char>) -> bool {
    renamed_in_place(target, k, prefix + target.skip(k + 1) + suffix, renamed) || renamed_in_place(
        target,
        k,
        prefix + target + suffix,
        renamed,
    )
}

proof fn lemma_renamed_ends_with(target: Seq<char>, k: int, prefix: Seq<char>, suffix: Seq<char>, renamed: Seq<char>)
    requires
        0 <= k < target.len(),
        renamed_with(target, k, prefix, suffix, renamed),
    ensures
        ends_with(renamed, target.skip(k + 1) + suffix),
{
    let end = target.skip(k + 1) + suffix;
    let short = prefix + target.skip(k + 1) + suffix;
    let long = prefix + target + suffix;
    assert(short.skip(short.len() - end.len()) =~= end);
    assert(long.skip(long.len() - end.len()) =~= end);
    if renamed_in_place(target, k, short, renamed) {
        lemma_renamed_in_place_keeps_end(target, k, short, end, renamed);
    } else {
        lemma_renamed_in_place_keeps_end(target, k, long, end, renamed);
    }
}

proof fn lemma_renamed_in_place_keeps_end(path: Seq<char>, k: int, name: Seq<char>, end: Seq<char>, renamed: Seq<char>)
    requires
        0 <= k < path.len(),
        ends_with(name, end),
        renamed_in_place(path, k, name, renamed),
    ensures
        ends_with(renamed, end),
{
    if renamed != name {
        assert(renamed.skip(k + 1) == name);
        assert(renamed.skip(renamed.len() - end.len()) =~= name.skip(name.len() - end.len()));
    }
}

/// The backup of a settings file: the same name with `.bak` appended, in
/// the same directory; for a bare file name or a file right below `/`, the
/// path with `.bak` appended. For a Windows path written with `\` the
/// backup ends with the file name and `.bak` on every platform; which
/// separator joins it to the directory is left unsaid.
pub fn backup_path(target: &str) -> (backup: String)
    ensures
        forall|k: int|
            #![trigger file_in_plain_dir(target@, k)]
            file_in_plain_dir(target@, k) && plain_name(target@.skip(k + 1)) ==> adjoined(
                target@.take(k),
                target@.skip(k + 1) + ".bak"@,
                backup@,
            ),
        forall|k: int|
            #![trigger file_in_backslash_dir(target@, k)]
            file_in_backslash_dir(target@, k) ==> renamed_with(target@, k, Seq::empty(), ".bak"@, backup@)
                && ends_with(backup@, target@.skip(k + 1) + ".bak"@),
        bare_file_name(target@) || file_at_root(target@) ==> backup@ == target@ + ".bak"@,
{
    let mut name = file_name_of(target);
    let ghost file_name = name@;
    name.append(".bak");
    let backup = replace_file_name(target, name.as_str());
    proof {
        reveal_strlit(".bak");
        assert forall|k: int|
            #![trigger file_in_plain_dir(target@, k)]
            file_in_plain_dir(target@, k) && plain_name(target@.skip(k + 1)) implies plain_name(
                name@,
            ) by {
            lemma_plain_concat(target@.skip(k + 1), ".bak"@);
        }
        assert forall|k: int|
            #![trigger file_in_backslash_dir(target@, k)]
            file_in_backslash_dir(target@, k) implies renamed_with(target@, k, Seq::empty(), ".bak"@, backup@)
                && ends_with(backup@, target@.skip(k + 1) + ".bak"@) by {
            assert(name@[0] == file_name[0]);
            assert(target@.take(k)[0] == target@[0]);
            assert(target@.skip(k + 1)[0] == target@[k + 1]);
            assert(Seq::<char>::empty() + target@.skip(k + 1) =~= target@.skip(k + 1));
            assert(Seq::<char>::empty() + target@ =~= target@);
            lemma_renamed_ends_with(target@, k, Seq::empty(), ".bak"@, backup@);
        }
        if bare_file_name(target@) {
            lemma_plain_concat(target@, ".bak"@);
        }
        if file_at_root(target@) {
            reveal_strlit("/");
            lemma_plain_concat(target@.skip(1), ".bak"@);
            assert("/"@ + (target@.skip(1) + ".bak"@) =~= target@ + ".bak"@);
        }
    }
    backup
}

/// The temporary file that a new settings file is written to before it
/// replaces the target: the name with a leading `.` and a `.tmp` suffix, in
/// the same directory (also for a bare file name or a file right below `/`).
/// For a Windows path written with `\` it ends with the file name and
/// `.tmp` on every platform; which separator joins it to the directory is
/// left unsaid.
pub fn temporary_path(target: &str) -> (temporary: String)
    ensures
        forall|k: int|
            #![trigger file_in_plain_dir(target@, k)]
            file_in_plain_dir(target@, k) && plain_name(target@.skip(k + 1)) ==> adjoined(
                target@.take(k),
                "."@ + target@.skip(k + 1) + ".tmp"@,
                temporary@,
            ),
        forall|k: int|
            #![trigger file_in_backslash_dir(target@, k)]
            file_in_backslash_dir(target@, k) ==> renamed_with(target@, k, "."@, ".tmp"@, temporary@)
                && ends_with(temporary@, target@.skip(k + 1) + ".tmp"@),
        bare_file_name(target@) ==> temporary@ == "."@ + target@ + ".tmp"@,
        file_at_root(target@) ==> temporary@ == "/."@ + target@.skip(1) + ".tmp"@,
{
    let file_name = file_name_of(target);
    let mut name = String::from_str(".");
    name.append(file_name.as_str());
    name.append(".tmp");
    let temporary = replace_file_name(target, name.as_str());
    proof {
        reveal_strlit(".");
        reveal_strlit(".tmp");
        assert forall|k: int|
            #![trigger file_in_plain_dir(target@, k)]
            file_in_plain_dir(target@, k) && plain_name(target@.skip(k + 1)) implies plain_name(
                name@,
            ) by {
            let dot = "."@;
            assert(plain_name(dot));
            lemma_plain_concat(dot, target@.skip(k + 1));
            lemma_plain_concat(dot + target@.skip(k + 1), ".tmp"@);
        }
        assert forall|k: int|
            #![trigger file_in_backslash_dir(target@, k)]
            file_in_backslash_dir(target@, k) implies renamed_with(target@, k, "."@, ".tmp"@, temporary@)
                && ends_with(temporary@, target@.skip(k + 1) + ".tmp"@) by {
            assert(name@[0] == '.');
            lemma_renamed_ends_with(target@, k, "."@, ".tmp"@, temporary@);
        }
        let dot = "."@;
        assert(plain_name(dot));
        if bare_file_name(target@) {
            lemma_plain_concat(dot, target@);
            lemma_plain_concat(dot + target@, ".tmp"@);
        }
        if file_at_root(target@) {
            reveal_strlit("/");
            reveal_strlit("/.");
            lemma_plain_concat(dot, target@.skip(1));
            lemma_plain_concat(dot + target@.skip(1), ".tmp"@);
            assert("/"@ + (dot + target@.skip(1) + ".tmp"@) =~= "/."@ + target@.skip(1) + ".tmp"@);
        }
    }
    temporary
}

/// What a [`PendingWrite`] holds.
pub struct PendingWriteView<S> {
    pub pending: Option<(u64, S)>,
    pub next_token: u64,
    pub stopped: bool,
}

/// The debounced settings write: each scheduled write gets a new token and
/// replaces the pending one; a timer flushes the pending write only if it
/// still holds the token it was started for; shutdown flushes the pending
/// write once and refuses later ones.
pub struct PendingWrite<S> {
    pending: Option<(u64, S)>,
    next_token: u64,
    stopped: bool,
}

impl<S> View for PendingWrite<S> {
    type V = PendingWriteView<S>;

    closed spec fn view(&self) -> PendingWriteView<S> {
        PendingWriteView { pending: self.pending, next_token: self.next_token, stopped: self.stopped }
    }
}

/// The token after `token` (tokens wrap around).
pub open spec fn following_token(token: u64) -> u64 {
    if token == u64::MAX {
        0
    } else {
        (token + 1) as u64
    }
}

/// Scheduling `settings`: a new token, and the settings pending under it
/// unless writes have stopped.
pub open spec fn schedule_step<S>(before: PendingWriteView<S>, settings: S) -> (u64, PendingWriteView<S>) {
    let token = following_token(before.next_token);
    (
        token,
        PendingWriteView {
            pending: if before.stopped {
                before.pending
            } else {
                Some((token, settings))
            },
            next_token: token,
            stopped: before.stopped,
        },
    )
}

/// A timer for `token` fires: the pending settings are due if they were
/// scheduled with that token.
pub open spec fn take_step<S>(before: PendingWriteView<S>, token: u64) -> (Option<S>, PendingWriteView<S>) {
    match before.pending {
        Some((pending, settings)) => if pending == token {
            (Some(settings), PendingWriteView { pending: None, ..before })
        } else {
            (None, before)
        },
        None => (None, before),
    }
}

/// Shutdown: the pending settings are due, and writes stop.
pub open spec fn shutdown_step<S>(before: PendingWriteView<S>) -> (Option<S>, PendingWriteView<S>) {
    (
        match before.pending {
            Some((_, settings)) => Some(settings),
            None => None,
        },
        PendingWriteView { pending: None, next_token: before.next_token, stopped: true },
    )
}

/// Of two writes scheduled in a row, only the later one is persisted: the
/// timer of the earlier one finds nothing due, that of the later one finds
/// the later settings.
pub proof fn law_latest_write_wins<S>(before: PendingWriteView<S>, first: S, second: S)
    requires
        !before.stopped,
    ensures
        ({
            let (first_token, middle) = schedule_step(before, first);
            let (second_token, after) = schedule_step(middle, second);
            &&& take_step(after, first_token) == (None::<S>, after)
            &&& take_step(after, second_token).0 == Some(second)
        }),
{
}

/// Shutdown persists the latest scheduled settings once; afterwards a stale
/// timer finds nothing due and new writes are dropped.
pub proof fn law_shutdown_flushes_latest<S>(before: PendingWriteView<S>, first: S, second: S, late: S)
    requires
        !before.stopped,
    ensures
        ({
            let (first_token, middle) = schedule_step(before, first);
            let (second_token, pending) = schedule_step(middle, second);
            let (due, stopped) = shutdown_step(pending);
            &&& due == Some(second)
            &&& take_step(stopped, first_token).0.is_none()
            &&& take_step(stopped, second_token).0.is_none()
            &&& schedule_step(stopped, late).1.pending.is_none()
            &&& shutdown_step(stopped).0.is_none()
        }),
{
}

impl<S> PendingWrite<S> {
    pub fn new() -> (writer: Self)
        ensures
            writer@ == (PendingWriteView { pending: None::<(u64, S)>, next_token: 0, stopped: false }),
    {
        PendingWrite { pending: None, next_token: 0, stopped: false }
    }

    /// Schedules `settings`, replacing any pending write; after shutdown the
    /// settings are dropped. Returns the token of this write.
    pub fn schedule(&mut self, settings: S) -> (token: u64)
        ensures
            (token, final(self)@) == schedule_step(old(self)@, settings),
    {
        self.next_token = self.next_token.wrapping_add(1);
        if !self.stopped {
            self.pending = Some((self.next_token, settings));
        }
        self.next_token
    }

    /// The pending settings if they are the ones scheduled with `token`;
    /// they are then no longer pending.
    pub fn take_if_current(&mut self, token: u64) -> (due: Option<S>)
        ensures
            (due, final(self)@) == take_step(old(self)@, token),
    {
        let current = match &self.pending {
            Some((pending, _)) => *pending == token,
            None => false,
        };
        if !current {
            return None;
        }
        match self.pending.take() {
            Some((_, settings)) => Some(settings),
            None => None,
        }
    }

    /// Stops accepting writes and hands out the pending one, if any.
    pub fn shutdown(&mut self) -> (due: Option<S>)
        ensures
            (due, final(self)@) == shutdown_step(old(self)@),
    {
        self.stopped = true;
        match self.pending.take() {
            Some((_, settings)) => Some(settings),
            None => None,
        }
    }
}

} // verus!
