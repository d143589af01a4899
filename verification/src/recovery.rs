//! Recovery of interrupted recordings: finding the temporary channel files a
//! session left behind, ordering the sessions, and planning how each one is
//! turned into a finished recording.

use vstd::prelude::*;
use vstd::string::*;

use crate::ordering::{drawn_from, holds_all, newest_first, sort_newest_first, Dated};
use crate::domain::{loopback_temp_text, mic_temp_text, session_id_text, AudioFormat};
use crate::paths::{join_path, joined_path};
use crate::quality::{professional_view, RecordingQuality};
use crate::text::{append_decimal, decimal, owned, concat2, concat3, str_eq, str_ends_with, str_starts_with, trim_end_matches, trim_suffix_all};

verus! {

// ---------------------------------------------------------------------------
// Recognising temporary files
// ---------------------------------------------------------------------------

/// A file found in the recordings directory.
pub struct FileEntry {
    /// The bare file name.
    pub name: String,
    /// The file's full path.
    pub path: String,
}

/// The session a system-audio temporary file belongs to.
pub open spec fn loopback_session(name: Seq<char>) -> Option<Seq<char>> {
    if "_loopback.wav"@.is_suffix_of(name) {
        Some(trim_suffix_all(name, "_loopback.wav"@))
    } else {
        None
    }
}

/// The session a microphone temporary file belongs to (a name that is a
/// system-audio temporary file is not also a microphone one).
pub open spec fn mic_session(name: Seq<char>) -> Option<Seq<char>> {
    if "_loopback.wav"@.is_suffix_of(name) {
        None
    } else if "_mic.wav"@.is_suffix_of(name) {
        Some(trim_suffix_all(name, "_mic.wav"@))
    } else {
        None
    }
}

/// The session of a temporary file of either kind.
pub open spec fn temp_session(name: Seq<char>) -> Option<Seq<char>> {
    match loopback_session(name) {
        Some(s) => Some(s),
        None => mic_session(name),
    }
}

/// The session of a temporary file, and whether it holds system audio.
pub open spec fn temp_role(name: Seq<char>) -> Option<(Seq<char>, bool)> {
    match loopback_session(name) {
        Some(s) => Some((s, true)),
        None => match mic_session(name) {
            Some(s) => Some((s, false)),
            None => None,
        },
    }
}

/// Recognises a temporary file by its name: the session it belongs to and
/// whether it holds system audio (`true`) or the microphone (`false`).
pub fn temp_file_role(name: &str) -> (r: Option<(String, bool)>)
    ensures
        match r {
            Some((sid, lb)) => temp_role(name@) == Some((sid@, lb)),
            None => temp_role(name@) is None,
        },
{
    proof {
        reveal_strlit("_loopback.wav");
        reveal_strlit("_mic.wav");
    }
    if str_ends_with(name, "_loopback.wav") {
        Some((trim_end_matches(name, "_loopback.wav"), true))
    } else if str_ends_with(name, "_mic.wav") {
        Some((trim_end_matches(name, "_mic.wav"), false))
    } else {
        None
    }
}

/// The path of the last entry that is a temporary file of session `sid`
/// of the given kind (later files of a session replace earlier ones).
pub open spec fn last_path_for(entries: Seq<FileEntry>, sid: Seq<char>, loopback: bool) -> Option<
    Seq<char>,
>
    decreases entries.len(),
{
    if entries.len() == 0 {
        None
    } else {
        let e = entries.last();
        if temp_role(e.name@) == Some((sid, loopback)) {
            Some(e.path@)
        } else {
            last_path_for(entries.drop_last(), sid, loopback)
        }
    }
}

/// Some entry is a temporary file of session `sid`.
pub open spec fn has_session(entries: Seq<FileEntry>, sid: Seq<char>) -> bool {
    exists|i: int| 0 <= i < entries.len() && #[trigger] temp_session(entries[i].name@) == Some(sid)
}

/// The timestamp of a session: its identifier without the `rec-` prefix.
pub open spec fn session_timestamp(sid: Seq<char>) -> Seq<char> {
    if "rec-"@.is_prefix_of(sid) {
        sid.skip(4)
    } else {
        sid
    }
}

/// Computes `session_timestamp`.
pub fn timestamp_of_session(sid: &str) -> (r: String)
    ensures
        r@ == session_timestamp(sid@),
{
    proof {
        reveal_strlit("rec-");
    }
    let v = crate::text::chars_of(sid);
    if str_starts_with(sid, "rec-") {
        crate::text::slice_string(&v, 4, v.len())
    } else {
        crate::text::slice_string(&v, 0, v.len())
    }
}

pub open spec fn opt_view(o: Option<String>) -> Option<Seq<char>> {
    match o {
        Some(s) => Some(s@),
        None => None,
    }
}

// ---------------------------------------------------------------------------
// Grouping the temporary files into sessions
// ---------------------------------------------------------------------------

/// A session whose recording was interrupted before it was processed.
pub struct IncompleteRecording {
    pub session_id: String,
    pub loopback_file: Option<String>,
    pub mic_file: Option<String>,
    pub timestamp: String,
}

/// `g` describes session `g.session_id` of `entries` exactly: it has files
/// there, and its two files are the last of each kind.
pub open spec fn describes(entries: Seq<FileEntry>, g: IncompleteRecording) -> bool {
    &&& has_session(entries, g.session_id@)
    &&& opt_view(g.loopback_file) == last_path_for(entries, g.session_id@, true)
    &&& opt_view(g.mic_file) == last_path_for(entries, g.session_id@, false)
    &&& g.timestamp@ == session_timestamp(g.session_id@)
}

/// No two recordings share a session.
pub open spec fn sessions_distinct(s: Seq<IncompleteRecording>) -> bool {
    forall|a: int, b: int|
        0 <= a < s.len() && 0 <= b < s.len() && a != b ==> #[trigger] s[a].session_id@
            != #[trigger] s[b].session_id@
}

/// Every session that has a temporary file among `entries` is in `s`.
pub open spec fn covers(entries: Seq<FileEntry>, s: Seq<IncompleteRecording>) -> bool {
    forall|i: int|
        0 <= i < entries.len() && (#[trigger] temp_session(entries[i].name@)) is Some ==> exists|
            k: int,
        |
            0 <= k < s.len() && #[trigger] s[k].session_id@ == temp_session(
                entries[i].name@,
            )->0
}

impl Dated for IncompleteRecording {
    open spec fn date(&self) -> Seq<char> {
        self.timestamp@
    }

    fn date_str(&self) -> (r: &str) {
        self.timestamp.as_str()
    }
}

proof fn lemma_last_path_step(entries: Seq<FileEntry>, i: int, sid: Seq<char>, lb: bool)
    requires
        0 <= i < entries.len(),
    ensures
        last_path_for(entries.take(i + 1), sid, lb) == if temp_role(entries[i].name@) == Some(
            (sid, lb),
        ) {
            Some(entries[i].path@)
        } else {
            last_path_for(entries.take(i), sid, lb)
        },
{
    assert(entries.take(i + 1).drop_last() =~= entries.take(i));
    assert(entries.take(i + 1).last() == entries[i]);
}

proof fn lemma_last_path_some(entries: Seq<FileEntry>, sid: Seq<char>, lb: bool)
    requires
        last_path_for(entries, sid, lb) is Some,
    ensures
        has_session(entries, sid),
    decreases entries.len(),
{
    let e = entries.last();
    if temp_role(e.name@) == Some((sid, lb)) {
        assert(temp_session(entries[entries.len() - 1].name@) == Some(sid));
    } else {
        lemma_last_path_some(entries.drop_last(), sid, lb);
        let j = choose|j: int|
            0 <= j < entries.drop_last().len() && #[trigger] temp_session(
                entries.drop_last()[j].name@,
            ) == Some(sid);
        assert(entries.drop_last()[j] == entries[j]);
    }
}

fn clone_opt(o: &Option<String>) -> (r: Option<String>)
    ensures
        opt_view(r) == opt_view(*o),
{
    match o {
        Some(s) => Some(s.clone()),
        None => None,
    }
}

/// Groups the temporary files among `entries` by session. The result
/// holds each session once, in the order its first file was found.
fn group_sessions(entries: &Vec<FileEntry>) -> (r: Vec<IncompleteRecording>)
    ensures
        forall|k: int| 0 <= k < r@.len() ==> #[trigger] describes(entries@, r@[k]),
        sessions_distinct(r@),
        covers(entries@, r@),
{
    let mut sids: Vec<String> = Vec::new();
    let mut lbs: Vec<Option<String>> = Vec::new();
    let mut mics: Vec<Option<String>> = Vec::new();
    let mut i: usize = 0;
    while i < entries.len()
        invariant
            i <= entries@.len(),
            sids@.len() == lbs@.len(),
            sids@.len() == mics@.len(),
            forall|k: int|
                0 <= k < sids@.len() ==> has_session(entries@.take(i as int), #[trigger] sids@[k]@),
            forall|k: int|
                0 <= k < sids@.len() ==> opt_view(#[trigger] lbs@[k]) == last_path_for(
                    entries@.take(i as int),
                    sids@[k]@,
                    true,
                ),
            forall|k: int|
                0 <= k < sids@.len() ==> opt_view(#[trigger] mics@[k]) == last_path_for(
                    entries@.take(i as int),
                    sids@[k]@,
                    false,
                ),
            forall|a: int, b: int|
                0 <= a < sids@.len() && 0 <= b < sids@.len() && a != b ==> #[trigger] sids@[a]@
                    != #[trigger] sids@[b]@,
            forall|j: int|
                0 <= j < i && (#[trigger] temp_session(entries@[j].name@)) is Some ==> exists|
                    k: int,
                |
                    0 <= k < sids@.len() && #[trigger] sids@[k]@ == temp_session(
                        entries@[j].name@,
                    )->0,
        decreases entries.len() - i,
    {
        let ghost old_sids = sids@;
        let ghost old_lbs = lbs@;
        let ghost old_mics = mics@;
        let ghost e = entries@[i as int];
        let ghost prev = entries@.take(i as int);
        let ghost next = entries@.take(i + 1);
        assert(next.drop_last() =~= prev);
        assert(next.last() == e);
        assert(forall|j: int| 0 <= j < i ==> #[trigger] prev[j] == entries@[j]);
        assert(forall|j: int| 0 <= j <= i ==> #[trigger] next[j] == entries@[j]);
        match temp_file_role(entries[i].name.as_str()) {
            None => {
                assert(temp_session(e.name@) is None);
                assert forall|k: int| 0 <= k < sids@.len() implies has_session(
                    next,
                    #[trigger] sids@[k]@,
                ) by {
                    let j = choose|j: int|
                        0 <= j < prev.len() && #[trigger] temp_session(prev[j].name@) == Some(
                            sids@[k]@,
                        );
                    assert(next[j] == prev[j]);
                }
                assert forall|k: int| 0 <= k < sids@.len() implies opt_view(#[trigger] lbs@[k])
                    == last_path_for(next, sids@[k]@, true) by {
                    lemma_last_path_step(entries@, i as int, sids@[k]@, true);
                }
                assert forall|k: int| 0 <= k < sids@.len() implies opt_view(#[trigger] mics@[k])
                    == last_path_for(next, sids@[k]@, false) by {
                    lemma_last_path_step(entries@, i as int, sids@[k]@, false);
                }
            },
            Some((sid, lb)) => {
                assert(temp_session(e.name@) == Some(sid@));
                let mut found: Option<usize> = None;
                let mut k: usize = 0;
                while k < sids.len()
                    invariant_except_break
                        found is None,
                        forall|m: int| 0 <= m < k ==> #[trigger] sids@[m]@ != sid@,
                    invariant
                        k <= sids@.len(),
                    ensures
                        found matches Some(m) ==> m < sids@.len() && sids@[m as int]@ == sid@,
                        found is None ==> forall|m: int|
                            0 <= m < sids@.len() ==> #[trigger] sids@[m]@ != sid@,
                    decreases sids.len() - k,
                {
                    if str_eq(sids[k].as_str(), sid.as_str()) {
                        found = Some(k);
                        break;
                    }
                    k = k + 1;
                }
                match found {
                    Some(m) => {
                        if lb {
                            lbs.set(m, Some(entries[i].path.clone()));
                        } else {
                            mics.set(m, Some(entries[i].path.clone()));
                        }
                    },
                    None => {
                        sids.push(sid);
                        if lb {
                            lbs.push(Some(entries[i].path.clone()));
                            mics.push(None);
                        } else {
                            lbs.push(None);
                            mics.push(Some(entries[i].path.clone()));
                        }
                    },
                }
                assert forall|q: int| 0 <= q < sids@.len() implies has_session(
                    next,
                    #[trigger] sids@[q]@,
                ) by {
                    if q < old_sids.len() {
                        assert(sids@[q] == old_sids[q]);
                        let j = choose|j: int|
                            0 <= j < prev.len() && #[trigger] temp_session(prev[j].name@) == Some(
                                old_sids[q]@,
                            );
                        assert(next[j] == prev[j]);
                    } else {
                        assert(next[i as int] == e);
                        assert(temp_session(next[i as int].name@) == Some(sids@[q]@));
                    }
                }
                assert forall|q: int| 0 <= q < sids@.len() implies opt_view(#[trigger] lbs@[q])
                    == last_path_for(next, sids@[q]@, true) by {
                    lemma_last_path_step(entries@, i as int, sids@[q]@, true);
                    if q < old_sids.len() {
                        assert(sids@[q] == old_sids[q]);
                        match found {
                            Some(m) => {
                                if q != m {
                                    assert(old_sids[q]@ != old_sids[m as int]@);
                                    assert(lbs@[q] == old_lbs[q]);
                                }
                            },
                            None => {
                                assert(old_sids[q]@ != sid@);
                                assert(lbs@[q] == old_lbs[q]);
                            },
                        }
                    } else {
                        assert(sids@[q]@ == sid@);
                        if last_path_for(prev, sid@, true) is Some {
                            lemma_last_path_some(prev, sid@, true);
                            let j = choose|j: int|
                                0 <= j < prev.len() && #[trigger] temp_session(prev[j].name@) == Some(sid@);
                            assert(prev[j] == entries@[j]);
                            let w = choose|w: int|
                                0 <= w < old_sids.len() && #[trigger] old_sids[w]@ == temp_session(
                                    entries@[j].name@,
                                )->0;
                            assert(false);
                        }
                    }
                }
                assert forall|q: int| 0 <= q < sids@.len() implies opt_view(#[trigger] mics@[q])
                    == last_path_for(next, sids@[q]@, false) by {
                    lemma_last_path_step(entries@, i as int, sids@[q]@, false);
                    if q < old_sids.len() {
                        assert(sids@[q] == old_sids[q]);
                        match found {
                            Some(m) => {
                                if q != m {
                                    assert(old_sids[q]@ != old_sids[m as int]@);
                                    assert(mics@[q] == old_mics[q]);
                                }
                            },
                            None => {
                                assert(old_sids[q]@ != sid@);
                                assert(mics@[q] == old_mics[q]);
                            },
                        }
                    } else {
                        assert(sids@[q]@ == sid@);
                        if last_path_for(prev, sid@, false) is Some {
                            lemma_last_path_some(prev, sid@, false);
                            let j = choose|j: int|
                                0 <= j < prev.len() && #[trigger] temp_session(prev[j].name@) == Some(sid@);
                            assert(prev[j] == entries@[j]);
                            let w = choose|w: int|
                                0 <= w < old_sids.len() && #[trigger] old_sids[w]@ == temp_session(
                                    entries@[j].name@,
                                )->0;
                            assert(false);
                        }
                    }
                }
                assert forall|j: int|
                    0 <= j < i + 1 && (#[trigger] temp_session(
                        entries@[j].name@,
                    )) is Some implies exists|q: int|
                    0 <= q < sids@.len() && #[trigger] sids@[q]@ == temp_session(
                        entries@[j].name@,
                    )->0 by {
                    if j < i {
                        let q = choose|q: int|
                            0 <= q < old_sids.len() && #[trigger] old_sids[q]@ == temp_session(
                                entries@[j].name@,
                            )->0;
                        assert(sids@[q] == old_sids[q]);
                    } else {
                        match found {
                            Some(m) => {
                                assert(sids@[m as int]@ == sid@);
                            },
                            None => {
                                assert(sids@[old_sids.len() as int]@ == sid@);
                            },
                        }
                    }
                }
            },
        }
        i = i + 1;
    }
    assert(entries@.take(i as int) =~= entries@);
    let mut r: Vec<IncompleteRecording> = Vec::new();
    let mut k: usize = 0;
    while k < sids.len()
        invariant
            k <= sids@.len(),
            sids@.len() == lbs@.len(),
            sids@.len() == mics@.len(),
            r@.len() == k,
            forall|q: int| 0 <= q < k ==> #[trigger] r@[q].session_id@ == sids@[q]@,
            forall|q: int| 0 <= q < k ==> opt_view(#[trigger] r@[q].loopback_file) == opt_view(lbs@[q]),
            forall|q: int| 0 <= q < k ==> opt_view(#[trigger] r@[q].mic_file) == opt_view(mics@[q]),
            forall|q: int|
                0 <= q < k ==> #[trigger] r@[q].timestamp@ == session_timestamp(sids@[q]@),
        decreases sids.len() - k,
    {
        let sid = sids[k].clone();
        let ts = timestamp_of_session(sid.as_str());
        let g = IncompleteRecording {
            session_id: sid,
            loopback_file: clone_opt(&lbs[k]),
            mic_file: clone_opt(&mics[k]),
            timestamp: ts,
        };
        assert(g.session_id@ == sids@[k as int]@);
        assert(g.timestamp@ == session_timestamp(sids@[k as int]@));
        let ghost old_r = r@;
        r.push(g);
        assert forall|q: int| 0 <= q < k + 1 implies #[trigger] r@[q].session_id@ == sids@[q]@ by {
            if q < k {
                assert(r@[q] == old_r[q]);
                assert(old_r[q].session_id@ == sids@[q]@);
            } else {
                assert(r@[q] == g);
            }
        }
        assert forall|q: int| 0 <= q < k + 1 implies #[trigger] r@[q].timestamp@ == session_timestamp(
            sids@[q]@,
        ) by {
            if q < k {
                assert(r@[q] == old_r[q]);
                assert(old_r[q].timestamp@ == session_timestamp(sids@[q]@));
            } else {
                assert(r@[q] == g);
            }
        }
        k = k + 1;
    }
    assert forall|q: int| 0 <= q < r@.len() implies #[trigger] describes(entries@, r@[q]) by {
        assert(r@[q].session_id@ == sids@[q]@);
    }
    assert forall|a: int, b: int|
        0 <= a < r@.len() && 0 <= b < r@.len() && a != b implies #[trigger] r@[a].session_id@
        != #[trigger] r@[b].session_id@ by {
        assert(r@[a].session_id@ == sids@[a]@);
        assert(r@[b].session_id@ == sids@[b]@);
    }
    assert forall|j: int|
        0 <= j < entries@.len() && (#[trigger] temp_session(
            entries@[j].name@,
        )) is Some implies exists|q: int|
        0 <= q < r@.len() && #[trigger] r@[q].session_id@ == temp_session(entries@[j].name@)->0 by {
        let q = choose|q: int|
            0 <= q < sids@.len() && #[trigger] sids@[q]@ == temp_session(entries@[j].name@)->0;
        assert(r@[q].session_id@ == sids@[q]@);
    }
    r
}

/// Finds the sessions left behind among the files of the recordings
/// directory: one entry per session with a temporary file, holding the
/// last file of each kind, most recent timestamp first.
pub fn find_incomplete_recordings(entries: &Vec<FileEntry>) -> (r: Vec<IncompleteRecording>)
    ensures
        forall|k: int| 0 <= k < r@.len() ==> #[trigger] describes(entries@, r@[k]),
        sessions_distinct(r@),
        covers(entries@, r@),
        newest_first(r@),
{
    let groups = group_sessions(entries);
    let ghost g = groups@;
    assert(sessions_distinct(g));
    proof {
        assert forall|a: int, b: int| 0 <= a < g.len() && 0 <= b < g.len() && a != b implies #[trigger] g[a]
            != #[trigger] g[b] by {
            assert(g[a].session_id@ != g[b].session_id@);
        }
    }
    let r = sort_newest_first(groups);
    proof {
        reveal(drawn_from);
        reveal(holds_all);
        assert forall|a: int, b: int|
            0 <= a < r@.len() && 0 <= b < r@.len() && a != b implies #[trigger] r@[a].session_id@
            != #[trigger] r@[b].session_id@ by {
            let ja = choose|j: int| #![trigger g[j]] 0 <= j < g.len() && r@[a] == g[j];
            let jb = choose|j: int| #![trigger g[j]] 0 <= j < g.len() && r@[b] == g[j];
            if ja != jb {
                assert(g[ja].session_id@ != g[jb].session_id@);
            }
        }
        assert forall|k: int| 0 <= k < r@.len() implies #[trigger] describes(entries@, r@[k]) by {
            let j = choose|j: int| #![trigger g[j]] 0 <= j < g.len() && r@[k] == g[j];
            assert(describes(entries@, g[j]));
        }
        assert forall|i: int|
            0 <= i < entries@.len() && (#[trigger] temp_session(
                entries@[i].name@,
            )) is Some implies exists|k: int|
            0 <= k < r@.len() && #[trigger] r@[k].session_id@ == temp_session(entries@[i].name@)->0 by {
            let j = choose|j: int|
                0 <= j < g.len() && #[trigger] g[j].session_id@ == temp_session(entries@[i].name@)->0;
            let k = choose|k: int| #![trigger r@[k]] 0 <= k < r@.len() && r@[k] == g[j];
            assert(r@[k].session_id@ == g[j].session_id@);
        }
    }
    r
}

/// The recordings of `s` whose session is `id`, in order.
pub open spec fn of_session(s: Seq<IncompleteRecording>, id: Seq<char>) -> Seq<IncompleteRecording>
    decreases s.len(),
{
    if s.len() == 0 {
        s
    } else if s.last().session_id@ == id {
        of_session(s.drop_last(), id).push(s.last())
    } else {
        of_session(s.drop_last(), id)
    }
}

/// The recordings to recover: all of them, or those of one session.
pub fn select_for_recovery(incomplete: Vec<IncompleteRecording>, session_id: Option<&str>) -> (r: Vec<
    IncompleteRecording,
>)
    ensures
        match session_id {
            None => r@ == incomplete@,
            Some(id) => r@ == of_session(incomplete@, id@),
        },
{
    match session_id {
        None => incomplete,
        Some(id) => {
            let ghost orig = incomplete@;
            let total = incomplete.len();
            let mut rest = incomplete;
            let mut r: Vec<IncompleteRecording> = Vec::new();
            let mut n: usize = 0;
            assert(orig.skip(0) =~= orig);
            assert(orig.take(0) =~= Seq::<IncompleteRecording>::empty());
            while rest.len() > 0
                invariant
                    n <= orig.len(),
                    orig.len() == total,
                    rest@ == orig.skip(n as int),
                    rest@.len() == orig.len() - n,
                    r@ == of_session(orig.take(n as int), id@),
                decreases rest.len(),
            {
                let x = rest.remove(0);
                assert(x == orig[n as int]);
                assert(rest@ =~= orig.skip(n + 1));
                assert(orig.take(n + 1).drop_last() =~= orig.take(n as int));
                assert(orig.take(n + 1).last() == x);
                if str_eq(x.session_id.as_str(), id) {
                    r.push(x);
                }
                n = n + 1;
            }
            assert(orig.take(n as int) =~= orig);
            r
        },
    }
}

/// What went wrong while planning the recovery of a session.
#[derive(Debug, Clone, PartialEq, Eq)]
pub enum RecoveryError {
    /// The recovered file would overwrite this existing file name.
    OutputExists(String),
    /// The session has no system-audio file to recover from.
    NoLoopback,
}

pub open spec fn recovery_error_text(e: RecoveryError) -> Seq<char> {
    match e {
        RecoveryError::OutputExists(name) => "Output file already exists: "@ + name@,
        RecoveryError::NoLoopback => "No loopback file found for recovery"@,
    }
}

impl RecoveryError {
    /// The error's message.
    pub fn to_string(&self) -> (r: String)
        ensures
            r@ == recovery_error_text(*self),
    {
        match self {
            RecoveryError::OutputExists(name) => concat2("Output file already exists: ", name.as_str()),
            RecoveryError::NoLoopback => owned("No loopback file found for recovery"),
        }
    }
}

/// Name of the merged file a recovered session is written to.
pub open spec fn recovered_wav_text(timestamp: Seq<char>) -> Seq<char> {
    "recording_"@ + timestamp + ".wav"@
}

/// Name of the M4A file a recovered session is converted to.
pub open spec fn recovered_m4a_text(timestamp: Seq<char>) -> Seq<char> {
    "recording_"@ + timestamp + ".m4a"@
}

/// Name of the merged WAV file of a recovered recording.
pub fn recovery_output_name(rec: &IncompleteRecording) -> (r: String)
    ensures
        r@ == recovered_wav_text(rec.timestamp@),
{
    concat3("recording_", rec.timestamp.as_str(), ".wav")
}

/// How one interrupted session is recovered.
pub struct RecoveryPlan {
    /// Format of the finished recording (WAV unless asked otherwise).
    pub format: AudioFormat,
    /// Quality used for merging.
    pub quality: RecordingQuality,
    /// The merged WAV file.
    pub output_path: String,
    pub loopback_path: String,
    /// The microphone file; a path in the recordings directory where the
    /// session has none.
    pub mic_path: String,
    pub loopback_has_audio: bool,
    pub mic_has_audio: bool,
    /// Where the WAV file is converted to, for M4A.
    pub m4a_path: Option<String>,
    /// Name of the finished file.
    pub final_name: String,
    /// Temporary files removed once the recording is done.
    pub cleanup: Vec<String>,
}

/// Plans the recovery of `rec` into `recordings_dir`; `output_exists`
/// says whether the merged WAV file (`recovery_output_name`) is already
/// there.
pub fn plan_recovery(
    rec: &IncompleteRecording,
    target_format: Option<AudioFormat>,
    recordings_dir: &str,
    output_exists: bool,
) -> (r: Result<RecoveryPlan, RecoveryError>)
    ensures
        output_exists ==> (r matches Err(RecoveryError::OutputExists(name)) && name@
            == recovered_wav_text(rec.timestamp@)),
        !output_exists && rec.loopback_file is None ==> r matches Err(RecoveryError::NoLoopback),
        !output_exists && rec.loopback_file is Some <==> r is Ok,
        r matches Ok(plan) ==> {
            let format = match target_format {
                Some(f) => f,
                None => AudioFormat::Wav,
            };
            &&& plan.format == format
            &&& plan.quality@ == professional_view()
            &&& plan.output_path@ == joined_path(recordings_dir@, recovered_wav_text(rec.timestamp@))
            &&& Some(plan.loopback_path@) == opt_view(rec.loopback_file)
            &&& plan.mic_path@ == match rec.mic_file {
                Some(m) => m@,
                None => joined_path(recordings_dir@, mic_temp_text(rec.session_id@)),
            }
            &&& plan.loopback_has_audio
            &&& plan.mic_has_audio == rec.mic_file is Some
            &&& opt_view(plan.m4a_path) == match format {
                AudioFormat::M4a => Some(joined_path(recordings_dir@, recovered_m4a_text(rec.timestamp@))),
                AudioFormat::Wav => None,
            }
            &&& plan.final_name@ == match format {
                AudioFormat::M4a => recovered_m4a_text(rec.timestamp@),
                AudioFormat::Wav => recovered_wav_text(rec.timestamp@),
            }
            &&& crate::args::texts(plan.cleanup@) == match rec.mic_file {
                Some(m) => seq![plan.loopback_path@, m@],
                None => seq![plan.loopback_path@],
            }
        },
{
    let name = recovery_output_name(rec);
    if output_exists {
        return Err(RecoveryError::OutputExists(name));
    }
    let loopback = match &rec.loopback_file {
        Some(p) => p.clone(),
        None => return Err(RecoveryError::NoLoopback),
    };
    let format = match target_format {
        Some(f) => f,
        None => AudioFormat::Wav,
    };
    let output_path = join_path(recordings_dir, name.as_str());
    let mic_path = match &rec.mic_file {
        Some(m) => m.clone(),
        None => {
            let n = crate::domain::mic_temp_name(rec.session_id.as_str());
            join_path(recordings_dir, n.as_str())
        },
    };
    let (m4a_path, final_name) = match format {
        AudioFormat::M4a => {
            let m4a_name = concat3("recording_", rec.timestamp.as_str(), ".m4a");
            (Some(join_path(recordings_dir, m4a_name.as_str())), m4a_name)
        },
        AudioFormat::Wav => (None, name),
    };
    let mut cleanup: Vec<String> = Vec::new();
    cleanup.push(loopback.clone());
    match &rec.mic_file {
        Some(m) => cleanup.push(m.clone()),
        None => {},
    }
    proof {
        assert(crate::args::texts(cleanup@) =~= match rec.mic_file {
            Some(m) => seq![loopback@, m@],
            None => seq![loopback@],
        });
    }
    Ok(
        RecoveryPlan {
            format,
            quality: RecordingQuality::professional(),
            output_path,
            loopback_path: loopback,
            mic_path,
            loopback_has_audio: true,
            mic_has_audio: rec.mic_file.is_some(),
            m4a_path,
            final_name,
            cleanup,
        },
    )
}

// ---------------------------------------------------------------------------
// Reporting
// ---------------------------------------------------------------------------

/// The outcome reported once every selected session was tried.
pub struct RecoverySummary {
    /// `success` when every session was recovered, `partial` otherwise.
    pub status: &'static str,
    pub message: String,
}

pub open spec fn summary_message(recovered: nat, failed: nat) -> Seq<char> {
    if failed == 0 {
        "Successfully recovered "@ + decimal(recovered) + " recording(s)"@
    } else {
        "Recovered "@ + decimal(recovered) + " of "@ + decimal(recovered + failed) + " recording(s)"@
    }
}

/// Summarises a recovery run from the number of sessions recovered and
/// the number that failed.
pub fn recovery_summary(recovered: u64, failed: u64) -> (r: RecoverySummary)
    requires
        recovered + failed <= u64::MAX,
    ensures
        r.status@ == (if failed == 0 {
            "success"@
        } else {
            "partial"@
        }),
        r.message@ == summary_message(recovered as nat, failed as nat),
{
    if failed == 0 {
        let mut m = owned("Successfully recovered ");
        append_decimal(&mut m, recovered);
        m.append(" recording(s)");
        RecoverySummary { status: "success", message: m }
    } else {
        let mut m = owned("Recovered ");
        append_decimal(&mut m, recovered);
        m.append(" of ");
        append_decimal(&mut m, recovered + failed);
        m.append(" recording(s)");
        RecoverySummary { status: "partial", message: m }
    }
}

/// Message when the recordings directory holds no interrupted session.
pub fn nothing_to_recover_message() -> (r: &'static str)
    ensures
        r@ == "No incomplete recordings found"@,
{
    "No incomplete recordings found"
}

/// Error when the requested session left nothing behind.
pub fn session_not_found_message(session_id: &str) -> (r: String)
    ensures
        r@ == "No incomplete recording found for session: "@ + session_id@,
{
    concat2("No incomplete recording found for session: ", session_id)
}

// ---------------------------------------------------------------------------
// Laws
// ---------------------------------------------------------------------------

proof fn lemma_suffix_of_concat(a: Seq<char>, b: Seq<char>)
    ensures
        b.is_suffix_of(a + b),
        (a + b).take((a + b).len() - b.len()) == a,
{
    assert((a + b).subrange(a.len() as int, (a + b).len() as int) =~= b);
    assert((a + b).take((a + b).len() - b.len()) =~= a);
}

/// The temporary files a recording session writes are recognised as that
/// session's files again: the system-audio file as such, the microphone
/// file as such, provided the identifier does not itself end in one of the
/// temporary-file suffixes.
pub proof fn temp_names_recognised(sid: Seq<char>)
    requires
        !"_loopback.wav"@.is_suffix_of(sid),
        !"_mic.wav"@.is_suffix_of(sid),
    ensures
        temp_role(loopback_temp_text(sid)) == Some((sid, true)),
        temp_role(mic_temp_text(sid)) == Some((sid, false)),
{
    reveal_strlit("_loopback.wav");
    reveal_strlit("_mic.wav");
    let l = "_loopback.wav"@;
    let m = "_mic.wav"@;
    lemma_suffix_of_concat(sid, l);
    lemma_suffix_of_concat(sid, m);
    assert(trim_suffix_all(sid, l) == sid);
    assert(trim_suffix_all(sid, m) == sid);
    let mn = sid + m;
    if l.is_suffix_of(mn) {
        assert(mn[mn.len() - 5] == l[8]);
        assert(false);
    }
}

/// A session identifier made from a timestamp gives that timestamp back.
pub proof fn session_timestamp_roundtrip(timestamp: Seq<char>)
    ensures
        session_timestamp(session_id_text(timestamp)) == timestamp,
{
    reveal_strlit("rec-");
    let s = session_id_text(timestamp);
    assert(s.take(4) =~= "rec-"@);
    assert(s.skip(4) =~= timestamp);
}

} // verus!
