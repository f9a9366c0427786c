//! Pack fetcher: resumable download planning, progress accounting, and the
//! pause/commit state machine. The HTTP transport and the partial file live
//! with the caller; every decision and every byte count is specified here.

use vstd::prelude::*;

use crate::strutil::dec_str;
use crate::strutil::u64_to_dec;

verus! {

// ---------------------------------------------------------------------------
// Progress arithmetic
// ---------------------------------------------------------------------------

/// Rounded percentage of `d` out of `t`, capped at 100; a zero total reads
/// as zero progress.
pub open spec fn percent_spec(d: int, t: int) -> int {
    if t <= 0 {
        0
    } else {
        let p = (200 * d + t) / (2 * t);
        if p > 100 {
            100
        } else {
            p
        }
    }
}

/// Compute the rounded progress percentage.
pub fn percent_of(d: u64, t: u64) -> (r: u8)
    ensures
        r as int == percent_spec(d as int, t as int),
        r <= 100,
{
    if t == 0 {
        return 0;
    }
    let num: u128 = 200u128 * (d as u128) + (t as u128);
    let den: u128 = 2u128 * (t as u128);
    let p: u128 = num / den;
    if p > 100 {
        100
    } else {
        p as u8
    }
}

// ---------------------------------------------------------------------------
// Planning an attempt
// ---------------------------------------------------------------------------

/// The `Range` header value asking the server to resume at `start`.
pub open spec fn range_header_spec(start: nat) -> Seq<char> {
    "bytes="@ + dec_str(start) + "-"@
}

/// How one fetch attempt begins.
pub struct FetchPlan {
    /// Pack size the server reported.
    pub total: u64,
    /// Offset the transfer resumes at.
    pub start: u64,
    /// Whether a stale partial file (as large as the pack or larger) must be
    /// deleted before the transfer.
    pub delete_partial: bool,
    /// The `Range` header to send, absent for a fresh transfer.
    pub range_header: Option<String>,
}

/// What a correct plan looks like, given the reported size and the size of
/// any partial file on disk.
pub open spec fn plan_ok(p: FetchPlan, size_bytes: u64, partial_size: Option<u64>) -> bool {
    &&& p.total == size_bytes
    &&& p.start as int == (match partial_size {
        Some(s) => if s < size_bytes {
            s as int
        } else {
            0
        },
        None => 0,
    })
    &&& p.delete_partial == (partial_size matches Some(s) && s >= size_bytes)
    &&& (p.start == 0 ==> p.range_header is None)
    &&& (p.start > 0 ==> (p.range_header matches Some(h) && h@ == range_header_spec(
        p.start as nat,
    )))
}

/// Decide how a fetch starts. A reported size of zero means the pack is not
/// available, and that is the only error.
pub fn plan_fetch(size_bytes: u64, partial_size: Option<u64>) -> (r: Result<FetchPlan, String>)
    ensures
        size_bytes == 0 <==> r is Err,
        r matches Err(e) ==> e@ == "AI pack tidak tersedia (size 0)"@,
        r matches Ok(p) ==> plan_ok(p, size_bytes, partial_size),
{
    if size_bytes == 0 {
        return Err("AI pack tidak tersedia (size 0)".to_owned());
    }
    let mut start: u64 = 0;
    let mut delete_partial: bool = false;
    match partial_size {
        Some(s) => {
            if s < size_bytes {
                start = s;
            } else {
                delete_partial = true;
            }
        },
        None => {},
    }
    let range_header = if start > 0 {
        let mut h = "bytes=".to_owned();
        let d = u64_to_dec(start);
        h.append(d.as_str());
        h.append("-");
        proof {
            assert(h@ =~= range_header_spec(start as nat));
        }
        Some(h)
    } else {
        None
    };
    Ok(FetchPlan { total: size_bytes, start, delete_partial, range_header })
}

/// Whether an HTTP status lets the transfer proceed: any success, or 206
/// for a partial response.
pub fn accept_status(code: u16) -> (r: bool)
    ensures
        r == (200 <= code < 300 || code == 206),
{
    (200 <= code && code < 300) || code == 206
}

// ---------------------------------------------------------------------------
// One download attempt
// ---------------------------------------------------------------------------

/// A progress event, one per chunk.
pub struct FetchProgress {
    pub downloaded: u64,
    pub total: u64,
    pub percent: u8,
}

/// A pause event, terminal for its attempt.
pub struct FetchPaused {
    pub downloaded: u64,
    pub total: u64,
}

/// One download attempt. The ghost `written` holds the bytes this attempt
/// appended to the partial file, so contracts can speak of the file
/// contents byte for byte.
pub struct FetchSession {
    pub total: u64,
    pub start: u64,
    pub downloaded: u64,
    pub paused: bool,
    pub written: Ghost<Seq<u8>>,
}

impl FetchSession {
    /// The progress counter always equals the resume offset plus the bytes
    /// appended so far.
    pub open spec fn wf(self) -> bool {
        self.downloaded == self.start + self.written@.len()
    }

    /// Begin an attempt at offset `start` of a pack of `total` bytes.
    pub fn begin(total: u64, start: u64) -> (s: Self)
        requires
            start <= total,
        ensures
            s.wf(),
            s.total == total,
            s.start == start,
            s.downloaded == start,
            !s.paused,
            s.written@ == Seq::<u8>::empty(),
    {
        FetchSession { total, start, downloaded: start, paused: false, written: Ghost(Seq::empty()) }
    }

    /// Record one received chunk: exactly its bytes are appended, and the
    /// progress event carries a strictly larger `downloaded` whenever the
    /// chunk was not empty — so progress events of one attempt are strictly
    /// increasing.
    pub fn on_chunk(&mut self, chunk: &Vec<u8>) -> (ev: FetchProgress)
        requires
            old(self).wf(),
            !old(self).paused,
            old(self).downloaded + chunk@.len() <= u64::MAX,
        ensures
            final(self).wf(),
            final(self).total == old(self).total,
            final(self).start == old(self).start,
            !final(self).paused,
            final(self).written@ == old(self).written@ + chunk@,
            final(self).downloaded == old(self).downloaded + chunk@.len(),
            ev.downloaded == final(self).downloaded,
            ev.total == old(self).total,
            ev.percent as int == percent_spec(ev.downloaded as int, ev.total as int),
            chunk@.len() > 0 ==> ev.downloaded > old(self).downloaded,
    {
        self.downloaded = self.downloaded + chunk.len() as u64;
        proof {
            self.written@ = self.written@ + chunk@;
        }
        FetchProgress {
            downloaded: self.downloaded,
            total: self.total,
            percent: percent_of(self.downloaded, self.total),
        }
    }

    /// Observe the cancel flag: the attempt pauses — successfully, a pause
    /// is no failure — nothing more is written, and the pause event carries
    /// the counters as they stand.
    pub fn on_cancel(&mut self) -> (ev: FetchPaused)
        requires
            old(self).wf(),
        ensures
            final(self).wf(),
            final(self).paused,
            final(self).written == old(self).written,
            final(self).downloaded == old(self).downloaded,
            final(self).total == old(self).total,
            final(self).start == old(self).start,
            ev.downloaded == old(self).downloaded,
            ev.total == old(self).total,
    {
        self.paused = true;
        FetchPaused { downloaded: self.downloaded, total: self.total }
    }

    /// Whether the whole pack arrived; only then may the partial file be
    /// renamed to the committed archive.
    pub fn complete(&self) -> (r: bool)
        ensures
            r == (self.downloaded == self.total),
    {
        self.downloaded == self.total
    }
}

// ---------------------------------------------------------------------------
// Laws of one attempt
// ---------------------------------------------------------------------------

/// Resume correctness: when the partial file holds the first bytes of the
/// pack and a resumed attempt appends exactly the rest, the committed file
/// equals one full download, byte for byte.
pub proof fn lemma_resume_correctness(content: Seq<u8>, partial: Seq<u8>, appended: Seq<u8>)
    requires
        partial.len() <= content.len(),
        partial == content.take(partial.len() as int),
        appended == content.skip(partial.len() as int),
    ensures
        partial + appended == content,
{
    assert(partial + appended =~= content);
}

/// Commit atomicity: an attempt is only ever committed complete, and the
/// file it commits — the prior partial bytes plus what it wrote — has
/// exactly the pack size. An observer sees the partial file or the full
/// archive, never a short archive.
pub proof fn lemma_commit_atomicity(s: FetchSession, partial: Seq<u8>)
    requires
        s.wf(),
        partial.len() == s.start,
        s.downloaded == s.total,
    ensures
        (partial + s.written@).len() == s.total,
{
}

// ---------------------------------------------------------------------------
// The attempt as a fold over its events
// ---------------------------------------------------------------------------

/// One loop round seen abstractly: the state is (paused, file bytes); an
/// event is a received chunk (`Some`) or an observed cancel (`None`). A
/// chunk appends its bytes exactly as `on_chunk` does, a cancel pauses
/// without writing exactly as `on_cancel` does.
pub open spec fn fetch_step_model(st: (bool, Seq<u8>), e: Option<Seq<u8>>) -> (bool, Seq<u8>) {
    if st.0 {
        st
    } else {
        match e {
            None => (true, st.1),
            Some(c) => (false, st.1 + c),
        }
    }
}

/// The whole attempt as a fold over its events.
pub open spec fn fetch_run_model(st: (bool, Seq<u8>), events: Seq<Option<Seq<u8>>>) -> (
    bool,
    Seq<u8>,
)
    decreases events.len(),
{
    if events.len() == 0 {
        st
    } else {
        fetch_run_model(fetch_step_model(st, events[0]), events.skip(1))
    }
}

proof fn lemma_fetch_run_split(st: (bool, Seq<u8>), a: Seq<Option<Seq<u8>>>, b: Seq<
    Option<Seq<u8>>,
>)
    ensures
        fetch_run_model(st, a + b) == fetch_run_model(fetch_run_model(st, a), b),
    decreases a.len(),
{
    if a.len() == 0 {
        assert(a + b =~= b);
    } else {
        lemma_fetch_run_split(fetch_step_model(st, a[0]), a.skip(1), b);
        assert((a + b).skip(1) =~= a.skip(1) + b);
    }
}

proof fn lemma_fetch_paused_absorbs(st: (bool, Seq<u8>), events: Seq<Option<Seq<u8>>>)
    requires
        st.0,
    ensures
        fetch_run_model(st, events) == st,
    decreases events.len(),
{
    if events.len() > 0 {
        lemma_fetch_paused_absorbs(st, events.skip(1));
    }
}

/// The bytes of a chunked stream, in order.
pub open spec fn concat_chunks(chunks: Seq<Seq<u8>>) -> Seq<u8>
    decreases chunks.len(),
{
    if chunks.len() == 0 {
        Seq::empty()
    } else {
        chunks[0] + concat_chunks(chunks.skip(1))
    }
}

proof fn lemma_run_appends(w: Seq<u8>, chunks: Seq<Seq<u8>>)
    ensures
        fetch_run_model((false, w), chunks.map_values(|c: Seq<u8>| Some(c))) == (
            false,
            w + concat_chunks(chunks),
        ),
    decreases chunks.len(),
{
    let events = chunks.map_values(|c: Seq<u8>| Some(c));
    if chunks.len() == 0 {
        assert(w + concat_chunks(chunks) =~= w);
    } else {
        assert(events[0] == Some(chunks[0]));
        assert(events.skip(1) =~= chunks.skip(1).map_values(|c: Seq<u8>| Some(c)));
        lemma_run_appends(w + chunks[0], chunks.skip(1));
        assert(w + chunks[0] + concat_chunks(chunks.skip(1)) =~= w + concat_chunks(chunks));
    }
}

/// Resume correctness over the whole loop: an attempt that starts on the
/// first `k` bytes of the pack and receives, in whatever chunking, exactly
/// the pack's missing suffix, ends uncancelled with the file equal to one
/// full download, byte for byte.
pub proof fn lemma_attempt_completes(content: Seq<u8>, k: int, chunks: Seq<Seq<u8>>)
    requires
        0 <= k <= content.len(),
        concat_chunks(chunks) == content.skip(k),
    ensures
        fetch_run_model((false, content.take(k)), chunks.map_values(|c: Seq<u8>| Some(c))) == (
            false,
            content,
        ),
{
    lemma_run_appends(content.take(k), chunks);
    assert(content.take(k) + content.skip(k) =~= content);
}

/// Cancel promptness: once the cancel flag is observed, nothing after that
/// round changes the file or emits progress — the run ends exactly where
/// the cancel found it. A flag set in the middle of a chunk is observed at
/// the next round, so at most that one in-flight chunk is still written.
pub proof fn lemma_cancel_promptness(
    st: (bool, Seq<u8>),
    events: Seq<Option<Seq<u8>>>,
    i: int,
)
    requires
        0 <= i < events.len(),
        events[i] is None,
    ensures
        fetch_run_model(st, events) == fetch_run_model(st, events.take(i + 1)),
{
    let upto = events.take(i + 1);
    let rest = events.skip(i + 1);
    assert(events =~= upto + rest);
    lemma_fetch_run_split(st, upto, rest);
    let before = fetch_run_model(st, events.take(i));
    let sing = seq![events[i]];
    assert(upto =~= events.take(i) + sing);
    lemma_fetch_run_split(st, events.take(i), sing);
    let mid = fetch_run_model(st, upto);
    assert(sing.skip(1) =~= Seq::<Option<Seq<u8>>>::empty());
    assert(fetch_run_model(before, sing) == fetch_run_model(
        fetch_step_model(before, events[i]),
        sing.skip(1),
    ));
    assert(fetch_run_model(fetch_step_model(before, events[i]), Seq::<Option<Seq<u8>>>::empty())
        == fetch_step_model(before, events[i]));
    assert(fetch_run_model(before, sing) == fetch_step_model(before, events[i]));
    assert(mid == fetch_step_model(before, events[i]));
    assert(mid.0);
    lemma_fetch_paused_absorbs(mid, rest);
}

} // verus!
