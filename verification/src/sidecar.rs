//! Sidecar supervisor: the newline-JSON event protocol of the child
//! process, the running counters of one supervision run, and the planning
//! of a launch. Spawning, the pipes and the kill are the caller's I/O; what
//! each line means and what gets emitted is decided and specified here.

use vstd::prelude::*;

use crate::store::AppConfig;
use crate::strutil::blank;
use crate::strutil::dec_digit;
use crate::strutil::dec_str;
use crate::strutil::digit_str;
use crate::strutil::is_blank;
use crate::strutil::opt_str_view;
use crate::strutil::push_char;
use crate::strutil::str_eq;
use crate::strutil::str_views;
use crate::strutil::u64_to_dec;

verus! {

// ---------------------------------------------------------------------------
// Trusted JSON reading, one field at a time
// ---------------------------------------------------------------------------

/// Whether the line parses as JSON; a pure function of the text.
pub uninterp spec fn json_valid(s: Seq<char>) -> bool;

/// The unsigned value of a top-level field of the parsed line, when there
/// is one.
pub uninterp spec fn json_u64_field(s: Seq<char>, key: Seq<char>) -> Option<u64>;

/// The string value of a top-level field of the parsed line, when there is
/// one.
pub uninterp spec fn json_str_field(s: Seq<char>, key: Seq<char>) -> Option<Seq<char>>;

/// The boolean value of a top-level field of the parsed line, when there is
/// one.
pub uninterp spec fn json_bool_field(s: Seq<char>, key: Seq<char>) -> Option<bool>;

/// Relies on serde_json::from_str::<Value>: whether the text is JSON.
#[verifier::external_body]
fn json_parses(line: &str) -> (r: bool)
    ensures
        r == json_valid(line@),
{
    serde_json::from_str::<serde_json::Value>(line).is_ok()
}

/// Relies on serde_json's Value::get and Value::as_u64 on the parsed line.
#[verifier::external_body]
fn json_get_u64(line: &str, key: &str) -> (r: Option<u64>)
    ensures
        r == json_u64_field(line@, key@),
{
    serde_json::from_str::<serde_json::Value>(line).ok().and_then(
        |v| v.get(key).and_then(|x| x.as_u64()),
    )
}

/// Relies on serde_json's Value::get and Value::as_str on the parsed line.
#[verifier::external_body]
fn json_get_str(line: &str, key: &str) -> (r: Option<String>)
    ensures
        opt_str_view(r) == json_str_field(line@, key@),
{
    serde_json::from_str::<serde_json::Value>(line).ok().and_then(
        |v| v.get(key).and_then(|x| x.as_str().map(|s| s.to_owned())),
    )
}

/// Relies on serde_json's Value::get and Value::as_bool on the parsed line.
#[verifier::external_body]
fn json_get_bool(line: &str, key: &str) -> (r: Option<bool>)
    ensures
        r == json_bool_field(line@, key@),
{
    serde_json::from_str::<serde_json::Value>(line).ok().and_then(
        |v| v.get(key).and_then(|x| x.as_bool()),
    )
}

// ---------------------------------------------------------------------------
// The two event shapes
// ---------------------------------------------------------------------------

/// One progress event, one per file the child processed.
#[derive(Clone)]
pub struct ProgressPayload {
    pub processed: usize,
    pub total: usize,
    pub current_file: String,
    pub status: String,
    pub abnormal_count: u32,
    pub normal_count: u32,
    pub output_folder: Option<String>,
}

/// The terminal event, exactly one per run.
#[derive(Clone)]
pub struct DonePayload {
    pub successful: usize,
    pub failed: usize,
    pub total: usize,
    pub total_abnormal: u32,
    pub total_normal: u32,
}

/// A field's unsigned value, zero when absent.
pub open spec fn u64_or_zero(s: Seq<char>, key: Seq<char>) -> u64 {
    match json_u64_field(s, key) {
        Some(v) => v,
        None => 0,
    }
}

/// A field's string value, empty when absent.
pub open spec fn str_or_empty(s: Seq<char>, key: Seq<char>) -> Seq<char> {
    match json_str_field(s, key) {
        Some(v) => v,
        None => Seq::empty(),
    }
}

/// A field's string value, absent when missing or empty.
pub open spec fn nonempty_str_field(s: Seq<char>, key: Seq<char>) -> Option<Seq<char>> {
    match json_str_field(s, key) {
        Some(v) => if v.len() > 0 {
            Some(v)
        } else {
            None
        },
        None => None,
    }
}

/// A line the loop passes over: blank, or not JSON.
pub open spec fn is_skip_line(s: Seq<char>) -> bool {
    blank(s) || !json_valid(s)
}

/// A JSON line whose `done` field is true: the terminal event.
pub open spec fn is_terminal_line(s: Seq<char>) -> bool {
    !blank(s) && json_valid(s) && json_bool_field(s, "done"@) == Some(true)
}

/// Any other JSON line: one progress event.
pub open spec fn is_progress_line(s: Seq<char>) -> bool {
    !blank(s) && json_valid(s) && json_bool_field(s, "done"@) != Some(true)
}

/// What a progress event holds of its line: each field as sent, counts
/// zero and strings empty when absent, the output folder only when sent
/// non-empty.
pub open spec fn progress_matches(p: ProgressPayload, s: Seq<char>) -> bool {
    &&& p.processed == u64_or_zero(s, "processed"@) as usize
    &&& p.total == u64_or_zero(s, "total"@) as usize
    &&& p.current_file@ == str_or_empty(s, "current_file"@)
    &&& p.status@ == str_or_empty(s, "status"@)
    &&& p.abnormal_count == u64_or_zero(s, "abnormal_count"@) as u32
    &&& p.normal_count == u64_or_zero(s, "normal_count"@) as u32
    &&& opt_str_view(p.output_folder) == nonempty_str_field(s, "output_folder"@)
}

/// What the terminal event holds of its line.
pub open spec fn done_matches(d: DonePayload, s: Seq<char>) -> bool {
    &&& d.successful == u64_or_zero(s, "successful"@) as usize
    &&& d.failed == u64_or_zero(s, "failed"@) as usize
    &&& d.total == u64_or_zero(s, "total"@) as usize
    &&& d.total_abnormal == u64_or_zero(s, "total_abnormal"@) as u32
    &&& d.total_normal == u64_or_zero(s, "total_normal"@) as u32
}

fn u64_field_or_zero(line: &str, key: &str) -> (r: u64)
    ensures
        r == u64_or_zero(line@, key@),
{
    match json_get_u64(line, key) {
        Some(v) => v,
        None => 0,
    }
}

fn str_field_or_empty(line: &str, key: &str) -> (r: String)
    ensures
        r@ == str_or_empty(line@, key@),
{
    match json_get_str(line, key) {
        Some(v) => v,
        None => String::new(),
    }
}

/// What one stdout line means.
pub enum LineEvent {
    /// Blank or not JSON: nothing is emitted.
    Skip,
    /// One progress event to fan out.
    Progress(ProgressPayload),
    /// The terminal event as the child reported it.
    Terminal(DonePayload),
}

/// Read one stdout line of the child.
pub fn parse_line(line: &str) -> (r: LineEvent)
    ensures
        r is Skip <==> is_skip_line(line@),
        r is Terminal <==> is_terminal_line(line@),
        r is Progress <==> is_progress_line(line@),
        r matches LineEvent::Progress(p) ==> progress_matches(p, line@),
        r matches LineEvent::Terminal(d) ==> done_matches(d, line@),
{
    if is_blank(line) {
        return LineEvent::Skip;
    }
    if !json_parses(line) {
        return LineEvent::Skip;
    }
    let done = match json_get_bool(line, "done") {
        Some(b) => b,
        None => false,
    };
    if done {
        LineEvent::Terminal(
            DonePayload {
                successful: u64_field_or_zero(line, "successful") as usize,
                failed: u64_field_or_zero(line, "failed") as usize,
                total: u64_field_or_zero(line, "total") as usize,
                total_abnormal: u64_field_or_zero(line, "total_abnormal") as u32,
                total_normal: u64_field_or_zero(line, "total_normal") as u32,
            },
        )
    } else {
        let output_folder = match json_get_str(line, "output_folder") {
            Some(s) => if s.as_str().unicode_len() > 0 {
                Some(s)
            } else {
                None
            },
            None => None,
        };
        LineEvent::Progress(
            ProgressPayload {
                processed: u64_field_or_zero(line, "processed") as usize,
                total: u64_field_or_zero(line, "total") as usize,
                current_file: str_field_or_empty(line, "current_file"),
                status: str_field_or_empty(line, "status"),
                abnormal_count: u64_field_or_zero(line, "abnormal_count") as u32,
                normal_count: u64_field_or_zero(line, "normal_count") as u32,
                output_folder,
            },
        )
    }
}

// ---------------------------------------------------------------------------
// One supervision run
// ---------------------------------------------------------------------------

/// The running counters of one supervision run, and whether its terminal
/// event went out.
pub struct Supervisor {
    pub successful: usize,
    pub failed: usize,
    pub total: usize,
    pub total_abnormal: u32,
    pub total_normal: u32,
    pub finished: bool,
}

impl Supervisor {
    /// A fresh run: zero counters, terminal event still owed.
    pub fn new() -> (s: Self)
        ensures
            s.successful == 0,
            s.failed == 0,
            s.total == 0,
            s.total_abnormal == 0,
            s.total_normal == 0,
            !s.finished,
    {
        Supervisor {
            successful: 0,
            failed: 0,
            total: 0,
            total_abnormal: 0,
            total_normal: 0,
            finished: false,
        }
    }

    /// All five counters as the terminal line fixed them.
    pub open spec fn counters_from_terminal(self, line: Seq<char>) -> bool {
        &&& self.successful == u64_or_zero(line, "successful"@) as usize
        &&& self.failed == u64_or_zero(line, "failed"@) as usize
        &&& self.total == u64_or_zero(line, "total"@) as usize
        &&& self.total_abnormal == u64_or_zero(line, "total_abnormal"@) as u32
        &&& self.total_normal == u64_or_zero(line, "total_normal"@) as u32
    }

    /// The three running counters as a progress line reports them, the
    /// class totals untouched.
    pub open spec fn counters_from_progress(self, prev: Supervisor, line: Seq<char>) -> bool {
        &&& self.successful == u64_or_zero(line, "successful"@) as usize
        &&& self.failed == u64_or_zero(line, "failed"@) as usize
        &&& self.total == u64_or_zero(line, "total"@) as usize
        &&& self.total_abnormal == prev.total_abnormal
        &&& self.total_normal == prev.total_normal
    }

    /// Handle one stdout line as the supervision loop does: skip lines
    /// change nothing; a progress line updates the running counters and
    /// hands back the event to fan out; the terminal line fixes all five
    /// counters and stops the loop.
    pub fn on_line(&mut self, line: &str) -> (r: (bool, Option<ProgressPayload>))
        requires
            !old(self).finished,
        ensures
            !final(self).finished,
            is_skip_line(line@) ==> *final(self) == *old(self) && r.0 == false && r.1 is None,
            is_terminal_line(line@) ==> r.0 == true && r.1 is None
                && final(self).counters_from_terminal(line@),
            is_progress_line(line@) ==> r.0 == false && (r.1 matches Some(p) && progress_matches(
                p,
                line@,
            )) && final(self).counters_from_progress(*old(self), line@),
    {
        match parse_line(line) {
            LineEvent::Skip => (false, None),
            LineEvent::Terminal(d) => {
                self.successful = d.successful;
                self.failed = d.failed;
                self.total = d.total;
                self.total_abnormal = d.total_abnormal;
                self.total_normal = d.total_normal;
                (true, None)
            },
            LineEvent::Progress(p) => {
                self.successful = u64_field_or_zero(line, "successful") as usize;
                self.failed = u64_field_or_zero(line, "failed") as usize;
                self.total = p.total;
                (false, Some(p))
            },
        }
    }

    /// Observe the cancel flag: the caller kills the child — the kill is
    /// the enforcement — and stops reading; the counters stay as they are
    /// for the synthesized terminal event. This is the log line to emit.
    pub fn on_cancel(&self) -> (m: String)
        ensures
            m@ == "Cancelled."@,
    {
        "Cancelled.".to_owned()
    }

    /// Emit the terminal event — exactly once per run, whatever happened:
    /// the counters as they stand, zeros when the child never reported.
    pub fn finish(&mut self) -> (d: DonePayload)
        requires
            !old(self).finished,
        ensures
            final(self).finished,
            d.successful == old(self).successful,
            d.failed == old(self).failed,
            d.total == old(self).total,
            d.total_abnormal == old(self).total_abnormal,
            d.total_normal == old(self).total_normal,
    {
        self.finished = true;
        DonePayload {
            successful: self.successful,
            failed: self.failed,
            total: self.total,
            total_abnormal: self.total_abnormal,
            total_normal: self.total_normal,
        }
    }

    /// The closing log line of a run.
    pub fn done_message(&self) -> (r: String)
        ensures
            r@ == "Done. "@ + dec_str(self.successful as nat) + " succeeded, "@ + dec_str(
                self.failed as nat,
            ) + " failed."@,
    {
        let mut m = "Done. ".to_owned();
        let s = u64_to_dec(self.successful as u64);
        m.append(s.as_str());
        m.append(" succeeded, ");
        let f = u64_to_dec(self.failed as u64);
        m.append(f.as_str());
        m.append(" failed.");
        proof {
            assert(m@ =~= "Done. "@ + dec_str(self.successful as nat) + " succeeded, "@ + dec_str(
                self.failed as nat,
            ) + " failed."@);
        }
        m
    }
}

// ---------------------------------------------------------------------------
// Event framing
// ---------------------------------------------------------------------------

/// How many progress events the loop emits over these lines: one per
/// progress line, stopping at the first terminal line.
pub open spec fn emitted_progress_count(lines: Seq<Seq<char>>) -> int
    decreases lines.len(),
{
    if lines.len() == 0 {
        0
    } else if is_terminal_line(lines[0]) {
        0
    } else {
        (if is_progress_line(lines[0]) {
            1int
        } else {
            0int
        }) + emitted_progress_count(lines.skip(1))
    }
}

/// How many progress lines the child produced.
pub open spec fn progress_line_count(lines: Seq<Seq<char>>) -> int
    decreases lines.len(),
{
    if lines.len() == 0 {
        0
    } else {
        (if is_progress_line(lines[0]) {
            1int
        } else {
            0int
        }) + progress_line_count(lines.skip(1))
    }
}

/// The progress lines the loop reads, in order: every progress line before
/// the first terminal line. Each one yields exactly one progress event.
pub open spec fn emitted_sources(lines: Seq<Seq<char>>) -> Seq<Seq<char>>
    decreases lines.len(),
{
    if lines.len() == 0 {
        Seq::empty()
    } else if is_terminal_line(lines[0]) {
        Seq::empty()
    } else {
        let rest = emitted_sources(lines.skip(1));
        if is_progress_line(lines[0]) {
            seq![lines[0]] + rest
        } else {
            rest
        }
    }
}

/// The loop emits exactly one progress event per line it reads as progress.
pub proof fn lemma_emitted_count_is_sources_len(lines: Seq<Seq<char>>)
    ensures
        emitted_progress_count(lines) == emitted_sources(lines).len(),
    decreases lines.len(),
{
    if lines.len() > 0 && !is_terminal_line(lines[0]) {
        lemma_emitted_count_is_sources_len(lines.skip(1));
    }
}

/// The counters of a run, as a terminal payload.
pub open spec fn done_of_counters(s: Supervisor) -> DonePayload {
    DonePayload {
        successful: s.successful,
        failed: s.failed,
        total: s.total,
        total_abnormal: s.total_abnormal,
        total_normal: s.total_normal,
    }
}

/// The all-zero terminal payload a run starts from.
pub open spec fn zero_done() -> DonePayload {
    DonePayload { successful: 0, failed: 0, total: 0, total_abnormal: 0, total_normal: 0 }
}

/// The terminal payload the loop ends with, folding the lines over the
/// running counters `acc`: a terminal line fixes all five, a progress line
/// updates the first three, everything after a terminal line is unread.
pub open spec fn run_done(lines: Seq<Seq<char>>, acc: DonePayload) -> DonePayload
    decreases lines.len(),
{
    if lines.len() == 0 {
        acc
    } else {
        let l = lines[0];
        if is_terminal_line(l) {
            DonePayload {
                successful: u64_or_zero(l, "successful"@) as usize,
                failed: u64_or_zero(l, "failed"@) as usize,
                total: u64_or_zero(l, "total"@) as usize,
                total_abnormal: u64_or_zero(l, "total_abnormal"@) as u32,
                total_normal: u64_or_zero(l, "total_normal"@) as u32,
            }
        } else if is_progress_line(l) {
            run_done(
                lines.skip(1),
                DonePayload {
                    successful: u64_or_zero(l, "successful"@) as usize,
                    failed: u64_or_zero(l, "failed"@) as usize,
                    total: u64_or_zero(l, "total"@) as usize,
                    ..acc
                },
            )
        } else {
            run_done(lines.skip(1), acc)
        }
    }
}

/// A well-formed child stdout stream: the terminal line, if any, is last.
pub open spec fn wellformed_stream(lines: Seq<Seq<char>>) -> bool {
    forall|i: int|
        0 <= i < lines.len() && is_terminal_line(#[trigger] lines[i]) ==> i == lines.len() - 1
}

/// Event framing: over a well-formed stream the loop emits exactly one
/// progress event per progress line produced; the terminal event is emitted
/// exactly once per run, by `finish`, whose contract allows no second call.
pub proof fn lemma_event_framing(lines: Seq<Seq<char>>)
    requires
        wellformed_stream(lines),
    ensures
        emitted_progress_count(lines) == progress_line_count(lines),
    decreases lines.len(),
{
    if lines.len() > 0 {
        let rest = lines.skip(1);
        if is_terminal_line(lines[0]) {
            assert(lines.len() == 1);
            assert(rest =~= Seq::<Seq<char>>::empty());
            assert(progress_line_count(Seq::<Seq<char>>::empty()) == 0);
            assert(!is_progress_line(lines[0]));
            assert(progress_line_count(lines) == 0);
            assert(emitted_progress_count(lines) == 0);
        } else {
            assert(wellformed_stream(rest)) by {
                assert(forall|i: int|
                    0 <= i < rest.len() ==> rest[i] == #[trigger] lines[i + 1]);
            }
            lemma_event_framing(rest);
            assert(emitted_progress_count(lines) == (if is_progress_line(lines[0]) {
                1int
            } else {
                0int
            }) + emitted_progress_count(rest));
            assert(progress_line_count(lines) == (if is_progress_line(lines[0]) {
                1int
            } else {
                0int
            }) + progress_line_count(rest));
        }
    }
}

/// The supervision loop over a complete stdout transcript, without
/// cancellation: lines handled in order, stopping after a terminal line,
/// then the single terminal event from the counters. One progress event per
/// progress line read, each holding exactly what its line said, and the
/// terminal payload exactly the fold of the lines over the counters.
pub fn run_stdout_lines(lines: &Vec<String>) -> (r: (Vec<ProgressPayload>, DonePayload))
    ensures
        r.0@.len() == emitted_sources(str_views(lines@)).len(),
        forall|k: int|
            0 <= k < r.0@.len() ==> progress_matches(
                #[trigger] r.0@[k],
                emitted_sources(str_views(lines@))[k],
            ),
        r.0@.len() == emitted_progress_count(str_views(lines@)),
        r.1 == run_done(str_views(lines@), zero_done()),
{
    let ghost vs = str_views(lines@);
    let ghost sources = emitted_sources(vs);
    proof {
        assert(vs.skip(0) =~= vs);
        assert(sources.skip(0) =~= sources);
        lemma_emitted_count_is_sources_len(vs);
    }
    let mut sup = Supervisor::new();
    let mut evs: Vec<ProgressPayload> = Vec::new();
    let mut stopped = false;
    let mut i: usize = 0;
    proof {
        assert(done_of_counters(sup) == zero_done());
    }
    while i < lines.len() && !stopped
        invariant
            i <= lines@.len(),
            vs == str_views(lines@),
            sources == emitted_sources(vs),
            vs.len() == lines@.len(),
            !sup.finished,
            evs@.len() <= sources.len(),
            !stopped ==> sources.skip(evs@.len() as int) == emitted_sources(vs.skip(i as int)),
            stopped ==> evs@.len() == sources.len(),
            forall|k: int|
                0 <= k < evs@.len() ==> progress_matches(#[trigger] evs@[k], sources[k]),
            !stopped ==> run_done(vs, zero_done()) == run_done(
                vs.skip(i as int),
                done_of_counters(sup),
            ),
            stopped ==> run_done(vs, zero_done()) == done_of_counters(sup),
        decreases lines@.len() - i,
    {
        let ghost n = evs@.len() as int;
        let ghost acc0 = done_of_counters(sup);
        let (stop, ev) = sup.on_line(lines[i].as_str());
        proof {
            assert(vs.skip(i as int)[0] == vs[i as int]);
            assert(vs[i as int] == lines@[i as int]@);
            assert(vs.skip(i as int).skip(1) =~= vs.skip(i + 1));
            let l = vs[i as int];
            if is_terminal_line(l) {
                assert(run_done(vs.skip(i as int), acc0) == done_of_counters(sup));
            } else if is_progress_line(l) {
                assert(done_of_counters(sup) == (DonePayload {
                    successful: u64_or_zero(l, "successful"@) as usize,
                    failed: u64_or_zero(l, "failed"@) as usize,
                    total: u64_or_zero(l, "total"@) as usize,
                    ..acc0
                }));
                assert(run_done(vs.skip(i as int), acc0) == run_done(
                    vs.skip(i + 1),
                    done_of_counters(sup),
                ));
            } else {
                assert(done_of_counters(sup) == acc0);
                assert(run_done(vs.skip(i as int), acc0) == run_done(vs.skip(i + 1), acc0));
            }
        }
        match ev {
            Some(p) => {
                proof {
                    assert(emitted_sources(vs.skip(i as int)) == seq![vs[i as int]]
                        + emitted_sources(vs.skip(i + 1)));
                    assert(sources.skip(n)[0] == sources[n]);
                    assert(sources[n] == vs[i as int]);
                    assert(sources.skip(n).skip(1) =~= sources.skip(n + 1));
                    assert(sources.skip(n + 1) =~= emitted_sources(vs.skip(i + 1)));
                }
                evs.push(p);
            },
            None => {},
        }
        if stop {
            proof {
                assert(emitted_sources(vs.skip(i as int)) =~= Seq::<Seq<char>>::empty());
                assert(sources.skip(n) =~= Seq::<Seq<char>>::empty());
            }
            stopped = true;
        }
        i += 1;
    }
    proof {
        if !stopped {
            assert(vs.skip(vs.len() as int) =~= Seq::<Seq<char>>::empty());
            assert(emitted_sources(vs.skip(vs.len() as int)) =~= Seq::<Seq<char>>::empty());
            assert(sources.skip(evs@.len() as int).len() == 0);
            assert(run_done(Seq::<Seq<char>>::empty(), done_of_counters(sup))
                == done_of_counters(sup));
        }
    }
    let d = sup.finish();
    (evs, d)
}

// ---------------------------------------------------------------------------
// Framing the configuration for the child
// ---------------------------------------------------------------------------

/// A hexadecimal digit character, lower case.
pub open spec fn hex_digit(d: int) -> char
    recommends
        0 <= d < 16,
{
    if d < 10 {
        dec_digit(d)
    } else if d == 10 {
        'a'
    } else if d == 11 {
        'b'
    } else if d == 12 {
        'c'
    } else if d == 13 {
        'd'
    } else if d == 14 {
        'e'
    } else {
        'f'
    }
}

fn hex_digit_str(d: u32) -> (r: &'static str)
    requires
        d < 16,
    ensures
        r@ == seq![hex_digit(d as int)],
{
    proof {
        reveal_strlit("a");
        reveal_strlit("b");
        reveal_strlit("c");
        reveal_strlit("d");
        reveal_strlit("e");
        reveal_strlit("f");
    }
    if d < 10 {
        digit_str(d as u64)
    } else if d == 10 {
        "a"
    } else if d == 11 {
        "b"
    } else if d == 12 {
        "c"
    } else if d == 13 {
        "d"
    } else if d == 14 {
        "e"
    } else {
        "f"
    }
}

/// How one character appears inside a JSON string: quotes and backslashes
/// escaped, control characters as `\u00XX`.
pub open spec fn json_escape_char(c: char) -> Seq<char> {
    if c == '"' {
        seq!['\\', '"']
    } else if c == '\\' {
        seq!['\\', '\\']
    } else if (c as int) < 32 {
        seq!['\\', 'u', '0', '0', hex_digit(c as int / 16), hex_digit(c as int % 16)]
    } else {
        seq![c]
    }
}

/// A whole string escaped for JSON.
pub open spec fn json_escaped(s: Seq<char>) -> Seq<char>
    decreases s.len(),
{
    if s.len() == 0 {
        Seq::empty()
    } else {
        json_escaped(s.drop_last()) + json_escape_char(s.last())
    }
}

/// Escape a string for use inside a JSON string literal.
pub fn json_escape(s: &str) -> (r: String)
    ensures
        r@ == json_escaped(s@),
{
    let n = s.unicode_len();
    let mut r = String::new();
    let mut i: usize = 0;
    while i < n
        invariant
            i <= n,
            n == s@.len(),
            r@ == json_escaped(s@.take(i as int)),
        decreases n - i,
    {
        let c = s.get_char(i);
        proof {
            assert(s@.take(i + 1).drop_last() =~= s@.take(i as int));
            assert(s@.take(i + 1).last() == s@[i as int]);
        }
        if c == '"' {
            r.append("\\\"");
            proof {
                reveal_strlit("\\\"");
                assert(r@ =~= json_escaped(s@.take(i + 1)));
            }
        } else if c == '\\' {
            r.append("\\\\");
            proof {
                reveal_strlit("\\\\");
                assert(r@ =~= json_escaped(s@.take(i + 1)));
            }
        } else if (c as u32) < 32 {
            let cv = c as u32;
            r.append("\\u00");
            let h1 = hex_digit_str(cv / 16);
            r.append(h1);
            let h2 = hex_digit_str(cv % 16);
            r.append(h2);
            proof {
                reveal_strlit("\\u00");
                assert(r@ =~= json_escaped(s@.take(i + 1)));
            }
        } else {
            push_char(&mut r, c);
            proof {
                assert(r@ =~= json_escaped(s@.take(i + 1)));
            }
        }
        i += 1;
    }
    proof {
        assert(s@.take(n as int) =~= s@);
    }
    r
}

/// One `"key":"value"` member of the framed configuration object.
pub open spec fn json_member(key: Seq<char>, val: Seq<char>) -> Seq<char> {
    seq!['"'] + key + seq!['"', ':', '"'] + json_escaped(val) + seq!['"']
}

fn append_json_member(out: &mut String, key: &str, val: &str)
    ensures
        final(out)@ == old(out)@ + json_member(key@, val@),
{
    push_char(out, '"');
    out.append(key);
    push_char(out, '"');
    push_char(out, ':');
    push_char(out, '"');
    let e = json_escape(val);
    out.append(e.as_str());
    push_char(out, '"');
    proof {
        assert(out@ =~= old(out)@ + json_member(key@, val@));
    }
}

/// The JSON object handed to the child: the inference knobs and output
/// toggles, every value the configuration's own string.
pub open spec fn config_json_spec(c: AppConfig) -> Seq<char> {
    seq!['{'] + json_member("imgsz"@, c.imgsz@) + seq![','] + json_member("conf"@, c.conf@)
        + seq![','] + json_member("iou"@, c.iou@) + seq![','] + json_member(
        "max_det"@,
        c.max_det@,
    ) + seq![','] + json_member("device"@, c.device@) + seq![','] + json_member(
        "convert_kml"@,
        c.convert_kml@,
    ) + seq![','] + json_member("convert_shp"@, c.convert_shp@) + seq![','] + json_member(
        "save_annotated"@,
        c.save_annotated@,
    ) + seq![','] + json_member("line_width"@, c.line_width@) + seq![','] + json_member(
        "show_labels"@,
        c.show_labels@,
    ) + seq![','] + json_member("show_conf"@, c.show_conf@) + seq!['}']
}

/// Frame the configuration object for the child's command line.
pub fn config_json(c: &AppConfig) -> (r: String)
    ensures
        r@ == config_json_spec(*c),
{
    let mut s = String::new();
    push_char(&mut s, '{');
    append_json_member(&mut s, "imgsz", c.imgsz.as_str());
    push_char(&mut s, ',');
    append_json_member(&mut s, "conf", c.conf.as_str());
    push_char(&mut s, ',');
    append_json_member(&mut s, "iou", c.iou.as_str());
    push_char(&mut s, ',');
    append_json_member(&mut s, "max_det", c.max_det.as_str());
    push_char(&mut s, ',');
    append_json_member(&mut s, "device", c.device.as_str());
    push_char(&mut s, ',');
    append_json_member(&mut s, "convert_kml", c.convert_kml.as_str());
    push_char(&mut s, ',');
    append_json_member(&mut s, "convert_shp", c.convert_shp.as_str());
    push_char(&mut s, ',');
    append_json_member(&mut s, "save_annotated", c.save_annotated.as_str());
    push_char(&mut s, ',');
    append_json_member(&mut s, "line_width", c.line_width.as_str());
    push_char(&mut s, ',');
    append_json_member(&mut s, "show_labels", c.show_labels.as_str());
    push_char(&mut s, ',');
    append_json_member(&mut s, "show_conf", c.show_conf.as_str());
    push_char(&mut s, '}');
    proof {
        assert(s@ =~= config_json_spec(*c));
    }
    s
}

// ---------------------------------------------------------------------------
// Planning a launch
// ---------------------------------------------------------------------------

/// The JSON array text of a list of strings; a function of the strings
/// alone.
pub uninterp spec fn json_of_strings(v: Seq<Seq<char>>) -> Seq<char>;

/// Relies on serde_json::to_string on a vector of strings: its JSON array
/// text; serializing strings into a fresh buffer cannot fail.
#[verifier::external_body]
fn json_encode_strings(v: &Vec<String>) -> (r: Result<String, String>)
    ensures
        r is Ok,
        r matches Ok(s) ==> s@ == json_of_strings(v.deep_view()),
{
    serde_json::to_string(v).map_err(|e| format!("Failed to serialize files: {}", e))
}

/// The five-argument vector the sidecar is spawned with.
pub open spec fn sidecar_args_ok(
    args: Seq<String>,
    files: Seq<Seq<char>>,
    model_path: Seq<char>,
    model_name: Seq<char>,
    c: AppConfig,
) -> bool {
    &&& args.len() == 5
    &&& args[0]@ == "--infer-files"@
    &&& args[1]@ == json_of_strings(files)
    &&& args[2]@ == model_path
    &&& args[3]@ == model_name
    &&& args[4]@ == config_json_spec(c)
}

/// The error reported when no qualifying sidecar executable is installed:
/// what was missing, and where to install the pack.
pub open spec fn sidecar_missing_message(binaries_dir: Seq<char>, windows: bool) -> Seq<char> {
    "infer_worker tidak ditemukan. Salin AI pack ke "@ + binaries_dir + " (pastikan ada file "@
        + (if windows {
        "infer_worker-x86_64-pc-windows-msvc.exe"@
    } else {
        "infer_worker (sesuai target triple)"@
    }) + " di dalamnya, bukan placeholder)"@
}

/// Decide whether processing may start, and with which argument vector. An
/// empty work list, a missing model file and a missing sidecar are errors,
/// in that order, each with its reported text; on every other input the
/// plan succeeds, and no child is to be spawned on any error.
pub fn plan_processing(
    files: &Vec<String>,
    model_path: &str,
    model_name: &str,
    config: &AppConfig,
    model_file_exists: bool,
    worker_found: bool,
    binaries_dir: &str,
    windows: bool,
) -> (r: Result<Vec<String>, String>)
    ensures
        r is Ok <==> files@.len() > 0 && model_file_exists && worker_found,
        files@.len() == 0 ==> (r matches Err(e) && e@ == "No files to process"@),
        (files@.len() > 0 && !model_file_exists) ==> (r matches Err(e) && e@
            == "Model file not found: "@ + model_path@),
        (files@.len() > 0 && model_file_exists && !worker_found) ==> (r matches Err(e) && e@
            == sidecar_missing_message(binaries_dir@, windows)),
        r matches Ok(args) ==> sidecar_args_ok(
            args@,
            files.deep_view(),
            model_path@,
            model_name@,
            *config,
        ),
{
    if files.len() == 0 {
        return Err("No files to process".to_owned());
    }
    if !model_file_exists {
        let mut m = "Model file not found: ".to_owned();
        m.append(model_path);
        return Err(m);
    }
    if !worker_found {
        let mut m = "infer_worker tidak ditemukan. Salin AI pack ke ".to_owned();
        m.append(binaries_dir);
        m.append(" (pastikan ada file ");
        if windows {
            m.append("infer_worker-x86_64-pc-windows-msvc.exe");
        } else {
            m.append("infer_worker (sesuai target triple)");
        }
        m.append(" di dalamnya, bukan placeholder)");
        proof {
            assert(m@ =~= sidecar_missing_message(binaries_dir@, windows));
        }
        return Err(m);
    }
    let files_json = match json_encode_strings(files) {
        Ok(j) => j,
        Err(e) => {
            return Err(e);
        },
    };
    let mut args: Vec<String> = Vec::new();
    args.push("--infer-files".to_owned());
    args.push(files_json);
    args.push(model_path.to_owned());
    args.push(model_name.to_owned());
    args.push(config_json(config));
    Ok(args)
}

// ---------------------------------------------------------------------------
// Sidecar discovery
// ---------------------------------------------------------------------------

/// The floor below which a file is a placeholder, not a real sidecar.
pub open spec fn min_sidecar_size() -> int {
    500
}

/// Whether a candidate file is large enough to be the real sidecar.
pub fn is_real_sidecar(size: u64) -> (r: bool)
    ensures
        r == (size >= min_sidecar_size()),
{
    size >= 500
}

/// The platform's sidecar candidate names, in resolution order.
pub open spec fn candidate_names(windows: bool) -> Seq<Seq<char>> {
    if windows {
        seq!["infer_worker.exe"@, "infer_worker-x86_64-pc-windows-msvc.exe"@]
    } else {
        seq![
            "infer_worker"@,
            "infer_worker-x86_64-unknown-linux-gnu"@,
            "infer_worker-aarch64-apple-darwin"@,
            "infer_worker-x86_64-apple-darwin"@,
        ]
    }
}

fn candidate_exe_names(windows: bool) -> (r: Vec<String>)
    ensures
        r@.len() == candidate_names(windows).len(),
        forall|k: int| 0 <= k < r@.len() ==> r@[k]@ == candidate_names(windows)[k],
{
    let mut r: Vec<String> = Vec::new();
    if windows {
        r.push("infer_worker.exe".to_owned());
        r.push("infer_worker-x86_64-pc-windows-msvc.exe".to_owned());
    } else {
        r.push("infer_worker".to_owned());
        r.push("infer_worker-x86_64-unknown-linux-gnu".to_owned());
        r.push("infer_worker-aarch64-apple-darwin".to_owned());
        r.push("infer_worker-x86_64-apple-darwin".to_owned());
    }
    r
}

/// Whether the listed files hold this name at or above the size floor.
pub open spec fn has_qualifying(entries: Seq<(String, u64)>, name: Seq<char>) -> bool {
    exists|i: int|
        0 <= i < entries.len() && (#[trigger] entries[i]).0@ == name && entries[i].1
            >= min_sidecar_size()
}

fn find_qualifying(entries: &Vec<(String, u64)>, name: &str) -> (r: bool)
    ensures
        r == has_qualifying(entries@, name@),
{
    let mut i: usize = 0;
    while i < entries.len()
        invariant
            i <= entries@.len(),
            forall|j: int|
                0 <= j < i ==> !((#[trigger] entries@[j]).0@ == name@ && entries@[j].1 >= 500),
        decreases entries@.len() - i,
    {
        if str_eq(entries[i].0.as_str(), name) && is_real_sidecar(entries[i].1) {
            return true;
        }
        i += 1;
    }
    false
}

/// Resolve the sidecar among the binaries directory's files, given as
/// (name, size): the first candidate name in the platform's resolution
/// order that is present at or above the placeholder floor.
pub fn locate_sidecar(entries: &Vec<(String, u64)>, windows: bool) -> (r: Option<String>)
    ensures
        r matches Some(n) ==> exists|k: int|
            0 <= k < candidate_names(windows).len() && n@ == candidate_names(windows)[k]
                && has_qualifying(entries@, #[trigger] candidate_names(windows)[k]) && (forall|
                j: int,
            |
                0 <= j < k ==> !has_qualifying(entries@, #[trigger] candidate_names(windows)[j])),
        r is None ==> forall|k: int|
            0 <= k < candidate_names(windows).len() ==> !has_qualifying(
                entries@,
                #[trigger] candidate_names(windows)[k],
            ),
{
    let names = candidate_exe_names(windows);
    let mut k: usize = 0;
    while k < names.len()
        invariant
            k <= names@.len(),
            names@.len() == candidate_names(windows).len(),
            forall|i: int| 0 <= i < names@.len() ==> names@[i]@ == candidate_names(windows)[i],
            forall|j: int|
                0 <= j < k ==> !has_qualifying(entries@, #[trigger] candidate_names(windows)[j]),
        decreases names@.len() - k,
    {
        if find_qualifying(entries, names[k].as_str()) {
            return Some(names[k].clone());
        }
        k += 1;
    }
    None
}

/// Whether the pack counts as installed: the binaries directory exists and
/// holds anything at all.
pub fn has_ai_pack_installed(dir_exists: bool, total_size: u64) -> (r: bool)
    ensures
        r == (dir_exists && total_size > 0),
{
    dir_exists && total_size > 0
}

// ---------------------------------------------------------------------------
// Launch gating and batch tallies
// ---------------------------------------------------------------------------

/// The launch gate on the active model: hand the path through, or the error
/// the UI shows when no model is selected.
pub fn require_active_model(path: Option<String>) -> (r: Result<String, String>)
    ensures
        path matches Some(p) ==> (r matches Ok(q) && q == p),
        path is None ==> (r matches Err(e) && e@
            == "No active model. Add and select a YOLO model first."@),
{
    match path {
        Some(p) => Ok(p),
        None => Err("No active model. Add and select a YOLO model first.".to_owned()),
    }
}

/// How many of a batch of per-file outcomes succeeded.
pub open spec fn count_true(s: Seq<bool>) -> int
    decreases s.len(),
{
    if s.len() == 0 {
        0
    } else {
        (if s[0] {
            1int
        } else {
            0int
        }) + count_true(s.skip(1))
    }
}

/// The error reported when no model of a batch was added; an empty batch
/// reads as zero failed out of zero.
pub open spec fn failed_all_message(total: int) -> Seq<char> {
    "Failed to add any models. "@ + dec_str(total as nat) + " failed out of "@ + dec_str(
        total as nat,
    )
}

/// Tally a batch of imports: the success and failure counts, or — exactly
/// when not one import succeeded, the empty batch included — the reported
/// error.
pub fn add_models_summary(results: &Vec<bool>) -> (r: Result<(usize, usize), String>)
    ensures
        r is Err <==> count_true(results@) == 0,
        r matches Ok(t) ==> t.0 == count_true(results@) && t.1 == results@.len() - count_true(
            results@,
        ),
        r matches Err(e) ==> e@ == failed_all_message(results@.len() as int),
{
    let ghost vs = results@;
    proof {
        assert(vs.skip(0) =~= vs);
    }
    let mut success: usize = 0;
    let mut i: usize = 0;
    while i < results.len()
        invariant
            i <= vs.len(),
            vs == results@,
            success <= i,
            count_true(vs) == success + count_true(vs.skip(i as int)),
        decreases vs.len() - i,
    {
        proof {
            assert(vs.skip(i as int)[0] == vs[i as int]);
            assert(vs.skip(i as int).skip(1) =~= vs.skip(i + 1));
        }
        if results[i] {
            success += 1;
        }
        i += 1;
    }
    proof {
        assert(vs.skip(vs.len() as int) =~= Seq::<bool>::empty());
        lemma_count_true_bounds(vs);
    }
    if success == 0 {
        let mut m = "Failed to add any models. ".to_owned();
        let t = u64_to_dec(results.len() as u64);
        m.append(t.as_str());
        m.append(" failed out of ");
        m.append(t.as_str());
        proof {
            assert(m@ =~= failed_all_message(results@.len() as int));
        }
        Err(m)
    } else {
        Ok((success, results.len() - success))
    }
}

proof fn lemma_count_true_bounds(s: Seq<bool>)
    ensures
        0 <= count_true(s) <= s.len(),
    decreases s.len(),
{
    if s.len() > 0 {
        lemma_count_true_bounds(s.skip(1));
    }
}

} // verus!
