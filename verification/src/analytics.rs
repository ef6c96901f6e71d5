//! Building queries over GeoParquet: the classes a query may ask for, its
//! result limit, the tally of a paged full transfer checked against the
//! pushed-down query, and the state of the automatic analysis panel.
use vstd::prelude::*;
use crate::text::same_text;
use crate::text::push_decimal;
use crate::text::push_signed;
use crate::text::push_char;
use crate::text::decimal;
use crate::text::signed_decimal;

verus! {

/// The building classes a query may ask for.
pub open spec fn class_name(i: int) -> Seq<char> {
    if i == 0 {
        "apartments"@
    } else if i == 1 {
        "house"@
    } else if i == 2 {
        "commercial"@
    } else {
        "industrial"@
    }
}

/// Whether `text` is one of the building classes.
pub open spec fn is_class(text: Seq<char>) -> bool {
    exists|i: int| 0 <= i < 4 && class_name(i) == text
}

/// Whether `text` names a building class.
pub fn is_building_class(text: &str) -> (b: bool)
    ensures
        b == is_class(text@),
{
    let found = same_text(text, "apartments") || same_text(text, "house") || same_text(text, "commercial")
        || same_text(text, "industrial");
    proof {
        if found {
            if text@ == class_name(0) {
            } else if text@ == class_name(1) {
            } else if text@ == class_name(2) {
            } else {
                assert(text@ == class_name(3));
            }
        } else {
            assert forall|i: int| 0 <= i < 4 implies class_name(i) != text@ by {}
        }
    }
    found
}

/// The most results a query may ask for.
pub open spec fn max_results() -> i64 {
    100000
}

/// The result limit typed into the panel, brought between one and the
/// maximum.
pub fn clamp_limit(n: i64) -> (r: i64)
    ensures
        r == (if n < 1 { 1 } else if n > max_results() { max_results() } else { n }),
{
    if n < 1 {
        1
    } else if n > 100000 {
        100000
    } else {
        n
    }
}

/// The rows of a full transfer page.
pub open spec fn page_size() -> usize {
    4096
}

/// How many matches are counted after rows whose predicate results are
/// `flags`, starting from `m`: a match counts while fewer than `limit` have.
pub open spec fn counted(m: int, limit: int, flags: Seq<bool>) -> int
    decreases flags.len(),
{
    if flags.len() == 0 {
        m
    } else {
        let c = counted(m, limit, flags.drop_last());
        if c < limit && flags.last() {
            c + 1
        } else {
            c
        }
    }
}

/// How many of `flags` are true.
pub open spec fn trues(flags: Seq<bool>) -> int
    decreases flags.len(),
{
    if flags.len() == 0 {
        0
    } else {
        trues(flags.drop_last()) + if flags.last() { 1int } else { 0 }
    }
}

/// Counting stops at the limit: from below the limit, the count is the
/// smaller of the limit and all the matches.
pub proof fn lemma_counted_is_capped(m: int, limit: int, flags: Seq<bool>)
    requires
        m <= limit,
    ensures
        counted(m, limit, flags) == (if m + trues(flags) < limit { m + trues(flags) } else { limit }),
        0 <= trues(flags) <= flags.len(),
    decreases flags.len(),
{
    if flags.len() > 0 {
        lemma_counted_is_capped(m, limit, flags.drop_last());
    }
}

/// Paging does not change the count: counting one page after another
/// gives what counting all their rows at once gives.
pub proof fn lemma_pages_count_as_one(m: int, limit: int, first: Seq<bool>, second: Seq<bool>)
    ensures
        counted(counted(m, limit, first), limit, second) == counted(m, limit, first + second),
    decreases second.len(),
{
    if second.len() > 0 {
        lemma_pages_count_as_one(m, limit, first, second.drop_last());
        assert((first + second).drop_last() =~= first + second.drop_last());
        assert((first + second).last() == second.last());
    } else {
        assert(first + second =~= first);
    }
}

/// The tally of a full transfer read in pages.
#[derive(Debug, Clone, Copy, PartialEq, Eq, Structural)]
pub struct ScanTally {
    /// The rows read so far.
    pub offset: usize,
    /// The matching rows counted so far, at most `limit`.
    pub matched: usize,
    /// The bytes of page text read so far.
    pub transferred: usize,
    /// The most matches counted.
    pub limit: usize,
}

impl ScanTally {
    /// A tally before the first page.
    pub fn new(limit: usize) -> (t: ScanTally)
        ensures
            t == (ScanTally { offset: 0, matched: 0, transferred: 0, limit }),
    {
        ScanTally { offset: 0, matched: 0, transferred: 0, limit }
    }

    /// Takes in a page of `bytes` bytes whose rows match the query as
    /// `matches` says; whether another page follows (this one was full).
    pub fn absorb_page(&mut self, bytes: usize, matches: &Vec<bool>) -> (more: bool)
        requires
            old(self).offset + matches.len() <= usize::MAX,
            old(self).transferred + bytes <= usize::MAX,
            old(self).matched <= old(self).limit,
        ensures
            final(self).limit == old(self).limit,
            final(self).offset == old(self).offset + matches.len(),
            final(self).transferred == old(self).transferred + bytes,
            final(self).matched == counted(old(self).matched as int, old(self).limit as int, matches@),
            final(self).matched <= final(self).limit,
            more == (matches.len() >= page_size()),
    {
        self.transferred = self.transferred + bytes;
        let start = self.matched;
        let limit = self.limit;
        let mut m = start;
        let mut i: usize = 0;
        while i < matches.len()
            invariant
                i <= matches.len(),
                m == counted(start as int, limit as int, matches@.subrange(0, i as int)),
                m <= limit,
                start <= limit,
            decreases matches.len() - i,
        {
            proof {
                assert(matches@.subrange(0, i as int + 1).drop_last() =~= matches@.subrange(0, i as int));
            }
            if m < limit && matches[i] {
                m = m + 1;
            }
            i = i + 1;
        }
        assert(matches@.subrange(0, matches.len() as int) =~= matches@);
        self.matched = m;
        self.offset = self.offset + matches.len();
        matches.len() >= 4096
    }
}

/// Whether the pushed-down query returned as many rows as the full
/// transfer counted; if not, the error names both counts.
pub fn check_pushdown(matched: usize, rows: usize) -> (r: Result<(), String>)
    ensures
        r is Ok <==> matched == rows,
        r matches Err(m) ==> m@ == "Filter mismatch: Rust="@ + decimal(matched as nat) + ", DuckDB="@ + decimal(
            rows as nat,
        ),
{
    if matched == rows {
        Ok(())
    } else {
        let mut out = "Filter mismatch: Rust=".to_owned();
        push_decimal(&mut out, matched as u64);
        out.append(", DuckDB=");
        push_decimal(&mut out, rows as u64);
        Err(out)
    }
}

/// The status line while both paths run for `class`.
pub fn comparing_status(class: &str) -> (r: String)
    ensures
        r@ == "Comparing class '"@ + class@ + "': full dataset transfer and filtered query..."@,
{
    let mut out = "Comparing class '".to_owned();
    out.append(class);
    out.append("': full dataset transfer and filtered query...");
    out
}

/// The status line once both paths agree on `count` buildings of `class`.
pub fn agreed_status(count: usize, class: &str) -> (r: String)
    ensures
        r@ == decimal(count as nat) + " buildings ("@ + class@ + "); both filter results agree"@,
{
    let mut out = String::new();
    push_decimal(&mut out, count as u64);
    out.append(" buildings (");
    out.append(class);
    out.append("); both filter results agree");
    out
}

/// The automatic analysis panel: the class and limit asked for, whether a
/// run was asked for, and whether a job is running.
#[derive(Debug, Clone)]
pub struct AnalysisPanel {
    pub class: String,
    pub limit: i64,
    pub start: bool,
    pub running: bool,
}

/// What the panel asks of the running job.
#[derive(Debug, Clone, Copy, PartialEq, Eq, Structural)]
pub enum PanelAction {
    Cancel,
}

impl AnalysisPanel {
    /// The panel as it opens: apartments, at most 25000 results, idle.
    pub fn new() -> (p: AnalysisPanel)
        ensures
            p.class@ == "apartments"@,
            p.limit == 25000,
            !p.start,
            !p.running,
    {
        AnalysisPanel { class: "apartments".to_owned(), limit: 25000, start: false, running: false }
    }

    /// A control of the panel changed: the class (only to a known class),
    /// the limit (brought into range), the run button (heard only while no
    /// job runs) or the cancel button (which cancels a running job).
    pub fn control(&mut self, id: i32, whole: i64, text: &str) -> (r: Option<PanelAction>)
        ensures
            id == 1 && is_class(text@) ==> final(self).class@ == text@,
            !(id == 1 && is_class(text@)) ==> final(self).class@ == old(self).class@,
            id == 2 ==> final(self).limit == (if whole < 1 {
                1
            } else if whole > max_results() {
                max_results()
            } else {
                whole
            }),
            id != 2 ==> final(self).limit == old(self).limit,
            id == 3 ==> final(self).start == !old(self).running,
            id != 3 ==> final(self).start == old(self).start,
            final(self).running == old(self).running,
            r == (if id == 4 && old(self).running { Some(PanelAction::Cancel) } else { None }),
    {
        if id == 1 {
            if is_building_class(text) {
                self.class = text.to_owned();
            }
            None
        } else if id == 2 {
            self.limit = clamp_limit(whole);
            None
        } else if id == 3 {
            self.start = !self.running;
            None
        } else if id == 4 {
            if self.running {
                Some(PanelAction::Cancel)
            } else {
                None
            }
        } else {
            None
        }
    }

    /// Whether a run starts now: one was asked for and no job runs. The
    /// request is taken either way it is answered.
    pub fn take_start(&mut self) -> (go: bool)
        ensures
            go == (old(self).start && !old(self).running),
            final(self).start == (old(self).start && old(self).running),
            final(self).class@ == old(self).class@,
            final(self).limit == old(self).limit,
            final(self).running == old(self).running,
    {
        if self.start && !self.running {
            self.start = false;
            true
        } else {
            false
        }
    }

    /// The job was started (`started`) or refused.
    pub fn job_started(&mut self, started: bool)
        ensures
            final(self).running == started,
            final(self).start == old(self).start,
            final(self).class@ == old(self).class@,
            final(self).limit == old(self).limit,
    {
        self.running = started;
    }

    /// The job finished, whatever its outcome.
    pub fn job_finished(&mut self)
        ensures
            !final(self).running,
            final(self).start == old(self).start,
            final(self).class@ == old(self).class@,
            final(self).limit == old(self).limit,
    {
        self.running = false;
    }

    /// The report shown while the analysis runs.
    pub fn running_text(&self) -> (r: String)
        ensures
            r@ == "Running analysis for '"@ + self.class@ + "' (maximum "@ + signed_decimal(self.limit as int)
                + ")..."@,
    {
        let mut out = "Running analysis for '".to_owned();
        out.append(self.class.as_str());
        out.append("' (maximum ");
        push_signed(&mut out, self.limit);
        out.append(")...");
        out
    }

    /// The status line after `count` buildings were drawn.
    pub fn done_status(&self, count: usize) -> (r: String)
        ensures
            r@ == decimal(count as nat) + " filtered buildings ("@ + self.class@ + seq![')'],
    {
        let mut out = String::new();
        push_decimal(&mut out, count as u64);
        out.append(" filtered buildings (");
        out.append(self.class.as_str());
        push_char(&mut out, ')');
        out
    }
}

/// How a finished job ended, from its summary's flags and message: a
/// cancelled job, then a job that did not succeed (with its message, or
/// "Analysis failed"), are failures.
pub fn job_outcome(cancelled: Option<bool>, succeeded: Option<bool>, message: Option<&str>) -> (r: Result<
    (),
    String,
>)
    ensures
        cancelled == Some(true) ==> (r matches Err(m) && m@ == "Analysis cancelled"@),
        cancelled != Some(true) && succeeded != Some(true) ==> (r matches Err(m) && m@ == (match message {
            Some(t) => t@,
            None => "Analysis failed"@,
        })),
        cancelled != Some(true) && succeeded == Some(true) ==> r is Ok,
{
    let was_cancelled = match cancelled {
        Some(b) => b,
        None => false,
    };
    let did_succeed = match succeeded {
        Some(b) => b,
        None => false,
    };
    if was_cancelled {
        return Err("Analysis cancelled".to_owned());
    }
    if !did_succeed {
        return match message {
            Some(t) => Err(t.to_owned()),
            None => Err("Analysis failed".to_owned()),
        };
    }
    Ok(())
}

/// The status line after a failed job: the failure, then the service's
/// last error.
pub fn failure_status(error: &str, last: &str) -> (r: String)
    ensures
        r@ == error@ + ": "@ + last@,
{
    let mut out = error.to_owned();
    out.append(": ");
    out.append(last);
    out
}

/// One execution attempt of an analysis, as reported: the backend tried,
/// whether it succeeded, its elapsed time as written by the service, and
/// its message.
#[derive(Debug, Clone)]
pub struct AttemptFacts {
    pub backend: Option<String>,
    pub succeeded: bool,
    pub elapsed: String,
    pub message: Option<String>,
}

/// What the materialized layer reports: its counts as written by the
/// service, and its warnings.
#[derive(Debug, Clone)]
pub struct MaterialFacts {
    pub source_rows: String,
    pub features: String,
    pub skipped: String,
    pub warnings: Option<Vec<Option<String>>>,
}

/// The plan of an analysis as reported.
#[derive(Debug, Clone)]
pub struct PlanFacts {
    pub backend: Option<String>,
    pub predicate_pushdown: bool,
    pub projection_pushdown: bool,
    pub explanation: Option<String>,
    pub attempts: Option<Vec<AttemptFacts>>,
}

/// A text that may be missing, with a stand-in.
pub open spec fn or_text(t: Option<String>, stand_in: Seq<char>) -> Seq<char> {
    match t {
        Some(s) => s@,
        None => stand_in,
    }
}

/// `yes` or `no`.
pub open spec fn yes_no(b: bool) -> Seq<char> {
    if b {
        "yes"@
    } else {
        "no"@
    }
}

/// The line of one attempt.
pub open spec fn attempt_line(a: AttemptFacts) -> Seq<char> {
    or_text(a.backend, "Unknown"@) + ": "@ + (if a.succeeded { "success"@ } else { "failed"@ }) + " ("@ + a.elapsed@
        + " ms) "@ + or_text(a.message, ""@) + seq!['\n']
}

/// The lines of the attempts.
pub open spec fn attempt_lines(a: Seq<AttemptFacts>) -> Seq<char>
    decreases a.len(),
{
    if a.len() == 0 {
        Seq::empty()
    } else {
        attempt_lines(a.drop_last()) + attempt_line(a.last())
    }
}

/// The lines of the warnings.
pub open spec fn warning_lines(w: Seq<Option<String>>) -> Seq<char>
    decreases w.len(),
{
    if w.len() == 0 {
        Seq::empty()
    } else {
        warning_lines(w.drop_last()) + or_text(w.last(), ""@) + seq!['\n']
    }
}

/// The head of an analysis report: what was asked and the plan chosen.
pub open spec fn report_head(class: Seq<char>, limit: int, p: PlanFacts) -> Seq<char> {
    "Building class: "@ + class + "\nMaximum results: "@ + signed_decimal(limit)
        + "\nBBOX: 18.04, 59.30, 18.10, 59.35\n\nANALYSIS PLAN\nRequested backend: Auto\nSelected backend: "@ + or_text(
        p.backend,
        "Unknown"@,
    ) + "\nPredicate pushdown: "@ + yes_no(p.predicate_pushdown) + "\nProjection pushdown: "@ + yes_no(
        p.projection_pushdown,
    ) + "\n\n"@ + or_text(p.explanation, ""@) + "\n\nEXECUTION ATTEMPTS\n"@
}

/// The attempts part of a report.
pub open spec fn attempts_part(a: Option<Vec<AttemptFacts>>) -> Seq<char> {
    match a {
        Some(v) => attempt_lines(v@),
        None => Seq::empty(),
    }
}

/// The materialization part of a report, once the layer exists.
pub open spec fn material_part(m: Option<MaterialFacts>) -> Seq<char> {
    match m {
        Some(f) => "\nMATERIALIZATION\nSource rows: "@ + f.source_rows@ + "\nLayer features: "@ + f.features@
            + "\nSkipped: "@ + f.skipped@ + seq!['\n'] + (match f.warnings {
            Some(w) => warning_lines(w@),
            None => Seq::empty(),
        }),
        None => Seq::empty(),
    }
}

/// The report of an automatic analysis: what was asked, the plan chosen,
/// each execution attempt, and, once the layer exists, its
/// materialization.
pub open spec fn report_text(class: Seq<char>, limit: int, p: PlanFacts, m: Option<MaterialFacts>) -> Seq<char> {
    report_head(class, limit, p) + attempts_part(p.attempts) + material_part(m)
}

fn push_or(out: &mut String, t: &Option<String>, stand_in: &str)
    ensures
        final(out)@ == old(out)@ + or_text(*t, stand_in@),
{
    match t {
        Some(s) => out.append(s.as_str()),
        None => out.append(stand_in),
    }
}

fn report_head_text(class: &str, limit: i64, p: &PlanFacts) -> (r: String)
    ensures
        r@ == report_head(class@, limit as int, *p),
{
    let mut out = "Building class: ".to_owned();
    out.append(class);
    out.append("\nMaximum results: ");
    push_signed(&mut out, limit);
    out.append("\nBBOX: 18.04, 59.30, 18.10, 59.35\n\nANALYSIS PLAN\nRequested backend: Auto\nSelected backend: ");
    push_or(&mut out, &p.backend, "Unknown");
    out.append("\nPredicate pushdown: ");
    out.append(if p.predicate_pushdown { "yes" } else { "no" });
    out.append("\nProjection pushdown: ");
    out.append(if p.projection_pushdown { "yes" } else { "no" });
    out.append("\n\n");
    push_or(&mut out, &p.explanation, "");
    out.append("\n\nEXECUTION ATTEMPTS\n");
    out
}

fn push_attempts(out: &mut String, attempts: &Option<Vec<AttemptFacts>>)
    ensures
        final(out)@ == old(out)@ + attempts_part(*attempts),
{
    let ghost head = out@;
    match attempts {
        Some(a) => {
            let mut i: usize = 0;
            while i < a.len()
                invariant
                    i <= a.len(),
                    out@ == head + attempt_lines(a@.subrange(0, i as int)),
                decreases a.len() - i,
            {
                assert(a@.subrange(0, i as int + 1).drop_last() =~= a@.subrange(0, i as int));
                assert(a@.subrange(0, i as int + 1).last() == a@[i as int]);
                let t = &a[i];
                let ghost before = out@;
                push_or(out, &t.backend, "Unknown");
                out.append(": ");
                out.append(if t.succeeded { "success" } else { "failed" });
                out.append(" (");
                out.append(t.elapsed.as_str());
                out.append(" ms) ");
                push_or(out, &t.message, "");
                push_char(out, '\n');
                assert(out@ =~= before + attempt_line(*t));
                i = i + 1;
            }
            assert(a@.subrange(0, a.len() as int) =~= a@);
        },
        None => {
            assert(out@ =~= head + attempts_part(*attempts));
        },
    }
}

fn push_material(out: &mut String, m: Option<&MaterialFacts>)
    ensures
        final(out)@ == old(out)@ + material_part(match m {
            Some(f) => Some(*f),
            None => None,
        }),
{
    let ghost head = out@;
    match m {
        Some(f) => {
            out.append("\nMATERIALIZATION\nSource rows: ");
            out.append(f.source_rows.as_str());
            out.append("\nLayer features: ");
            out.append(f.features.as_str());
            out.append("\nSkipped: ");
            out.append(f.skipped.as_str());
            push_char(out, '\n');
            let ghost tail = out@;
            match &f.warnings {
                Some(w) => {
                    let mut k: usize = 0;
                    while k < w.len()
                        invariant
                            k <= w.len(),
                            out@ == tail + warning_lines(w@.subrange(0, k as int)),
                        decreases w.len() - k,
                    {
                        assert(w@.subrange(0, k as int + 1).drop_last() =~= w@.subrange(0, k as int));
                        assert(w@.subrange(0, k as int + 1).last() == w@[k as int]);
                        push_or(out, &w[k], "");
                        push_char(out, '\n');
                        k = k + 1;
                    }
                    assert(w@.subrange(0, w.len() as int) =~= w@);
                },
                None => {},
            }
            assert(out@ =~= head + material_part(Some(*f)));
        },
        None => {
            assert(out@ =~= head + material_part(None));
        },
    }
}

/// Writes the report of an automatic analysis.
pub fn analysis_report(class: &str, limit: i64, p: &PlanFacts, m: Option<&MaterialFacts>) -> (r: String)
    ensures
        r@ == report_text(class@, limit as int, *p, match m {
            Some(f) => Some(*f),
            None => None,
        }),
{
    let mut out = report_head_text(class, limit, p);
    push_attempts(&mut out, &p.attempts);
    push_material(&mut out, m);
    out
}

} // verus!
