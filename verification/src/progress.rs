//! Progress reporting while rows are written to the backup database.
use vstd::prelude::*;
use crate::text::{decimal, push_decimal};

verus! {

/// Something that follows the progress of a long write.
pub trait ProgressCollector {
    /// Whether `inc(delta)` keeps the collector's counter in range.
    spec fn can_inc(&self, delta: u64) -> bool;

    /// Records that `delta` more items are done.
    fn inc(&mut self, delta: u64)
        requires
            old(self).can_inc(delta),
    ;

    /// Records that the write is over.
    fn finish(&mut self);
}

/// A progress log line is written whenever the running count is a multiple
/// of this many items.
pub const REPORT_EVERY: u64 = 500;

/// The abstract state of a `LogCollector`.
pub struct CollectorState {
    pub label: Seq<char>,
    pub total: nat,
    pub done: nat,
    pub lines: Seq<Seq<char>>,
}

/// Whether a progress line is written when the count reaches `done`.
pub open spec fn reports_at(done: nat, total: nat) -> bool {
    done % (REPORT_EVERY as nat) == 0 || done == total
}

/// `[label] done/total`
pub open spec fn progress_line(label: Seq<char>, done: nat, total: nat) -> Seq<char> {
    "["@ + label + "] "@ + decimal(done) + "/"@ + decimal(total)
}

/// `[label] done (N records)`
pub open spec fn finish_line(label: Seq<char>, done: nat) -> Seq<char> {
    "["@ + label + "] done ("@ + decimal(done) + " records)"@
}

/// The state after `delta` more items are done.
pub open spec fn after_inc(s: CollectorState, delta: nat) -> CollectorState {
    let d = s.done + delta;
    CollectorState {
        label: s.label,
        total: s.total,
        done: d,
        lines: if reports_at(d, s.total) {
            s.lines.push(progress_line(s.label, d, s.total))
        } else {
            s.lines
        },
    }
}

/// The state after the write is over.
pub open spec fn after_finish(s: CollectorState) -> CollectorState {
    CollectorState {
        label: s.label,
        total: s.total,
        done: s.done,
        lines: s.lines.push(finish_line(s.label, s.done)),
    }
}

/// A collector that writes its progress as text lines into a log.
#[derive(Debug)]
pub struct LogCollector {
    lines: Vec<String>,
    label: String,
    total: u64,
    done: u64,
}

impl View for LogCollector {
    type V = CollectorState;

    closed spec fn view(&self) -> CollectorState {
        CollectorState {
            label: self.label@,
            total: self.total as nat,
            done: self.done as nat,
            lines: self.lines.deep_view(),
        }
    }
}

impl LogCollector {
    /// A collector for `total` items, labelled `label`, that appends to `lines`.
    pub fn new(label: String, total: u64, lines: Vec<String>) -> (r: Self)
        ensures
            r@ == (CollectorState { label: label@, total: total as nat, done: 0, lines: lines.deep_view() }),
    {
        LogCollector { lines, label, total, done: 0 }
    }

    /// The log written so far.
    pub fn lines(&self) -> (r: &Vec<String>)
        ensures
            r.deep_view() == self@.lines,
    {
        &self.lines
    }

    /// Gives the log back.
    pub fn into_lines(self) -> (r: Vec<String>)
        ensures
            r.deep_view() == self@.lines,
    {
        self.lines
    }

    /// How many items are done.
    pub fn done(&self) -> (r: u64)
        ensures
            r == self@.done,
    {
        self.done
    }

    /// `[label] done/total`
    fn progress_text(&self) -> (r: String)
        ensures
            r@ == progress_line(self@.label, self@.done, self@.total),
    {
        let mut s = String::new();
        s.append("[");
        s.append(self.label.as_str());
        s.append("] ");
        push_decimal(&mut s, self.done);
        s.append("/");
        push_decimal(&mut s, self.total);
        s
    }

    /// `[label] done (N records)`
    fn finish_text(&self) -> (r: String)
        ensures
            r@ == finish_line(self@.label, self@.done),
    {
        let mut s = String::new();
        s.append("[");
        s.append(self.label.as_str());
        s.append("] done (");
        push_decimal(&mut s, self.done);
        s.append(" records)");
        s
    }
}

impl ProgressCollector for LogCollector {
    open spec fn can_inc(&self, delta: u64) -> bool {
        self@.done + delta <= u64::MAX
    }

    fn inc(&mut self, delta: u64)
        ensures
            final(self)@ == after_inc(old(self)@, delta as nat),
    {
        self.done = self.done + delta;
        if self.done % REPORT_EVERY == 0 || self.done == self.total {
            let line = self.progress_text();
            let ghost before = self.lines.deep_view();
            self.lines.push(line);
            assert(self.lines.deep_view() =~= before.push(line@));
        }
    }

    fn finish(&mut self)
        ensures
            final(self)@ == after_finish(old(self)@),
    {
        let line = self.finish_text();
        let ghost before = self.lines.deep_view();
        self.lines.push(line);
        assert(self.lines.deep_view() =~= before.push(line@));
    }
}

/// The state after `k` items are done one at a time.
pub open spec fn after_one_by_one(s: CollectorState, k: nat) -> CollectorState
    decreases k,
{
    if k == 0 {
        s
    } else {
        after_inc(after_one_by_one(s, (k - 1) as nat), 1)
    }
}

/// Counting `k` items one at a time from zero writes one progress line per
/// `REPORT_EVERY` items, and one more when the count reaches the total
/// between two such lines; the log written before is kept, and once the
/// total is reached the last line reads `[label] total/total`.
pub proof fn law_reports_every_500(s: CollectorState, k: nat)
    requires
        s.done == 0,
        k <= s.total,
    ensures
        after_one_by_one(s, k).done == k,
        after_one_by_one(s, k).label == s.label,
        after_one_by_one(s, k).total == s.total,
        after_one_by_one(s, k).lines.len() == s.lines.len() + k / 500 + (if k == s.total && k % 500
            != 0 {
            1nat
        } else {
            0nat
        }),
        after_one_by_one(s, k).lines.take(s.lines.len() as int) == s.lines,
        k == s.total && k > 0 ==> after_one_by_one(s, k).lines.last() == progress_line(
            s.label,
            k,
            k,
        ),
    decreases k,
{
    if k > 0 {
        let k1 = (k - 1) as nat;
        law_reports_every_500(s, k1);
        let p = after_one_by_one(s, k1);
        assert(k / 500 == k1 / 500 + (if k % 500 == 0 {
            1nat
        } else {
            0nat
        }));
        let q = after_inc(p, 1);
        assert(q.lines.take(s.lines.len() as int) =~= s.lines) by {
            assert(p.lines.take(s.lines.len() as int) =~= s.lines);
        }
    }
}

/// Finishing adds exactly the line `[label] done (N records)` and changes
/// nothing else.
pub proof fn law_finish_closes_log(s: CollectorState)
    ensures
        after_finish(s).lines == s.lines.push(finish_line(s.label, s.done)),
        after_finish(s).done == s.done,
        after_finish(s).total == s.total,
        after_finish(s).label == s.label,
{
}

/// What a collector writes: when the count reaches a multiple of
/// `REPORT_EVERY` or the total, the line `[label] count/total`, and
/// nothing otherwise; when it finishes, the line
/// `[label] done (count records)`.
pub proof fn law_collector_texts(s: CollectorState, delta: nat)
    ensures
        ({
            let d = s.done + delta;
            let t = after_inc(s, delta);
            &&& t.done == d
            &&& ((d % 500 == 0 || d == s.total) ==> t.lines == s.lines.push(
                "["@ + s.label + "] "@ + decimal(d) + "/"@ + decimal(s.total),
            ))
            &&& (!(d % 500 == 0 || d == s.total) ==> t.lines == s.lines)
        }),
        after_finish(s).lines == s.lines.push(
            "["@ + s.label + "] done ("@ + decimal(s.done) + " records)"@,
        ),
{
}

} // verus!
