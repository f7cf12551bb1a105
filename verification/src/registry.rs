//! The sink registry: an ordered collection of sinks behind a master
//! ceiling, and the dispatch routine that routes one formatted record to
//! every eligible sink.

use vstd::prelude::*;
use crate::severity::Severity;
use crate::severity::spec_admits;
use crate::severity::admits;
use crate::format::line_spec;
use crate::format::format_line;
use crate::format::lemma_line_shape;

verus! {

/// One writable destination paired with the most permissive severity it
/// accepts. The destination is append-only, so it is modelled by the text
/// it has received, in order; dispatch only ever extends it.
pub struct Sink {
    pub ceiling: Severity,
    pub content: String,
}

impl Sink {
    /// A sink whose destination has received nothing yet.
    pub fn new(ceiling: Severity) -> (r: Sink)
        ensures
            r.ceiling == ceiling,
            r.content@ == Seq::<char>::empty(),
    {
        Sink { ceiling, content: String::new() }
    }
}

/// What one dispatch of a record does to one sink's content: the formatted
/// line is appended iff both the master ceiling and the sink's own ceiling
/// admit the record's severity; otherwise the content is left untouched.
pub open spec fn sink_dispatched(
    content: Seq<char>,
    ceiling: Severity,
    master: Severity,
    level: Severity,
    message: Seq<char>,
) -> Seq<char> {
    if spec_admits(master, level) && spec_admits(ceiling, level) {
        content + line_spec(level, message)
    } else {
        content
    }
}

/// The logger: an ordered registry of sinks plus the master severity
/// ceiling that gates every record before any sink is consulted.
pub struct Logger {
    pub max_level: Severity,
    pub writers: Vec<Sink>,
}

impl Logger {
    /// A logger over the given sinks, in the given order, gated by the
    /// given master ceiling.
    pub fn new(writers: Vec<Sink>, master_max_level: Severity) -> (r: Logger)
        ensures
            r.max_level == master_max_level,
            r.writers == writers,
    {
        Logger { max_level: master_max_level, writers }
    }

    /// Appends one sink to the end of the registry. Every pre-existing
    /// sink keeps its position and its content: nothing is dropped,
    /// duplicated or reordered.
    pub fn add_general_writer(&mut self, writer: Sink)
        ensures
            final(self).max_level == old(self).max_level,
            final(self).writers@ == old(self).writers@.push(writer),
            final(self).writers@.len() == old(self).writers@.len() + 1,
            forall|i: int|
                0 <= i < old(self).writers@.len() ==> final(self).writers@[i] == old(
                    self,
                ).writers@[i],
    {
        self.writers.push(writer);
    }

    /// Whether a record of the given severity passes the master ceiling:
    /// the cheap short-circuit consulted before anything is formatted.
    pub fn enabled(&self, level: Severity) -> (r: bool)
        ensures
            r == spec_admits(self.max_level, level),
    {
        admits(self.max_level, level)
    }

    /// Whether one sink's own ceiling admits a record of the given
    /// severity: the same comparison the master check uses.
    pub fn individual_enabled(&self, level: Severity, max_level: Severity) -> (r: bool)
        ensures
            r == spec_admits(max_level, level),
    {
        admits(max_level, level)
    }

    /// Dispatches one record: if the master ceiling suppresses it, the
    /// logger is left exactly as it was; otherwise the formatted line is
    /// appended to precisely the sinks whose own ceiling admits the
    /// record's severity, in registry order. Ceilings, sink count and the
    /// master ceiling never change.
    pub fn log(&mut self, level: Severity, message: &str)
        ensures
            final(self).max_level == old(self).max_level,
            final(self).writers@.len() == old(self).writers@.len(),
            forall|i: int|
                #![trigger final(self).writers@[i]]
                0 <= i < old(self).writers@.len() ==> final(self).writers@[i].ceiling == old(
                    self,
                ).writers@[i].ceiling && final(self).writers@[i].content@ == sink_dispatched(
                    old(self).writers@[i].content@,
                    old(self).writers@[i].ceiling,
                    old(self).max_level,
                    level,
                    message@,
                ),
            !spec_admits(old(self).max_level, level) ==> *final(self) == *old(self),
    {
        if !self.enabled(level) {
            return ;
        }
        let line = format_line(level, message);
        let mut idx: usize = 0;
        while idx < self.writers.len()
            invariant
                self.max_level == old(self).max_level,
                spec_admits(old(self).max_level, level),
                line@ == line_spec(level, message@),
                idx <= self.writers@.len(),
                self.writers@.len() == old(self).writers@.len(),
                forall|j: int|
                    #![trigger self.writers@[j]]
                    0 <= j < idx ==> self.writers@[j].ceiling == old(self).writers@[j].ceiling
                        && self.writers@[j].content@ == sink_dispatched(
                        old(self).writers@[j].content@,
                        old(self).writers@[j].ceiling,
                        old(self).max_level,
                        level,
                        message@,
                    ),
                forall|j: int|
                    #![trigger self.writers@[j]]
                    idx <= j < self.writers@.len() ==> self.writers@[j] == old(self).writers@[j],
            decreases self.writers@.len() - idx,
        {
            let ghost prev = self.writers@;
            let ceiling = self.writers[idx].ceiling;
            if admits(ceiling, level) {
                let sink = self.writers.remove(idx);
                let mut content = sink.content;
                content.append(line.as_str());
                self.writers.insert(idx, Sink { ceiling: sink.ceiling, content });
                proof {
                    assert(self.writers@ =~= prev.update(idx as int, self.writers@[idx as int]));
                }
            }
            idx = idx + 1;
        }
    }

    /// Flushing is permitted to do nothing: sinks are unbuffered, their
    /// content is already what dispatch appended.
    pub fn flush(&self) {
    }
}

/// Law: one dispatch changes a sink's content iff both the master ceiling
/// and the sink's own ceiling admit the record's severity — so a record
/// suppressed by the master ceiling touches zero sinks, and an admitted
/// record is written to exactly the sinks whose ceiling admits it. When a
/// sink is written, exactly the formatted line is appended.
pub proof fn lemma_dispatch_targets(
    content: Seq<char>,
    ceiling: Severity,
    master: Severity,
    level: Severity,
    message: Seq<char>,
)
    ensures
        spec_admits(master, level) && spec_admits(ceiling, level) ==> sink_dispatched(
            content,
            ceiling,
            master,
            level,
            message,
        ) == content + line_spec(level, message),
        !(spec_admits(master, level) && spec_admits(ceiling, level)) ==> sink_dispatched(
            content,
            ceiling,
            master,
            level,
            message,
        ) == content,
        sink_dispatched(content, ceiling, master, level, message) != content <==> (spec_admits(
            master,
            level,
        ) && spec_admits(ceiling, level)),
{
    lemma_line_shape(level, message);
    if spec_admits(master, level) && spec_admits(ceiling, level) {
        assert((content + line_spec(level, message)).len() == content.len() + 10 + message.len());
    }
}

} // verus!
