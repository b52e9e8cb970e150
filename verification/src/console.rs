//! The console transcript: an append-only, ordered log of the diagnostic
//! lines a script emits during one execution.
//!
//! Each line is recorded as `[<severity>] <message>`, in exactly the order
//! the script produced it; the transcript is never reordered, filtered or
//! deduplicated.
use vstd::prelude::*;

verus! {

/// Severity of one console line.
#[derive(Clone, Copy, PartialEq, Eq, Structural, Debug)]
pub enum Severity {
    Log,
    Info,
    Warn,
    Error,
    Debug,
}

/// The `[<severity>] ` prefix put before a message of the given severity.
pub open spec fn spec_severity_prefix(s: Severity) -> Seq<char> {
    match s {
        Severity::Log => "[log] "@,
        Severity::Info => "[info] "@,
        Severity::Warn => "[warn] "@,
        Severity::Error => "[error] "@,
        Severity::Debug => "[debug] "@,
    }
}

/// The tag prefix for one severity.
pub fn severity_prefix(s: Severity) -> (r: &'static str)
    ensures
        r@ == spec_severity_prefix(s),
{
    match s {
        Severity::Log => "[log] ",
        Severity::Info => "[info] ",
        Severity::Warn => "[warn] ",
        Severity::Error => "[error] ",
        Severity::Debug => "[debug] ",
    }
}

/// The transcript line recorded for `message` at severity `s`.
pub open spec fn spec_console_line(s: Severity, message: Seq<char>) -> Seq<char> {
    spec_severity_prefix(s) + message
}

/// The argument list of one console call, rendered per argument and glued
/// with single spaces, as one message.
pub open spec fn spec_join_spaces(parts: Seq<Seq<char>>) -> Seq<char>
    decreases parts.len(),
{
    if parts.len() == 0 {
        Seq::<char>::empty()
    } else if parts.len() == 1 {
        parts[0]
    } else {
        spec_join_spaces(parts.drop_last()) + " "@ + parts.last()
    }
}

/// Joins the rendered arguments of one console call with single spaces.
pub fn join_spaces(parts: &Vec<String>) -> (r: String)
    ensures
        r@ == spec_join_spaces(parts@.map_values(|p: String| p@)),
{
    let ghost views = parts@.map_values(|p: String| p@);
    let mut out = String::new();
    let mut i: usize = 0;
    while i < parts.len()
        invariant
            views == parts@.map_values(|p: String| p@),
            i <= parts@.len(),
            out@ == spec_join_spaces(views.take(i as int)),
        decreases parts@.len() - i,
    {
        if i > 0 {
            out.append(" ");
        }
        out.append(parts[i].as_str());
        proof {
            assert(views.take(i + 1).drop_last() =~= views.take(i as int));
            assert(views.take(i + 1).last() == views[i as int]);
        }
        i = i + 1;
    }
    proof {
        assert(views.take(parts@.len() as int) =~= views);
    }
    out
}

/// An ordered, append-only transcript of console lines.
pub struct Console {
    output: Vec<String>,
}

impl Console {
    /// The lines recorded so far, oldest first.
    pub closed spec fn transcript(&self) -> Seq<Seq<char>> {
        self.output@.map_values(|line: String| line@)
    }

    /// A fresh, empty transcript.
    pub fn new() -> (c: Console)
        ensures
            c.transcript() =~= Seq::<Seq<char>>::empty(),
    {
        Console { output: Vec::new() }
    }

    /// Appends `message` under the given severity tag. Nothing already
    /// recorded moves or changes.
    pub fn record(&mut self, severity: Severity, message: String)
        ensures
            final(self).transcript() =~= old(self).transcript().push(
                spec_console_line(severity, message@),
            ),
    {
        let mut line = String::from_str(severity_prefix(severity));
        line.append(message.as_str());
        self.output.push(line);
    }

    /// Appends `message` as an ordinary `[log] ` line.
    pub fn log(&mut self, message: String)
        ensures
            final(self).transcript() =~= old(self).transcript().push(
                spec_console_line(Severity::Log, message@),
            ),
    {
        self.record(Severity::Log, message)
    }

    /// How many lines have been recorded.
    pub fn len(&self) -> (r: usize)
        ensures
            r == self.transcript().len(),
    {
        self.output.len()
    }

    /// A snapshot of the transcript, oldest line first.
    pub fn get_output(&self) -> (r: Vec<String>)
        ensures
            r@.map_values(|line: String| line@) =~= self.transcript(),
    {
        let mut out: Vec<String> = Vec::new();
        let mut i: usize = 0;
        while i < self.output.len()
            invariant
                i <= self.output@.len(),
                out@.len() == i,
                forall|j: int| 0 <= j < i ==> out@[j]@ == #[trigger] self.output@[j]@,
            decreases self.output@.len() - i,
        {
            out.push(self.output[i].clone());
            i = i + 1;
        }
        out
    }
}

} // verus!
