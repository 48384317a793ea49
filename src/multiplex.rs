//! The decisions of the process log multiplexer: the lines of a command's two
//! output streams become log lines in the order they arrive, and the exit
//! status decides the outcome once both streams are drained.

use vstd::prelude::*;

use crate::progress::Log;

verus! {

/// A command to spawn: program, arguments and working directory.
#[derive(Debug)]
pub struct CommandLine {
    pub program: String,
    pub args: Vec<String>,
    pub cwd: String,
}

/// `" a1 a2 ..."`: each argument preceded by a space.
pub open spec fn spaced(args: Seq<Seq<char>>) -> Seq<char>
    decreases args.len(),
{
    if args.len() == 0 {
        Seq::empty()
    } else {
        spaced(args.drop_last()) + " "@ + args.last()
    }
}

/// The diagnostic line shown before a command's output: `$ program args...`.
pub open spec fn rendered(program: Seq<char>, args: Seq<Seq<char>>) -> Seq<char> {
    "$ "@ + program + spaced(args)
}

impl CommandLine {
    /// The diagnostic line for this command.
    pub fn render(&self) -> (r: String)
        ensures
            r@ == rendered(self.program@, self.args@.map_values(|a: String| a@)),
    {
        let mut r = String::from_str("$ ").concat(self.program.as_str());
        let ghost args = self.args@.map_values(|a: String| a@);
        let mut i: usize = 0;
        while i < self.args.len()
            invariant
                i <= self.args.len(),
                args == self.args@.map_values(|a: String| a@),
                r@ == "$ "@ + self.program@ + spaced(args.subrange(0, i as int)),
            decreases self.args.len() - i,
        {
            proof {
                assert(args.subrange(0, i + 1).drop_last() =~= args.subrange(0, i as int));
            }
            r = r.concat(" ").concat(self.args[i].as_str());
            i = i + 1;
        }
        proof {
            assert(args.subrange(0, i as int) =~= args);
        }
        r
    }
}

/// What the readers of a running command report, in arrival order.
#[derive(Debug)]
pub enum Output {
    /// A complete line of standard output.
    Stdout(String),
    /// A complete line of standard error.
    Stderr(String),
    /// Standard output reached its end.
    StdoutClosed,
    /// Standard error reached its end.
    StderrClosed,
}

/// Which of a command's output streams are still open.
#[derive(Clone, Copy, Debug, PartialEq, Eq, Structural)]
pub struct Multiplexer {
    pub stdout_open: bool,
    pub stderr_open: bool,
}

/// The streams still open after an output.
pub open spec fn after_output(m: Multiplexer, o: Output) -> Multiplexer {
    match o {
        Output::StdoutClosed => Multiplexer { stdout_open: false, ..m },
        Output::StderrClosed => Multiplexer { stderr_open: false, ..m },
        _ => m,
    }
}

/// The log line an output yields: a line of an open stream, tagged by its stream.
pub open spec fn log_of_output(m: Multiplexer, o: Output) -> Option<Log> {
    match o {
        Output::Stdout(l) => if m.stdout_open { Some(Log::Info(l)) } else { None },
        Output::Stderr(l) => if m.stderr_open { Some(Log::Error(l)) } else { None },
        _ => None,
    }
}

impl Multiplexer {
    /// Both streams open, nothing read yet.
    pub fn new() -> (r: Multiplexer)
        ensures
            r.stdout_open && r.stderr_open,
    {
        Multiplexer { stdout_open: true, stderr_open: true }
    }

    /// Takes the next output, in arrival order, and returns the log line to emit, if any.
    pub fn on_output(&mut self, o: Output) -> (r: Option<Log>)
        ensures
            *final(self) == after_output(*old(self), o),
            r == log_of_output(*old(self), o),
    {
        match o {
            Output::Stdout(l) => if self.stdout_open { Some(Log::Info(l)) } else { None },
            Output::Stderr(l) => if self.stderr_open { Some(Log::Error(l)) } else { None },
            Output::StdoutClosed => {
                self.stdout_open = false;
                None
            },
            Output::StderrClosed => {
                self.stderr_open = false;
                None
            },
        }
    }

    /// Whether both streams have ended, so that the exit status may be awaited.
    pub fn drained(&self) -> (r: bool)
        ensures
            r == (!self.stdout_open && !self.stderr_open),
    {
        !self.stdout_open && !self.stderr_open
    }

    /// The outcome of the command once drained: success only on exit code 0;
    /// otherwise the exit code, absent when a signal ended the process.
    pub fn finish(&self, code: Option<i32>) -> (r: Result<(), Option<i32>>)
        requires
            !self.stdout_open && !self.stderr_open,
        ensures
            code == Some(0i32) ==> r is Ok,
            code != Some(0i32) ==> r == Err::<(), Option<i32>>(code),
    {
        match code {
            Some(0) => Ok(()),
            _ => Err(code),
        }
    }
}

/// The log lines emitted for a sequence of outputs, starting from `m`.
pub open spec fn emitted(m: Multiplexer, outs: Seq<Output>) -> Seq<Log>
    decreases outs.len(),
{
    if outs.len() == 0 {
        Seq::empty()
    } else {
        let rest = emitted(after_output(m, outs[0]), outs.drop_first());
        match log_of_output(m, outs[0]) {
            Some(l) => seq![l] + rest,
            None => rest,
        }
    }
}

/// The lines of a sequence of outputs, tagged by stream, in arrival order.
pub open spec fn lines_in_order(outs: Seq<Output>) -> Seq<Log>
    decreases outs.len(),
{
    if outs.len() == 0 {
        Seq::empty()
    } else {
        let rest = lines_in_order(outs.drop_first());
        match outs[0] {
            Output::Stdout(l) => seq![Log::Info(l)] + rest,
            Output::Stderr(l) => seq![Log::Error(l)] + rest,
            _ => rest,
        }
    }
}

/// Whether no line arrives on a stream after that stream ended, starting from `m`.
pub open spec fn arrives_in_order(m: Multiplexer, outs: Seq<Output>) -> bool
    decreases outs.len(),
{
    if outs.len() == 0 {
        true
    } else {
        let ok = match outs[0] {
            Output::Stdout(_) => m.stdout_open,
            Output::Stderr(_) => m.stderr_open,
            _ => true,
        };
        ok && arrives_in_order(after_output(m, outs[0]), outs.drop_first())
    }
}

/// Interleaving: the log lines are the lines of both streams in the order they
/// arrived, each tagged by its stream, not grouped stream by stream; the end of
/// one stream does not stop the other.
pub proof fn lemma_arrival_order(m: Multiplexer, outs: Seq<Output>)
    requires
        arrives_in_order(m, outs),
    ensures
        emitted(m, outs) == lines_in_order(outs),
    decreases outs.len(),
{
    if outs.len() > 0 {
        lemma_arrival_order(after_output(m, outs[0]), outs.drop_first());
    }
}

} // verus!
