//! Staging of multi-line interactive input into complete commands.

use vstd::prelude::*;
use vstd::string::*;

use crate::text::{
    chars_of, contains_whitespace, has_whitespace, lowercase_of, to_lowercase, trim, trim_spec,
};

verus! {

/// The abstract state of an accumulator: the lines received for the current
/// command, the run of blank lines that ends them, and the length of run
/// that completes a command.
pub ghost struct AccumulatorState {
    pub lines: Seq<Seq<char>>,
    pub blank_run: nat,
    pub threshold: nat,
}

/// What feeding one line produced.
pub ghost enum StepSpec {
    Pending,
    Reset,
    Staged(Seq<char>),
}

/// What feeding one line produced.
#[derive(Debug, PartialEq, Eq)]
pub enum Step {
    /// The command goes on: read another line.
    Pending,
    /// The command was discarded by the reset directive.
    Reset,
    /// A complete command, trimmed.
    Staged(String),
}

impl View for Step {
    type V = StepSpec;

    open spec fn view(&self) -> StepSpec {
        match self {
            Step::Pending => StepSpec::Pending,
            Step::Reset => StepSpec::Reset,
            Step::Staged(s) => StepSpec::Staged(s@),
        }
    }
}

/// The lines of a buffer, each followed by a line feed.
pub open spec fn joined(lines: Seq<Seq<char>>) -> Seq<char>
    decreases lines.len(),
{
    if lines.len() == 0 {
        Seq::empty()
    } else {
        joined(lines.drop_last()) + lines.last() + seq!['\n']
    }
}

/// A line that holds only whitespace.
pub open spec fn blank(line: Seq<char>) -> bool {
    trim_spec(line).len() == 0
}

/// The directive that discards the command being entered.
pub open spec fn is_reset_directive(line: Seq<char>) -> bool {
    trim_spec(line).len() > 0 && lowercase_of(trim_spec(line)) == "\\reset"@
}

/// Whether a line, just appended as line number `count`, completes the
/// command: a run of blank lines long enough, a first line that is a single
/// word, a line that ends with `;`, or a blank first line.
pub open spec fn completes(count: nat, blank_run: nat, threshold: nat, line: Seq<char>) -> bool {
    let t = trim_spec(line);
    ||| blank_run >= threshold
    ||| (count == 1 && !blank(line) && !has_whitespace(t))
    ||| (t.len() > 0 && t.last() == ';')
    ||| (count == 1 && blank(line))
}

/// The empty state for a given threshold.
pub open spec fn empty_state(threshold: nat) -> AccumulatorState {
    AccumulatorState { lines: Seq::empty(), blank_run: 0, threshold }
}

/// The state after a line is received, and what it produced.
pub open spec fn feed_spec(s: AccumulatorState, line: Seq<char>) -> (AccumulatorState, StepSpec) {
    if s.lines.len() > 0 && is_reset_directive(line) {
        (empty_state(s.threshold), StepSpec::Reset)
    } else {
        let lines = s.lines.push(line);
        let run: nat = if blank(line) {
            s.blank_run + 1
        } else {
            0
        };
        if completes(lines.len(), run, s.threshold, line) {
            (empty_state(s.threshold), StepSpec::Staged(trim_spec(joined(lines))))
        } else {
            (AccumulatorState { lines, blank_run: run, threshold: s.threshold }, StepSpec::Pending)
        }
    }
}

/// Collects the lines of one command typed at an interactive prompt and
/// decides when the command is complete.
pub struct InputAccumulator {
    lines: Vec<String>,
    blank_run: usize,
    threshold: usize,
}

impl View for InputAccumulator {
    type V = AccumulatorState;

    closed spec fn view(&self) -> AccumulatorState {
        AccumulatorState {
            lines: self.lines@.map_values(|l: String| l@),
            blank_run: self.blank_run as nat,
            threshold: self.threshold as nat,
        }
    }
}

impl InputAccumulator {
    /// The accumulator's invariant: a command in progress never holds a
    /// completed run of blank lines.
    pub open spec fn wf(&self) -> bool {
        &&& self@.threshold >= 1
        &&& self@.blank_run <= self@.lines.len()
        &&& self@.blank_run < self@.threshold
    }

    /// An empty accumulator that completes a command after `threshold`
    /// consecutive blank lines.
    pub fn new(threshold: usize) -> (r: Self)
        requires
            threshold >= 1,
        ensures
            r@ == empty_state(threshold as nat),
            r.wf(),
    {
        let r = InputAccumulator { lines: Vec::new(), blank_run: 0, threshold };
        assert(r@.lines =~= Seq::<Seq<char>>::empty());
        r
    }

    /// The number of lines of the command in progress.
    pub fn line_count(&self) -> (r: usize)
        ensures
            r == self@.lines.len(),
    {
        self.lines.len()
    }

    /// Discards the command in progress, as on an interrupt.
    pub fn clear(&mut self)
        requires
            old(self)@.threshold >= 1,
        ensures
            final(self)@ == empty_state(old(self)@.threshold),
            final(self).wf(),
    {
        self.lines = Vec::new();
        self.blank_run = 0;
        assert(self@.lines =~= Seq::<Seq<char>>::empty());
    }

    /// The lines so far, each followed by a line feed.
    fn buffer(&self) -> (r: String)
        ensures
            r@ == joined(self@.lines),
    {
        let mut buf = String::new();
        let mut i: usize = 0;
        while i < self.lines.len()
            invariant
                i <= self.lines@.len(),
                buf@ == joined(self@.lines.subrange(0, i as int)),
            decreases self.lines@.len() - i,
        {
            let ghost prefix = self@.lines.subrange(0, i as int + 1);
            assert(prefix.drop_last() =~= self@.lines.subrange(0, i as int));
            assert(prefix.last() == self.lines@[i as int]@);
            buf.append(self.lines[i].as_str());
            proof {
                reveal_strlit("\n");
            }
            buf.append("\n");
            assert(buf@ =~= joined(prefix));
            i = i + 1;
        }
        assert(self@.lines.subrange(0, self.lines@.len() as int) =~= self@.lines);
        buf
    }

    /// Receives one line (without its line terminator).
    ///
    /// After the first line, the directive `\reset` discards the command.
    /// Otherwise the line is added, and the command is staged when the run
    /// of blank lines reaches the threshold, when the first line is a single
    /// word or blank, or when the line ends with `;`. A staged command is
    /// the trimmed text of its lines, and the accumulator starts afresh.
    pub fn feed_line(&mut self, line: &str) -> (r: Step)
        requires
            old(self).wf(),
        ensures
            (final(self)@, r@) == feed_spec(old(self)@, line@),
            final(self).wf(),
    {
        let t = trim(line);
        let tc = chars_of(t);
        if self.lines.len() > 0 {
            let lower = to_lowercase(t);
            let lc = chars_of(lower.as_str());
            if lc.len() == 6 && lc[0] == '\\' && lc[1] == 'r' && lc[2] == 'e' && lc[3] == 's'
                && lc[4] == 'e' && lc[5] == 't' {
                proof {
                    reveal_strlit("\\reset");
                    assert(lc@ =~= "\\reset"@);
                }
                self.clear();
                return Step::Reset;
            }
            proof {
                reveal_strlit("\\reset");
                if lc@ == "\\reset"@ {
                    assert(lc@[0] == '\\' && lc@[5] == 't');
                }
            }
        }
        let ghost old_lines = self@.lines;
        self.lines.push(String::from_str(line));
        assert(self@.lines =~= old_lines.push(line@));
        let is_blank = tc.len() == 0;
        if is_blank {
            self.blank_run = self.blank_run + 1;
        } else {
            self.blank_run = 0;
        }
        let count = self.lines.len();
        let single_word = count == 1 && !is_blank && !contains_whitespace(&tc);
        let ends_statement = tc.len() > 0 && tc[tc.len() - 1] == ';';
        if self.blank_run >= self.threshold || single_word || ends_statement || (count == 1
            && is_blank) {
            let buf = self.buffer();
            let staged = String::from_str(trim(buf.as_str()));
            self.clear();
            Step::Staged(staged)
        } else {
            Step::Pending
        }
    }
}

/// The first line of a command, when it is a single word, is staged at
/// once, whatever the threshold.
pub proof fn lemma_single_word_stages(threshold: nat, line: Seq<char>)
    requires
        threshold >= 1,
        !blank(line),
        !has_whitespace(trim_spec(line)),
    ensures
        feed_spec(empty_state(threshold), line) == (
            empty_state(threshold),
            StepSpec::Staged(trim_spec(line + seq!['\n'])),
        ),
{
    let lines = Seq::<Seq<char>>::empty().push(line);
    assert(lines.drop_last() =~= Seq::<Seq<char>>::empty());
    assert(joined(Seq::<Seq<char>>::empty()) =~= Seq::<char>::empty());
    assert(lines.last() == line);
    assert(joined(lines) =~= line + seq!['\n']);
}

/// With a threshold of one, a blank line after a command in progress
/// stages the command.
pub proof fn lemma_blank_line_stages(s: AccumulatorState, line: Seq<char>)
    requires
        s.threshold == 1,
        s.lines.len() > 0,
        blank(line),
    ensures
        feed_spec(s, line) == (
            empty_state(1),
            StepSpec::Staged(trim_spec(joined(s.lines.push(line)))),
        ),
{
}

} // verus!
