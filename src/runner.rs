use vstd::prelude::*;

use crate::message::{message_shape, parse_message, parsed_line, parses_as_message, RawMessage};
use crate::options::strings_view;

verus! {

/// Why a run of cargo counts as failed.
#[derive(Debug)]
pub struct CargoError(pub String);

impl CargoError {
    /// The text shown to a user.
    pub fn describe(&self) -> (r: String)
        ensures
            r@ == "Cargo failed: "@ + self.0@,
    {
        String::from_str("Cargo failed: ").concat(self.0.as_str())
    }
}

/// How waiting for the child process ended.
#[derive(Debug)]
pub enum ExitOutcome {
    /// The process exited; `status` is its exit status as text.
    Exited { success: bool, status: String },
    /// Waiting for the process failed.
    WaitFailed { error: String },
}

/// A line as read: `None` when reading it failed.
pub open spec fn line_view(line: Option<String>) -> Option<Seq<char>> {
    match line {
        Some(s) => Some(s@),
        None => None,
    }
}

/// Whether a read line is a message that goes on to the sink.
pub open spec fn line_accepted(line: Option<Seq<char>>) -> bool {
    match line {
        Some(s) => parses_as_message(s),
        None => false,
    }
}

/// The parts joined by single spaces.
pub open spec fn joined(parts: Seq<Seq<char>>) -> Seq<char>
    decreases parts.len(),
{
    if parts.len() == 0 {
        Seq::empty()
    } else if parts.len() == 1 {
        parts[0]
    } else {
        joined(parts.drop_last()) + " "@ + parts.last()
    }
}

/// The failure reported when the process failed and no message was read.
pub open spec fn no_metadata_text(status: Seq<char>, args: Seq<Seq<char>>) -> Seq<char> {
    "the command produced no valid metadata (exit code: "@ + status + "): cargo "@ + joined(args)
}

/// The failure reported when waiting for the process failed.
pub open spec fn io_error_text(error: Seq<char>) -> Seq<char> {
    "io error: "@ + error
}

/// The verdict on a finished run: success when the process succeeded or at
/// least one message was read before it failed.
pub open spec fn verdict(read_any: bool, exit: ExitOutcome, args: Seq<Seq<char>>) -> Result<
    (),
    Seq<char>,
> {
    match exit {
        ExitOutcome::Exited { success, status } => if !success && !read_any {
            Err(no_metadata_text(status@, args))
        } else {
            Ok(())
        },
        ExitOutcome::WaitFailed { error } => Err(io_error_text(error@)),
    }
}

/// Whether `needle` occurs in `hay` as a contiguous part.
pub open spec fn occurs_in(needle: Seq<char>, hay: Seq<char>) -> bool {
    exists|k: int|
        0 <= k && k + needle.len() <= hay.len() && #[trigger] hay.subrange(k, k + needle.len())
            == needle
}

/// The indices of the lines that a scan hands on, lines being fed in order.
pub open spec fn handed_on(lines: Seq<Option<Seq<char>>>) -> Seq<int>
    decreases lines.len(),
{
    if lines.len() == 0 {
        Seq::empty()
    } else {
        let prev = handed_on(lines.drop_last());
        if line_accepted(lines.last()) {
            prev.push(lines.len() - 1)
        } else {
            prev
        }
    }
}

/// What the lines that a scan hands on parse to, in order: the lines that
/// parse, each mapped to its parse, the others left out.
pub open spec fn parses_handed_on(lines: Seq<Option<Seq<char>>>) -> Seq<(int, bool, Seq<char>)>
    decreases lines.len(),
{
    if lines.len() == 0 {
        Seq::empty()
    } else {
        let prev = parses_handed_on(lines.drop_last());
        match lines.last() {
            Some(s) => match parsed_line(s) {
                Some(shape) => prev.push(shape),
                None => prev,
            },
            None => prev,
        }
    }
}

/// The state of a scan over the output lines of one run; `lines` records the
/// lines fed so far, `handed` the shapes of the messages handed on.
pub struct LineScan {
    pub read_at_least_one_message: bool,
    pub lines: Ghost<Seq<Option<Seq<char>>>>,
    pub handed: Ghost<Seq<(int, bool, Seq<char>)>>,
}

impl LineScan {
    /// The flag says whether any line fed so far was handed on, and the
    /// messages handed on are the parses of the lines that parse, in order.
    pub open spec fn wf(&self) -> bool {
        &&& self.read_at_least_one_message == (handed_on(self.lines@).len() > 0)
        &&& self.handed@ == parses_handed_on(self.lines@)
    }

    pub fn new() -> (r: LineScan)
        ensures
            r.wf(),
            !r.read_at_least_one_message,
            r.lines@ == Seq::<Option<Seq<char>>>::empty(),
            r.handed@ == Seq::<(int, bool, Seq<char>)>::empty(),
    {
        LineScan {
            read_at_least_one_message: false,
            lines: Ghost(Seq::empty()),
            handed: Ghost(Seq::empty()),
        }
    }

    /// Takes one line (`None` when it could not be read) and returns the
    /// message to hand to the sink; a line that does not parse is skipped.
    pub fn on_line(&mut self, line: Option<String>) -> (r: Option<RawMessage>)
        requires
            old(self).wf(),
        ensures
            final(self).wf(),
            final(self).lines@ == old(self).lines@.push(line_view(line)),
            r.is_some() == line_accepted(line_view(line)),
            match r {
                Some(m) => parsed_line(line_view(line)->Some_0) == Some(message_shape(m))
                    && final(self).handed@ == old(self).handed@.push(message_shape(m)),
                None => final(self).handed@ == old(self).handed@,
            },
            final(self).read_at_least_one_message == (old(self).read_at_least_one_message
                || r.is_some()),
    {
        let ghost prev = self.lines@;
        let ghost seen = prev.push(line_view(line));
        assert(seen.drop_last() =~= prev);
        self.lines = Ghost(seen);
        match line {
            None => None,
            Some(text) => {
                let m = parse_message(text.as_str());
                if m.is_some() {
                    self.read_at_least_one_message = true;
                    let ghost h = self.handed@.push(message_shape(m->Some_0));
                    self.handed = Ghost(h);
                }
                m
            },
        }
    }

    /// The result of the run once the process has been waited for.
    pub fn finish(&self, exit: &ExitOutcome, args: &Vec<String>) -> (r: Result<(), CargoError>)
        ensures
            match (r, verdict(self.read_at_least_one_message, *exit, strings_view(args@))) {
                (Ok(_), Ok(_)) => true,
                (Err(e), Err(t)) => e.0@ == t,
                _ => false,
            },
    {
        match exit {
            ExitOutcome::Exited { success, status } => {
                if !*success && !self.read_at_least_one_message {
                    let text = String::from_str("the command produced no valid metadata (exit code: ")
                        .concat(status.as_str()).concat("): cargo ").concat(
                        join_args(args).as_str(),
                    );
                    Err(CargoError(text))
                } else {
                    Ok(())
                }
            },
            ExitOutcome::WaitFailed { error } => {
                Err(CargoError(String::from_str("io error: ").concat(error.as_str())))
            },
        }
    }
}

/// The arguments joined by single spaces.
fn join_args(args: &Vec<String>) -> (r: String)
    ensures
        r@ == joined(strings_view(args@)),
{
    let ghost parts = strings_view(args@);
    let mut acc = String::new();
    let mut i: usize = 0;
    while i < args.len()
        invariant
            i <= args@.len(),
            parts == strings_view(args@),
            acc@ == joined(parts.take(i as int)),
        decreases args@.len() - i,
    {
        let ghost before = acc@;
        if i > 0 {
            acc.append(" ");
        }
        acc.append(args[i].as_str());
        proof {
            let t = parts.take(i + 1);
            assert(t.drop_last() =~= parts.take(i as int));
            if i == 0 {
                assert(before =~= Seq::<char>::empty());
                assert(acc@ =~= t[0]);
            }
        }
        i = i + 1;
    }
    assert(parts.take(i as int) =~= parts);
    acc
}

/// Every index that a scan hands on is the index of one of its lines.
proof fn lemma_handed_on_bounded(lines: Seq<Option<Seq<char>>>)
    ensures
        forall|i: int|
            0 <= i < handed_on(lines).len() ==> 0 <= #[trigger] handed_on(lines)[i] < lines.len(),
    decreases lines.len(),
{
    if lines.len() > 0 {
        let prev = lines.drop_last();
        lemma_handed_on_bounded(prev);
        let h = handed_on(lines);
        assert forall|i: int| 0 <= i < h.len() implies 0 <= #[trigger] h[i] < lines.len() by {
            if i < handed_on(prev).len() {
                assert(h[i] == handed_on(prev)[i]);
            }
        }
    }
}

/// A line that cannot be read or parsed is skipped and the scan goes on: a line
/// is handed on exactly when it parses, whatever lines came before it.
pub proof fn lemma_unparsable_lines_skipped(lines: Seq<Option<Seq<char>>>, j: int)
    requires
        0 <= j < lines.len(),
    ensures
        handed_on(lines).contains(j) <==> line_accepted(lines[j]),
    decreases lines.len(),
{
    let prev = lines.drop_last();
    lemma_handed_on_bounded(prev);
    if j == lines.len() - 1 {
        if line_accepted(lines[j]) {
            assert(handed_on(lines).last() == j);
        } else {
            assert(!handed_on(prev).contains(j));
        }
    } else {
        lemma_unparsable_lines_skipped(prev, j);
        assert(prev[j] == lines[j]);
        if line_accepted(lines.last()) {
            let h = handed_on(prev).push(lines.len() - 1);
            if handed_on(prev).contains(j) {
                let k = choose|k: int| 0 <= k < handed_on(prev).len() && handed_on(prev)[k] == j;
                assert(h[k] == j);
            }
            if h.contains(j) {
                let k = choose|k: int| 0 <= k < h.len() && h[k] == j;
                assert(k < handed_on(prev).len());
                assert(handed_on(prev)[k] == j);
            }
        }
    }
}

/// The messages a scan hands on are, in order, the parses of exactly those
/// lines that were read and parse: the `k`-th message handed on is what the
/// `k`-th such line parses to.
pub proof fn lemma_handed_on_in_order(lines: Seq<Option<Seq<char>>>)
    ensures
        parses_handed_on(lines).len() == handed_on(lines).len(),
        forall|k: int|
            0 <= k < handed_on(lines).len() ==> {
                let i = #[trigger] handed_on(lines)[k];
                &&& 0 <= i < lines.len()
                &&& line_accepted(lines[i])
                &&& Some(parses_handed_on(lines)[k]) == parsed_line(lines[i]->Some_0)
            },
    decreases lines.len(),
{
    if lines.len() > 0 {
        let prev = lines.drop_last();
        lemma_handed_on_in_order(prev);
        lemma_handed_on_bounded(prev);
        assert forall|k: int| 0 <= k < handed_on(lines).len() implies {
            let i = #[trigger] handed_on(lines)[k];
            &&& 0 <= i < lines.len()
            &&& line_accepted(lines[i])
            &&& Some(parses_handed_on(lines)[k]) == parsed_line(lines[i]->Some_0)
        } by {
            if k < handed_on(prev).len() {
                let i = handed_on(prev)[k];
                assert(handed_on(lines)[k] == i);
                assert(parses_handed_on(lines)[k] == parses_handed_on(prev)[k]);
                assert(lines[i] == prev[i]);
            }
        }
    }
}

/// A process that exits unsuccessfully after at least one message was read
/// counts as a success; with no message read the failure names the exit status
/// and the invoked arguments.
pub proof fn lemma_failed_exit_verdict(status: String, args: Seq<Seq<char>>)
    ensures
        verdict(true, ExitOutcome::Exited { success: false, status }, args) == Ok::<
            (),
            Seq<char>,
        >(()),
        verdict(false, ExitOutcome::Exited { success: false, status }, args) == Err::<
            (),
            Seq<char>,
        >(no_metadata_text(status@, args)),
        occurs_in(status@, no_metadata_text(status@, args)),
        occurs_in(joined(args), no_metadata_text(status@, args)),
{
    let text = no_metadata_text(status@, args);
    let p = "the command produced no valid metadata (exit code: "@;
    let q = "): cargo "@;
    let k1 = p.len() as int;
    assert(text.subrange(k1, k1 + status@.len()) =~= status@);
    let k2 = (p.len() + status@.len() + q.len()) as int;
    assert(text.subrange(k2, k2 + joined(args).len()) =~= joined(args));
}

} // verus!
