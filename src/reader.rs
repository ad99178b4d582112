use vstd::prelude::*;

verus! {

/// What the runtime observed since the previous step of a line reader.
pub enum LineEvent<M> {
    /// The next line parsed as one message.
    Message(M),
    /// The next line did not parse as a message.
    Malformed,
    /// The line stream ended or failed: the process is gone.
    Closed,
    /// The output channel refused the last message: its receiver has gone away.
    SendFailed,
}

/// What the runtime must do after a step of a line reader.
pub enum ReaderAction<M> {
    /// Send this message to the output channel, then read the next line.
    Send(M),
    /// Report the malformed line, then read the next line.
    ReportMalformed,
    /// Report that the process output is closed; the generation's delivery ends.
    ReportClosed,
    /// Delivery has already ended: do nothing.
    Idle,
}

/// The abstract state of a line reader.
pub struct ReaderModel<M> {
    /// Delivery has ended; no further line is read.
    pub finished: bool,
    /// The messages handed to the output channel, in order.
    pub sent: Seq<M>,
    /// How many malformed lines were reported.
    pub malformed: nat,
}

pub open spec fn reader_start<M>() -> ReaderModel<M> {
    ReaderModel { finished: false, sent: Seq::empty(), malformed: 0 }
}

pub open spec fn reader_next<M>(s: ReaderModel<M>, e: LineEvent<M>) -> ReaderModel<M> {
    if s.finished {
        s
    } else {
        match e {
            LineEvent::Message(m) => ReaderModel {
                finished: false,
                sent: s.sent.push(m),
                malformed: s.malformed,
            },
            LineEvent::Malformed => ReaderModel {
                finished: false,
                sent: s.sent,
                malformed: s.malformed + 1,
            },
            _ => ReaderModel { finished: true, sent: s.sent, malformed: s.malformed },
        }
    }
}

pub open spec fn reader_action<M>(s: ReaderModel<M>, e: LineEvent<M>) -> ReaderAction<M> {
    if s.finished {
        ReaderAction::Idle
    } else {
        match e {
            LineEvent::Message(m) => ReaderAction::Send(m),
            LineEvent::Malformed => ReaderAction::ReportMalformed,
            _ => ReaderAction::ReportClosed,
        }
    }
}

/// The state reached from `s` after the events `evs`, in order.
pub open spec fn reader_run<M>(s: ReaderModel<M>, evs: Seq<LineEvent<M>>) -> ReaderModel<M>
    decreases evs.len(),
{
    if evs.len() == 0 {
        s
    } else {
        reader_next(reader_run(s, evs.drop_last()), evs.last())
    }
}

/// Every event is a line read from the process, parsed or not.
pub open spec fn all_lines<M>(evs: Seq<LineEvent<M>>) -> bool {
    forall|i: int| 0 <= i < evs.len() ==> (evs[i] is Message || evs[i] is Malformed)
}

/// The messages that the parsed lines carry, in order.
pub open spec fn messages_of<M>(evs: Seq<LineEvent<M>>) -> Seq<M>
    decreases evs.len(),
{
    if evs.len() == 0 {
        Seq::empty()
    } else {
        match evs.last() {
            LineEvent::Message(m) => messages_of(evs.drop_last()).push(m),
            _ => messages_of(evs.drop_last()),
        }
    }
}

/// How many lines failed to parse.
pub open spec fn malformed_count<M>(evs: Seq<LineEvent<M>>) -> nat
    decreases evs.len(),
{
    if evs.len() == 0 {
        0
    } else {
        match evs.last() {
            LineEvent::Malformed => malformed_count(evs.drop_last()) + 1,
            _ => malformed_count(evs.drop_last()),
        }
    }
}

/// Running two stretches of events one after the other is running their concatenation.
pub proof fn lemma_reader_run_append<M>(
    s: ReaderModel<M>,
    a: Seq<LineEvent<M>>,
    b: Seq<LineEvent<M>>,
)
    ensures
        reader_run(s, a + b) == reader_run(reader_run(s, a), b),
    decreases b.len(),
{
    if b.len() == 0 {
        assert(a + b =~= a);
    } else {
        lemma_reader_run_append(s, a, b.drop_last());
        assert((a + b).drop_last() =~= a + b.drop_last());
        assert((a + b).last() == b.last());
    }
}

/// Once delivery has ended, no event changes the reader: nothing more is sent.
pub proof fn lemma_finished_reader_is_silent<M>(s: ReaderModel<M>, evs: Seq<LineEvent<M>>)
    requires
        s.finished,
    ensures
        reader_run(s, evs) == s,
    decreases evs.len(),
{
    if evs.len() > 0 {
        lemma_finished_reader_is_silent(s, evs.drop_last());
    }
}

/// While lines arrive, every parsed line is sent in the order read and every
/// malformed line is counted once; delivery goes on.
pub proof fn lemma_reader_over_lines<M>(lines: Seq<LineEvent<M>>)
    requires
        all_lines(lines),
    ensures
        reader_run(reader_start(), lines) == (ReaderModel {
            finished: false,
            sent: messages_of(lines),
            malformed: malformed_count(lines),
        }),
    decreases lines.len(),
{
    if lines.len() > 0 {
        let prefix = lines.drop_last();
        assert(all_lines(prefix)) by {
            assert forall|i: int| 0 <= i < prefix.len() implies (prefix[i] is Message
                || prefix[i] is Malformed) by {
                assert(prefix[i] == lines[i]);
            }
        }
        lemma_reader_over_lines(prefix);
        assert(lines.last() == lines[lines.len() - 1]);
    }
}

/// A process that prints some lines and then exits delivers exactly the
/// messages of the lines that parse, in the order printed, reports each
/// malformed line once, ends delivery, and sends nothing more whatever is
/// observed afterwards.
pub proof fn lemma_stream_then_close<M>(lines: Seq<LineEvent<M>>, rest: Seq<LineEvent<M>>)
    requires
        all_lines(lines),
    ensures
        reader_action(reader_run(reader_start(), lines), LineEvent::<M>::Closed)
            == ReaderAction::<M>::ReportClosed,
        reader_run(reader_start(), lines + seq![LineEvent::Closed] + rest) == (ReaderModel {
            finished: true,
            sent: messages_of(lines),
            malformed: malformed_count(lines),
        }),
{
    let closed = seq![LineEvent::<M>::Closed];
    lemma_reader_over_lines(lines);
    lemma_reader_run_append(reader_start(), lines, closed);
    lemma_reader_run_append(reader_start(), lines + closed, rest);
    let after_close = reader_run(reader_start(), lines + closed);
    assert(closed.drop_last() =~= Seq::<LineEvent<M>>::empty());
    assert(reader_run(reader_run(reader_start(), lines), closed) == reader_next(
        reader_run(reader_run(reader_start(), lines), Seq::<LineEvent<M>>::empty()),
        LineEvent::<M>::Closed,
    ));
    lemma_finished_reader_is_silent(after_close, rest);
}

/// Turns the process's output into messages for one generation.
pub struct LineReader<M> {
    finished: bool,
    sent: Ghost<Seq<M>>,
    malformed: Ghost<nat>,
}

impl<M> View for LineReader<M> {
    type V = ReaderModel<M>;

    closed spec fn view(&self) -> ReaderModel<M> {
        ReaderModel { finished: self.finished, sent: self.sent@, malformed: self.malformed@ }
    }
}

impl<M> LineReader<M> {
    /// A reader for a process that has just been started.
    pub fn new() -> (r: Self)
        ensures
            r@ == reader_start::<M>(),
    {
        LineReader { finished: false, sent: Ghost(Seq::empty()), malformed: Ghost(0) }
    }

    /// Whether delivery has ended for this generation.
    pub fn is_finished(&self) -> (r: bool)
        ensures
            r == self@.finished,
    {
        self.finished
    }

    /// Takes one observation and says what to do next: a parsed line is sent,
    /// a malformed one is reported and skipped, and the end of the stream or a
    /// refused send ends delivery for good.
    pub fn step(&mut self, e: LineEvent<M>) -> (a: ReaderAction<M>)
        ensures
            final(self)@ == reader_next(old(self)@, e),
            a == reader_action(old(self)@, e),
    {
        if self.finished {
            return ReaderAction::Idle;
        }
        match e {
            LineEvent::Message(m) => {
                self.sent = Ghost(self.sent@.push(m));
                ReaderAction::Send(m)
            },
            LineEvent::Malformed => {
                self.malformed = Ghost(self.malformed@ + 1);
                ReaderAction::ReportMalformed
            },
            _ => {
                self.finished = true;
                ReaderAction::ReportClosed
            },
        }
    }
}

} // verus!
