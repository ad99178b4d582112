use vstd::prelude::*;

use crate::mode::{mode_for, Mode};

verus! {

/// Why a plain config file produced no message.
#[derive(Clone, Copy, Debug, PartialEq, Eq, Structural)]
pub enum LoadFailure {
    /// The file could not be read as text.
    Read,
    /// The text did not parse as one message.
    Parse,
}

/// What the runtime observed since the previous step of the orchestrator.
pub enum Event<M> {
    /// The orchestrator has been created and should begin its first generation.
    Started,
    /// The executable bit of the path was read; `false` also when reading it failed.
    ModeChecked(bool),
    /// The plain file was read and parsed, or failed to be.
    FileLoaded(Result<M, LoadFailure>),
    /// The watcher woke up once, having gathered this many change notifications.
    Changed(u64),
    /// The owning handle was dropped.
    Dropped,
}

/// What the runtime must do after a step of the orchestrator.
pub enum Action<M> {
    /// Arm the change watcher, then read the path's executable bit.
    ArmWatcher,
    /// Start the process at the path with a fresh line reader in the
    /// background, then wait for a change.
    SpawnReader,
    /// Read and parse the plain file.
    LoadFile,
    /// Send this message to the output channel, then wait for a change.
    Deliver(M),
    /// Report why the file gave no message, then wait for a change.
    ReportLoadFailure(LoadFailure),
    /// Report the reload, cancel the background reader if one runs, then
    /// re-arm the watcher and read the executable bit again.
    Reload { abort_reader: bool },
    /// Cancel the background reader if one runs and stop watching.
    Shutdown { abort_reader: bool },
    /// The event does not apply in this state: do nothing.
    Ignore,
}

/// Where the orchestrator stands within a generation.
#[derive(Clone, Copy, Debug, PartialEq, Eq, Structural)]
pub enum Phase {
    /// Created; no generation has begun.
    Idle,
    /// The watcher is armed; the mode is about to be selected.
    Armed,
    /// A plain file is being loaded.
    Loading,
    /// Delivery for the current generation is under way or done; waiting for a change.
    Waiting,
    /// The handle was dropped; nothing more happens.
    Stopped,
}

/// The abstract state of the orchestrator.
pub struct OrchestratorModel {
    pub phase: Phase,
    /// The mode of the current generation, once one has been selected.
    pub mode: Option<Mode>,
    /// A background line reader of the current generation may still run.
    pub reader_running: bool,
    /// How many generations have begun.
    pub generations: nat,
    /// How many reloads change notifications have caused.
    pub reloads: nat,
}

/// A background reader runs only while an executable generation is waiting
/// for a change.
pub open spec fn orchestrator_wf(s: OrchestratorModel) -> bool {
    s.reader_running ==> s.phase == Phase::Waiting && s.mode == Some(Mode::Executable)
}

pub open spec fn orchestrator_start() -> OrchestratorModel {
    OrchestratorModel {
        phase: Phase::Idle,
        mode: None,
        reader_running: false,
        generations: 0,
        reloads: 0,
    }
}

pub open spec fn orchestrator_next<M>(s: OrchestratorModel, e: Event<M>) -> OrchestratorModel {
    match e {
        Event::Dropped => if s.phase == Phase::Stopped {
            s
        } else {
            OrchestratorModel { phase: Phase::Stopped, reader_running: false, ..s }
        },
        Event::Started => if s.phase == Phase::Idle {
            OrchestratorModel { phase: Phase::Armed, ..s }
        } else {
            s
        },
        Event::ModeChecked(executable) => if s.phase == Phase::Armed {
            OrchestratorModel {
                phase: if executable {
                    Phase::Waiting
                } else {
                    Phase::Loading
                },
                mode: Some(mode_for(executable)),
                reader_running: executable,
                generations: s.generations + 1,
                reloads: s.reloads,
            }
        } else {
            s
        },
        Event::FileLoaded(_) => if s.phase == Phase::Loading {
            OrchestratorModel { phase: Phase::Waiting, ..s }
        } else {
            s
        },
        Event::Changed(_) => if s.phase == Phase::Waiting {
            OrchestratorModel {
                phase: Phase::Armed,
                reader_running: false,
                reloads: s.reloads + 1,
                ..s
            }
        } else {
            s
        },
    }
}

pub open spec fn orchestrator_action<M>(s: OrchestratorModel, e: Event<M>) -> Action<M> {
    match e {
        Event::Dropped => if s.phase == Phase::Stopped {
            Action::Ignore
        } else {
            Action::Shutdown { abort_reader: s.reader_running }
        },
        Event::Started => if s.phase == Phase::Idle {
            Action::ArmWatcher
        } else {
            Action::Ignore
        },
        Event::ModeChecked(executable) => if s.phase == Phase::Armed {
            if executable {
                Action::SpawnReader
            } else {
                Action::LoadFile
            }
        } else {
            Action::Ignore
        },
        Event::FileLoaded(r) => if s.phase == Phase::Loading {
            match r {
                Ok(m) => Action::Deliver(m),
                Err(f) => Action::ReportLoadFailure(f),
            }
        } else {
            Action::Ignore
        },
        Event::Changed(_) => if s.phase == Phase::Waiting {
            Action::Reload { abort_reader: s.reader_running }
        } else {
            Action::Ignore
        },
    }
}

/// The state reached from `s` after the events `evs`, in order.
pub open spec fn orchestrator_run<M>(s: OrchestratorModel, evs: Seq<Event<M>>) -> OrchestratorModel
    decreases evs.len(),
{
    if evs.len() == 0 {
        s
    } else {
        orchestrator_next(orchestrator_run(s, evs.drop_last()), evs.last())
    }
}

/// One change notification per element of `ns`, in order.
pub open spec fn changes<M>(ns: Seq<u64>) -> Seq<Event<M>> {
    ns.map_values(|n: u64| Event::<M>::Changed(n))
}

/// Every event keeps the invariant: a background reader never outlives the
/// executable generation that started it.
pub proof fn lemma_next_keeps_wf<M>(s: OrchestratorModel, e: Event<M>)
    requires
        orchestrator_wf(s),
    ensures
        orchestrator_wf(orchestrator_next(s, e)),
{
}

/// A plain file begins a generation that loads it once: a file that parses
/// gives exactly its message to deliver, and one that does not gives no
/// message but one report of the failure. No background reader is left
/// running, and the orchestrator then waits for a change.
pub proof fn lemma_static_generation<M>(s: OrchestratorModel, r: Result<M, LoadFailure>)
    requires
        s.phase == Phase::Armed,
    ensures
        ({
            let t = orchestrator_next(s, Event::<M>::ModeChecked(false));
            let u = orchestrator_next(t, Event::FileLoaded(r));
            &&& orchestrator_action(s, Event::<M>::ModeChecked(false)) == Action::<M>::LoadFile
            &&& t.mode == Some(Mode::PlainFile)
            &&& t.generations == s.generations + 1
            &&& orchestrator_action(t, Event::FileLoaded(r)) == match r {
                Ok(m) => Action::Deliver(m),
                Err(f) => Action::<M>::ReportLoadFailure(f),
            }
            &&& u.phase == Phase::Waiting
            &&& !u.reader_running
            &&& u.generations == s.generations + 1
        }),
{
}

/// A change notification begins exactly one new generation, whatever the
/// file now holds: the reader of the previous generation is cancelled if it
/// runs, the mode is selected again from the executable bit as it now is,
/// and the generation count grows by one.
pub proof fn lemma_reload_begins_one_generation<M>(
    s: OrchestratorModel,
    n: u64,
    executable: bool,
)
    requires
        s.phase == Phase::Waiting,
    ensures
        ({
            let t = orchestrator_next(s, Event::<M>::Changed(n));
            let u = orchestrator_next(t, Event::<M>::ModeChecked(executable));
            &&& orchestrator_action(s, Event::<M>::Changed(n)) == Action::<M>::Reload {
                abort_reader: s.reader_running,
            }
            &&& !t.reader_running
            &&& t.reloads == s.reloads + 1
            &&& u.generations == s.generations + 1
            &&& u.reloads == s.reloads + 1
            &&& u.mode == Some(mode_for(executable))
            &&& u.reader_running == executable
        }),
{
}

/// Once stopped, the orchestrator ignores every event: it begins no
/// generation, spawns nothing and delivers nothing.
pub proof fn lemma_stopped_is_silent<M>(s: OrchestratorModel, evs: Seq<Event<M>>)
    requires
        s.phase == Phase::Stopped,
    ensures
        orchestrator_run(s, evs) == s,
        forall|i: int|
            0 <= i < evs.len() ==> orchestrator_action(
                orchestrator_run(s, #[trigger] evs.take(i)),
                evs[i],
            ) == Action::<M>::Ignore,
    decreases evs.len(),
{
    if evs.len() > 0 {
        lemma_stopped_is_silent(s, evs.drop_last());
        assert forall|i: int| 0 <= i < evs.len() implies orchestrator_action(
            orchestrator_run(s, #[trigger] evs.take(i)),
            evs[i],
        ) == Action::<M>::Ignore by {
            lemma_stopped_is_silent(s, evs.take(i));
        }
    }
}

/// Dropping the handle, in any state, cancels the background reader exactly
/// when one runs, leaves none running, and from then on no event leads to a
/// spawn or a delivery.
pub proof fn lemma_drop_stops_everything<M>(s: OrchestratorModel, evs: Seq<Event<M>>)
    requires
        orchestrator_wf(s),
    ensures
        ({
            let t = orchestrator_next(s, Event::<M>::Dropped);
            &&& s.phase != Phase::Stopped ==> orchestrator_action(s, Event::<M>::Dropped)
                == Action::<M>::Shutdown { abort_reader: s.reader_running }
            &&& t.phase == Phase::Stopped
            &&& !t.reader_running
            &&& orchestrator_run(t, evs) == t
            &&& forall|i: int|
                0 <= i < evs.len() ==> orchestrator_action(
                    orchestrator_run(t, #[trigger] evs.take(i)),
                    evs[i],
                ) == Action::<M>::Ignore
        }),
{
    let t = orchestrator_next(s, Event::<M>::Dropped);
    lemma_stopped_is_silent(t, evs);
}

/// A burst of change notifications arriving while the orchestrator waits,
/// however many and however they are grouped into wakeups, causes exactly
/// one reload; the generation begun after it is exactly one new generation.
pub proof fn lemma_burst_is_one_reload<M>(s: OrchestratorModel, ns: Seq<u64>, executable: bool)
    requires
        s.phase == Phase::Waiting,
        ns.len() >= 1,
    ensures
        ({
            let t = orchestrator_run(s, changes::<M>(ns));
            let u = orchestrator_next(t, Event::<M>::ModeChecked(executable));
            &&& t.phase == Phase::Armed
            &&& t.reloads == s.reloads + 1
            &&& t.generations == s.generations
            &&& !t.reader_running
            &&& u.generations == s.generations + 1
        }),
    decreases ns.len(),
{
    let evs = changes::<M>(ns);
    assert(evs.drop_last() =~= changes::<M>(ns.drop_last()));
    if ns.len() == 1 {
        assert(evs.drop_last() =~= Seq::<Event<M>>::empty());
    } else {
        lemma_burst_is_one_reload::<M>(s, ns.drop_last(), executable);
    }
}

/// Owns the reload decisions for one config path: begins a generation at
/// start and after every change, and tears the current one down on a change
/// or when the handle is dropped.
pub struct Orchestrator {
    phase: Phase,
    mode: Option<Mode>,
    reader_running: bool,
    generations: Ghost<nat>,
    reloads: Ghost<nat>,
}

impl View for Orchestrator {
    type V = OrchestratorModel;

    closed spec fn view(&self) -> OrchestratorModel {
        OrchestratorModel {
            phase: self.phase,
            mode: self.mode,
            reader_running: self.reader_running,
            generations: self.generations@,
            reloads: self.reloads@,
        }
    }
}

impl Orchestrator {
    /// An orchestrator that has begun no generation yet.
    pub fn new() -> (r: Self)
        ensures
            r@ == orchestrator_start(),
            orchestrator_wf(r@),
    {
        Orchestrator {
            phase: Phase::Idle,
            mode: None,
            reader_running: false,
            generations: Ghost(0),
            reloads: Ghost(0),
        }
    }

    pub fn phase(&self) -> (r: Phase)
        ensures
            r == self@.phase,
    {
        self.phase
    }

    pub fn mode(&self) -> (r: Option<Mode>)
        ensures
            r == self@.mode,
    {
        self.mode
    }

    pub fn reader_running(&self) -> (r: bool)
        ensures
            r == self@.reader_running,
    {
        self.reader_running
    }

    /// Begins a generation once the watcher is armed: selects the mode from
    /// the executable bit and says how delivery starts.
    fn begin_generation<M>(&mut self, executable: bool) -> (a: Action<M>)
        requires
            old(self)@.phase == Phase::Armed,
        ensures
            final(self)@ == orchestrator_next(old(self)@, Event::<M>::ModeChecked(executable)),
            a == orchestrator_action(old(self)@, Event::<M>::ModeChecked(executable)),
    {
        let mode = Mode::select(executable);
        self.mode = Some(mode);
        self.generations = Ghost(self.generations@ + 1);
        if mode.is_executable() {
            self.reader_running = true;
            self.phase = Phase::Waiting;
            Action::SpawnReader
        } else {
            self.reader_running = false;
            self.phase = Phase::Loading;
            Action::LoadFile
        }
    }

    /// Takes one observation and says what to do next.
    pub fn step<M>(&mut self, e: Event<M>) -> (a: Action<M>)
        requires
            orchestrator_wf(old(self)@),
        ensures
            orchestrator_wf(final(self)@),
            final(self)@ == orchestrator_next(old(self)@, e),
            a == orchestrator_action(old(self)@, e),
    {
        if let Event::Dropped = e {
            if self.phase == Phase::Stopped {
                return Action::Ignore;
            }
            let abort_reader = self.reader_running;
            self.phase = Phase::Stopped;
            self.reader_running = false;
            return Action::Shutdown { abort_reader };
        }
        match self.phase {
            Phase::Idle => match e {
                Event::Started => {
                    self.phase = Phase::Armed;
                    Action::ArmWatcher
                },
                _ => Action::Ignore,
            },
            Phase::Armed => match e {
                Event::ModeChecked(executable) => self.begin_generation(executable),
                _ => Action::Ignore,
            },
            Phase::Loading => match e {
                Event::FileLoaded(r) => {
                    self.phase = Phase::Waiting;
                    match r {
                        Ok(m) => Action::Deliver(m),
                        Err(f) => Action::ReportLoadFailure(f),
                    }
                },
                _ => Action::Ignore,
            },
            Phase::Waiting => match e {
                Event::Changed(_) => {
                    let abort_reader = self.reader_running;
                    self.phase = Phase::Armed;
                    self.reader_running = false;
                    self.reloads = Ghost(self.reloads@ + 1);
                    Action::Reload { abort_reader }
                },
                _ => Action::Ignore,
            },
            Phase::Stopped => Action::Ignore,
        }
    }
}

} // verus!
