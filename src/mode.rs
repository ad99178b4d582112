use vstd::prelude::*;

verus! {

/// How the config path is consumed during one generation.
#[derive(Clone, Copy, Debug, PartialEq, Eq, Structural)]
pub enum Mode {
    /// The path is run as a long-lived process that prints one message per line.
    Executable,
    /// The path is read and parsed as a single message.
    PlainFile,
}

/// The mode that an executable-bit reading selects.
pub open spec fn mode_for(executable: bool) -> Mode {
    if executable {
        Mode::Executable
    } else {
        Mode::PlainFile
    }
}

impl Mode {
    /// Selects the mode from the executable bit as read at the start of a
    /// generation. A permission check that failed is reported as `false` and
    /// therefore falls back to `PlainFile`, the static-load behaviour.
    pub fn select(executable: bool) -> (m: Mode)
        ensures
            m == mode_for(executable),
            m == Mode::Executable <==> executable,
    {
        if executable {
            Mode::Executable
        } else {
            Mode::PlainFile
        }
    }

    pub fn is_executable(&self) -> (r: bool)
        ensures
            r <==> *self == Mode::Executable,
    {
        match self {
            Mode::Executable => true,
            Mode::PlainFile => false,
        }
    }
}

} // verus!
