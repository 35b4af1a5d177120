//! Command arguments and the configuration that supplies default durations.
use vstd::prelude::*;

use crate::model::SessionKind;

verus! {

broadcast use vstd::string::group_string_axioms;

/// Default focus length in seconds (25 minutes).
pub const DEFAULT_FOCUS_SECS: u64 = 1500;

/// Default break length in seconds (5 minutes).
pub const DEFAULT_BREAK_SECS: u64 = 300;

/// Default session lengths; durations are whole seconds.
#[derive(Clone, Copy, Debug, PartialEq, Eq, Structural)]
pub struct ProgramConfig {
    /// Length of a focus session in seconds.
    pub focus_duration: u64,
    /// Length of a break session in seconds.
    pub break_duration: u64,
}

impl Default for ProgramConfig {
    /// 25-minute focus sessions and 5-minute breaks.
    fn default() -> (r: ProgramConfig)
        ensures
            r.focus_duration == DEFAULT_FOCUS_SECS,
            r.break_duration == DEFAULT_BREAK_SECS,
    {
        ProgramConfig { focus_duration: DEFAULT_FOCUS_SECS, break_duration: DEFAULT_BREAK_SECS }
    }
}

impl ProgramConfig {
    /// The configured length of a session started in `mode`.
    pub open spec fn duration_for(self, mode: StartMode) -> u64 {
        match mode {
            StartMode::Focus => self.focus_duration,
            StartMode::Break => self.break_duration,
        }
    }
}

/// The kind of session that `start` begins.
#[derive(Clone, Copy, Debug, PartialEq, Eq, Structural)]
pub enum StartMode {
    /// A focus session: the default.
    Focus,
    /// A break.
    Break,
}

impl StartMode {
    /// The session kind that this mode starts.
    pub open spec fn spec_kind(self) -> SessionKind {
        match self {
            StartMode::Focus => SessionKind::Focus,
            StartMode::Break => SessionKind::Break,
        }
    }

    /// The session kind that this mode starts.
    pub fn kind(&self) -> (r: SessionKind)
        ensures
            r == self.spec_kind(),
    {
        match self {
            StartMode::Focus => SessionKind::Focus,
            StartMode::Break => SessionKind::Break,
        }
    }

    /// The mode's name as written on the command line.
    pub fn to_string(&self) -> (r: String)
        ensures
            r@ == self.spec_kind().name(),
    {
        self.kind().to_string()
    }
}

impl Default for StartMode {
    /// Focus.
    fn default() -> (r: StartMode)
        ensures
            r == StartMode::Focus,
    {
        StartMode::Focus
    }
}

/// Arguments of `start`.
#[derive(Clone, Copy, Debug, PartialEq, Eq, Structural)]
pub struct StartCommandArgs {
    /// The kind of session to start.
    pub mode: StartMode,
    /// The planned length in seconds; the configured default when absent.
    pub duration: Option<u64>,
}

impl Default for StartCommandArgs {
    /// A focus session of the default length.
    fn default() -> (r: StartCommandArgs)
        ensures
            r.mode == StartMode::Focus,
            r.duration == None::<u64>,
    {
        StartCommandArgs { mode: StartMode::Focus, duration: None }
    }
}

/// Seconds as a non-negative `i64`, saturating at `i64::MAX`.
pub open spec fn secs_i64(d: u64) -> i64 {
    if d <= i64::MAX as u64 {
        d as i64
    } else {
        i64::MAX
    }
}

impl StartCommandArgs {
    /// Fill in `duration` from `config` when none was given: the focus length
    /// for focus sessions, the break length for breaks.
    pub fn with_config(self, config: &ProgramConfig) -> (r: StartCommandArgs)
        ensures
            r.mode == self.mode,
            r.duration == Some(
                match self.duration {
                    Some(d) => d,
                    None => config.duration_for(self.mode),
                },
            ),
    {
        let mut out = self;
        if out.duration.is_none() {
            out.duration = Some(
                match out.mode {
                    StartMode::Focus => config.focus_duration,
                    StartMode::Break => config.break_duration,
                },
            );
        }
        out
    }

    /// The planned length of the session these arguments start: the given
    /// duration, else the built-in default for the mode.
    pub open spec fn spec_planned_secs(self) -> i64 {
        secs_i64(
            match self.duration {
                Some(d) => d,
                None => ProgramConfig::default_spec().duration_for(self.mode),
            },
        )
    }

    /// The planned length of the session these arguments start: the given
    /// duration, else the built-in default for the mode.
    pub fn planned_secs(&self) -> (r: i64)
        ensures
            r == self.spec_planned_secs(),
            r >= 0,
    {
        let d = match self.duration {
            Some(d) => d,
            None => match self.mode {
                StartMode::Focus => DEFAULT_FOCUS_SECS,
                StartMode::Break => DEFAULT_BREAK_SECS,
            },
        };
        if d <= i64::MAX as u64 {
            d as i64
        } else {
            i64::MAX
        }
    }
}

impl ProgramConfig {
    /// The built-in configuration.
    pub open spec fn default_spec() -> ProgramConfig {
        ProgramConfig { focus_duration: DEFAULT_FOCUS_SECS, break_duration: DEFAULT_BREAK_SECS }
    }
}

/// Arguments of `stop`.
#[derive(Clone, Copy, Debug, PartialEq, Eq, Structural)]
pub struct StopCommandArgs {
    /// Abort the session instead of pausing it.
    pub reset: bool,
}

impl Default for StopCommandArgs {
    /// Pause rather than abort.
    fn default() -> (r: StopCommandArgs)
        ensures
            !r.reset,
    {
        StopCommandArgs { reset: false }
    }
}

/// How `status` presents its result.
#[derive(Clone, Copy, Debug, PartialEq, Eq, Structural)]
pub enum StatusOutput {
    /// A line of text from a template: the default.
    Text,
    /// Pretty-printed JSON.
    Json,
}

impl StatusOutput {
    /// The format's name as written on the command line.
    pub open spec fn name(self) -> Seq<char> {
        match self {
            StatusOutput::Text => "text"@,
            StatusOutput::Json => "json"@,
        }
    }

    /// The format's name as written on the command line.
    pub fn to_string(&self) -> (r: String)
        ensures
            r@ == self.name(),
    {
        match self {
            StatusOutput::Text => String::from_str("text"),
            StatusOutput::Json => String::from_str("json"),
        }
    }
}

impl Default for StatusOutput {
    /// Text.
    fn default() -> (r: StatusOutput)
        ensures
            r == StatusOutput::Text,
    {
        StatusOutput::Text
    }
}

/// Arguments of `status`.
#[derive(Clone, Debug)]
pub struct StatusCommandArgs {
    /// The output format.
    pub output: StatusOutput,
    /// A template for text output; the built-in one when absent.
    pub format: Option<String>,
}

impl Default for StatusCommandArgs {
    /// Text output with the built-in template.
    fn default() -> (r: StatusCommandArgs)
        ensures
            r.output == StatusOutput::Text,
            r.format.is_none(),
    {
        StatusCommandArgs { output: StatusOutput::Text, format: None }
    }
}

/// The subcommand to run.
#[derive(Clone, Debug)]
pub enum ProgramCommand {
    /// Start or resume a session.
    Start(StartCommandArgs),
    /// Pause or abort the live session.
    Stop(StopCommandArgs),
    /// Report the latest session.
    Status(StatusCommandArgs),
}

/// The whole command line.
#[derive(Clone, Debug)]
pub struct Program {
    /// Keep the records in memory only, for this run.
    pub in_memory: bool,
    /// Run no hook scripts.
    pub no_hooks: bool,
    /// The subcommand.
    pub command: ProgramCommand,
}

} // verus!
