//! Settings of the log outputs, and the form in which each output writes.

use vstd::prelude::*;
use vstd::string::StringExecFns;

verus! {

/// The form of the log lines of an output.
#[derive(Debug, Clone, Copy, PartialEq, Eq, Structural)]
pub enum LogFormat {
    /// Left to the output: a terminal reads lines for humans, a file holds
    /// JSON unless it was asked to be readable.
    Auto,
    Human,
    Json,
}

impl Default for LogFormat {
    fn default() -> (r: Self)
        ensures
            r == LogFormat::Auto,
    {
        LogFormat::Auto
    }
}

/// How an output writes its lines.
#[derive(Debug, Clone, Copy, PartialEq, Eq, Structural)]
pub enum LayerKind {
    /// Lines for humans, with or without a timestamp and colours.
    Human { timestamps: bool, ansi: bool },
    /// One JSON object per line.
    Json,
}

/// How lines for humans are written to the standard error stream: a child
/// of systemd writes neither timestamps nor colours, since the journal adds
/// its own time; otherwise colours are written only to a terminal.
pub open spec fn human_style(systemd_child: bool, terminal: bool) -> LayerKind {
    if systemd_child {
        LayerKind::Human { timestamps: false, ansi: false }
    } else {
        LayerKind::Human { timestamps: true, ansi: terminal }
    }
}

/// Picks the style of lines for humans on the standard error stream.
/// `systemd_child` says whether the process was started by systemd,
/// `terminal` whether the standard output is a terminal.
pub fn human_layer(systemd_child: bool, terminal: bool) -> (r: LayerKind)
    ensures
        r == human_style(systemd_child, terminal),
{
    if systemd_child {
        LayerKind::Human { timestamps: false, ansi: false }
    } else if !terminal {
        LayerKind::Human { timestamps: true, ansi: false }
    } else {
        LayerKind::Human { timestamps: true, ansi: true }
    }
}

/// Log output to the standard error stream.
#[derive(Debug, Clone, Copy, PartialEq, Eq, Structural)]
pub struct LoggerStderrOutput {
    pub format: LogFormat,
}

impl Default for LoggerStderrOutput {
    fn default() -> (r: Self)
        ensures
            r.format == LogFormat::Auto,
    {
        LoggerStderrOutput { format: LogFormat::Auto }
    }
}

impl LoggerStderrOutput {
    /// How this output writes: JSON where it was asked for, else lines for
    /// humans in the style of [`human_style`].
    pub open spec fn layer(self, systemd_child: bool, terminal: bool) -> LayerKind {
        match self.format {
            LogFormat::Json => LayerKind::Json,
            _ => human_style(systemd_child, terminal),
        }
    }

    /// Picks how this output writes.
    pub fn as_layer(&self, systemd_child: bool, terminal: bool) -> (r: LayerKind)
        ensures
            r == self.layer(systemd_child, terminal),
    {
        match self.format {
            LogFormat::Human => human_layer(systemd_child, terminal),
            LogFormat::Auto => human_layer(systemd_child, terminal),
            LogFormat::Json => LayerKind::Json,
        }
    }
}

/// Log output to hourly files in a directory.
#[derive(Debug, Clone, PartialEq, Eq)]
pub struct LoggerFileOutput {
    /// The directory of the log files.
    pub dir: String,
    /// Whether a file whose format is left open holds lines for humans.
    pub human_readable: bool,
    pub format: Option<LogFormat>,
    /// The name with which each file begins.
    pub file_prefix: String,
    /// The number of files that are kept. It is not zero.
    pub max_files: usize,
}

/// The name with which log files begin unless another is set.
pub fn log_file_prefix() -> (r: String)
    ensures
        r@ == "tycho.log"@,
{
    String::from_str("tycho.log")
}

/// The number of log files that are kept unless another is set.
pub fn max_log_files() -> (r: usize)
    ensures
        r == 25,
{
    25
}

impl LoggerFileOutput {
    /// Whether the settings can be used: at least one file is kept.
    pub open spec fn well_formed(&self) -> bool {
        self.max_files > 0
    }

    /// File output to `dir` with everything else left at its default: the
    /// format open, JSON lines, the default prefix and number of files.
    pub fn new(dir: String) -> (r: LoggerFileOutput)
        ensures
            r.well_formed(),
            r.dir == dir,
            !r.human_readable,
            r.format is None,
            r.file_prefix@ == "tycho.log"@,
            r.max_files == 25,
    {
        LoggerFileOutput {
            dir,
            human_readable: false,
            format: None,
            file_prefix: log_file_prefix(),
            max_files: max_log_files(),
        }
    }

    /// The format in which the files are written: the format that was set,
    /// and where it was left open, lines for humans if the output was asked
    /// to be readable, else JSON. It is never left open.
    pub open spec fn spec_resolved_format(&self) -> LogFormat {
        match self.format {
            Some(LogFormat::Human) => LogFormat::Human,
            Some(LogFormat::Json) => LogFormat::Json,
            _ => if self.human_readable {
                LogFormat::Human
            } else {
                LogFormat::Json
            },
        }
    }

    /// Settles the format in which the files are written.
    pub fn resolved_format(&self) -> (r: LogFormat)
        ensures
            r == self.spec_resolved_format(),
            r != LogFormat::Auto,
    {
        let format = match self.format {
            Some(f) => f,
            None => LogFormat::default(),
        };
        match format {
            LogFormat::Human => LogFormat::Human,
            LogFormat::Auto => if self.human_readable {
                LogFormat::Human
            } else {
                LogFormat::Json
            },
            LogFormat::Json => LogFormat::Json,
        }
    }

    /// How this output writes: lines for humans go to a file without
    /// timestamps and colours.
    pub open spec fn layer(&self) -> LayerKind {
        if self.spec_resolved_format() == LogFormat::Human {
            LayerKind::Human { timestamps: false, ansi: false }
        } else {
            LayerKind::Json
        }
    }

    /// Picks how this output writes.
    pub fn as_layer(&self) -> (r: LayerKind)
        ensures
            r == self.layer(),
    {
        match self.resolved_format() {
            LogFormat::Human => LayerKind::Human { timestamps: false, ansi: false },
            _ => LayerKind::Json,
        }
    }
}

/// One log output.
#[derive(Debug, Clone, PartialEq, Eq)]
pub enum LoggerOutput {
    Stderr(LoggerStderrOutput),
    File(LoggerFileOutput),
}

impl LoggerOutput {
    /// How this output writes.
    pub open spec fn layer(&self, systemd_child: bool, terminal: bool) -> LayerKind {
        match self {
            LoggerOutput::Stderr(stderr) => stderr.layer(systemd_child, terminal),
            LoggerOutput::File(file) => file.layer(),
        }
    }

    /// Picks how this output writes.
    pub fn as_layer(&self, systemd_child: bool, terminal: bool) -> (r: LayerKind)
        ensures
            r == self.layer(systemd_child, terminal),
    {
        match self {
            LoggerOutput::Stderr(stderr) => stderr.as_layer(systemd_child, terminal),
            LoggerOutput::File(file) => file.as_layer(),
        }
    }
}

/// The log outputs of the service.
#[derive(Debug, Clone, PartialEq, Eq)]
pub struct LoggerConfig {
    pub outputs: Vec<LoggerOutput>,
}

impl Default for LoggerConfig {
    fn default() -> (r: Self)
        ensures
            r.outputs@ == seq![LoggerOutput::Stderr(LoggerStderrOutput { format: LogFormat::Auto })],
    {
        let mut outputs: Vec<LoggerOutput> = Vec::new();
        outputs.push(LoggerOutput::Stderr(LoggerStderrOutput { format: LogFormat::Auto }));
        assert(outputs@ =~= seq![LoggerOutput::Stderr(LoggerStderrOutput { format: LogFormat::Auto })]);
        LoggerConfig { outputs }
    }
}

/// The mathematical value of a log directive: the target, `=`, and the
/// level.
pub open spec fn directive_text(target: Seq<char>, level: Seq<char>) -> Seq<char> {
    target + "="@ + level
}

/// Writes the directive that sets the log level of one target.
pub fn directive(target: &str, level: &str) -> (r: String)
    ensures
        r@ == directive_text(target@, level@),
{
    String::from_str(target).concat("=").concat(level)
}

} // verus!
