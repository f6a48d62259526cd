//! Logging configuration: severity levels, verbosity, and the configuration
//! that the subscriber is installed from.

pub mod cli;

use core::cmp::Ordering;
use std::path::PathBuf;
use vstd::prelude::*;
use vstd::std_specs::cmp::PartialOrdSpec;
use vstd::std_specs::cmp::PartialOrdSpecImpl;

verus! {

/// Severity of a log record, ordered from least to most verbose:
/// `Error < Warn < Info < Debug < Trace`.
#[derive(Clone, Copy, Debug, PartialEq, Eq, Structural, Ord, Hash)]
pub enum Level {
    Error,
    Warn,
    Info,
    Debug,
    Trace,
}

impl Level {
    /// How verbose a level is: `Error` is 0 and `Trace` is 4. The order of
    /// levels is the order of their ranks.
    pub open spec fn rank(self) -> int {
        match self {
            Level::Error => 0,
            Level::Warn => 1,
            Level::Info => 2,
            Level::Debug => 3,
            Level::Trace => 4,
        }
    }

    /// The upper-case name of the level.
    pub open spec fn name(self) -> Seq<char> {
        match self {
            Level::Trace => "TRACE"@,
            Level::Debug => "DEBUG"@,
            Level::Info => "INFO"@,
            Level::Warn => "WARN"@,
            Level::Error => "ERROR"@,
        }
    }

    /// The rank of the level as a number.
    fn rank_u8(&self) -> (r: u8)
        ensures
            r == self.rank(),
    {
        match self {
            Level::Error => 0,
            Level::Warn => 1,
            Level::Info => 2,
            Level::Debug => 3,
            Level::Trace => 4,
        }
    }

    /// Returns the upper-case name of the level, e.g. `"INFO"`.
    pub fn as_str(&self) -> (s: &'static str)
        ensures
            s@ == self.name(),
    {
        match self {
            Level::Trace => "TRACE",
            Level::Debug => "DEBUG",
            Level::Info => "INFO",
            Level::Warn => "WARN",
            Level::Error => "ERROR",
        }
    }
}

/// The order of two ranks.
pub open spec fn compare_ranks(a: int, b: int) -> Ordering {
    if a < b {
        Ordering::Less
    } else if a == b {
        Ordering::Equal
    } else {
        Ordering::Greater
    }
}

impl PartialOrd for Level {
    fn partial_cmp(&self, other: &Level) -> (r: Option<Ordering>) {
        let a = self.rank_u8();
        let b = other.rank_u8();
        if a < b {
            Some(Ordering::Less)
        } else if a == b {
            Some(Ordering::Equal)
        } else {
            Some(Ordering::Greater)
        }
    }
}

impl PartialOrdSpecImpl for Level {
    open spec fn obeys_partial_cmp_spec() -> bool {
        true
    }

    open spec fn partial_cmp_spec(&self, other: &Level) -> Option<Ordering> {
        Some(compare_ranks(self.rank(), other.rank()))
    }
}

/// The level of detail that logging is configured for. It holds exactly one
/// level, and verbosities are ordered as their levels are.
#[derive(Clone, Copy, Debug, PartialEq, Eq, Structural, Ord)]
pub struct Verbosity {
    pub inner: Level,
}

impl PartialOrd for Verbosity {
    fn partial_cmp(&self, other: &Verbosity) -> (r: Option<Ordering>) {
        self.inner.partial_cmp(&other.inner)
    }
}

impl PartialOrdSpecImpl for Verbosity {
    open spec fn obeys_partial_cmp_spec() -> bool {
        true
    }

    open spec fn partial_cmp_spec(&self, other: &Verbosity) -> Option<Ordering> {
        Some(compare_ranks(self.inner.rank(), other.inner.rank()))
    }
}

/// The level that a count of verbosity flags selects: none gives `Warn`, one
/// `Info`, two `Debug`, and three or more `Trace`.
pub open spec fn level_for_count(count: u8) -> Level {
    if count == 0 {
        Level::Warn
    } else if count == 1 {
        Level::Info
    } else if count == 2 {
        Level::Debug
    } else {
        Level::Trace
    }
}

impl Verbosity {
    /// The level this verbosity stands for.
    pub open spec fn spec_level(&self) -> Level {
        self.inner
    }

    /// Creates a verbosity for the given level.
    pub fn new(level: Level) -> (v: Self)
        ensures
            v == (Verbosity { inner: level }),
    {
        Self { inner: level }
    }

    /// Returns the level of this verbosity.
    #[verifier::when_used_as_spec(spec_level)]
    pub fn level(&self) -> (l: Level)
        ensures
            l == self.spec_level(),
    {
        self.inner
    }
}

impl From<u8> for Verbosity {
    /// Maps a count of verbosity flags to a verbosity: see [`level_for_count`].
    fn from(value: u8) -> (v: Self)
        ensures
            v == (Verbosity { inner: level_for_count(value) }),
    {
        let inner = match value {
            0 => Level::Warn,
            1 => Level::Info,
            2 => Level::Debug,
            _ => Level::Trace,
        };
        Self::new(inner)
    }
}

impl vstd::std_specs::convert::FromSpecImpl<u8> for Verbosity {
    open spec fn obeys_from_spec() -> bool {
        true
    }

    open spec fn from_spec(v: u8) -> Self {
        Verbosity { inner: level_for_count(v) }
    }
}

impl From<Level> for Verbosity {
    fn from(value: Level) -> (v: Self)
        ensures
            v == (Verbosity { inner: value }),
    {
        Self::new(value)
    }
}

impl vstd::std_specs::convert::FromSpecImpl<Level> for Verbosity {
    open spec fn obeys_from_spec() -> bool {
        true
    }

    open spec fn from_spec(v: Level) -> Self {
        Verbosity { inner: v }
    }
}

impl core::ops::Deref for Verbosity {
    type Target = Level;

    fn deref(&self) -> (l: &Level)
        ensures
            *l == self.inner,
    {
        &self.inner
    }
}

impl AsRef<str> for Verbosity {
    fn as_ref(&self) -> (s: &str)
        ensures
            s@ == self.inner.name(),
    {
        self.level().as_str()
    }
}

/// A verbosity is determined by its level: two verbosities with the same
/// level are equal.
pub proof fn lemma_level_determines_verbosity(v1: Verbosity, v2: Verbosity)
    requires
        v1.spec_level() == v2.spec_level(),
    ensures
        v1 == v2,
{
}

/// Levels are ordered by verbosity: one level is below another exactly when
/// it is less verbose, `Error` is the least verbose and `Trace` the most.
pub proof fn lemma_level_order(a: Level, b: Level)
    ensures
        PartialOrdSpec::partial_cmp_spec(&a, &b) == Some(Ordering::Less) <==> a.rank() < b.rank(),
        PartialOrdSpec::partial_cmp_spec(&a, &b) == Some(Ordering::Equal) <==> a == b,
        PartialOrdSpec::partial_cmp_spec(&a, &b) == Some(Ordering::Greater) <==> a.rank() > b.rank(),
        PartialOrdSpec::partial_cmp_spec(&Level::Error, &b) != Some(Ordering::Greater),
        PartialOrdSpec::partial_cmp_spec(&a, &Level::Trace) != Some(Ordering::Greater),
        PartialOrdSpec::partial_cmp_spec(&Level::Error, &Level::Warn) == Some(Ordering::Less),
        PartialOrdSpec::partial_cmp_spec(&Level::Warn, &Level::Info) == Some(Ordering::Less),
        PartialOrdSpec::partial_cmp_spec(&Level::Info, &Level::Debug) == Some(Ordering::Less),
        PartialOrdSpec::partial_cmp_spec(&Level::Debug, &Level::Trace) == Some(Ordering::Less),
{
}

/// Verbosities are ordered as the levels they hold.
pub proof fn lemma_verbosity_order_follows_level(v1: Verbosity, v2: Verbosity)
    ensures
        PartialOrdSpec::partial_cmp_spec(&v1, &v2) == PartialOrdSpec::partial_cmp_spec(
            &v1.level(),
            &v2.level(),
        ),
        PartialOrdSpec::partial_cmp_spec(&v1, &v2) == Some(Ordering::Less) <==> v1.level().rank()
            < v2.level().rank(),
        PartialOrdSpec::partial_cmp_spec(&v1, &v2) == Some(Ordering::Equal) <==> v1 == v2,
{
}

/// A higher count of verbosity flags never gives a verbosity that compares
/// below the one for a lower count.
pub proof fn lemma_more_flags_compare_higher(fewer: u8, more: u8)
    requires
        fewer <= more,
    ensures
        PartialOrdSpec::partial_cmp_spec(
            &(Verbosity { inner: level_for_count(fewer) }),
            &(Verbosity { inner: level_for_count(more) }),
        ) != Some(Ordering::Greater),
{
}

/// Raising the count of verbosity flags never makes logging less verbose.
pub proof fn lemma_more_flags_more_verbose(fewer: u8, more: u8)
    requires
        fewer <= more,
    ensures
        level_for_count(fewer).rank() <= level_for_count(more).rank(),
{
}

#[verifier::external_type_specification]
#[verifier::external_body]
pub struct ExPathBuf(PathBuf);

/// Specifies core's reflexive `impl<T> From<T> for T`, which core documents
/// as returning its argument unchanged.
pub assume_specification<T>[ <T as core::convert::From<T>>::from ](t: T) -> (r: T)
    ensures
        r == t,
;

/// Calls `<PathBuf as Clone>::clone`; the contract claims that the copy is the
/// same path as the original.
#[verifier::external_body]
fn clone_path(p: &PathBuf) -> (r: PathBuf)
    ensures
        r == *p,
{
    p.clone()
}

/// Configuration for daily rolling file logs.
pub struct FileAppenderConfig {
    pub dir: PathBuf,
    pub prefix: String,
    pub suffix: String,
    pub max_files: usize,
}

impl Clone for FileAppenderConfig {
    fn clone(&self) -> (r: Self)
        ensures
            r == *self,
    {
        FileAppenderConfig {
            dir: clone_path(&self.dir),
            prefix: self.prefix.clone(),
            suffix: self.suffix.clone(),
            max_files: self.max_files,
        }
    }
}

/// The number of rolled files kept when the builder is not told otherwise.
pub const DEFAULT_MAX_FILES: usize = 7;

/// Error returned by [`FileAppenderConfigBuilder::build`].
#[derive(Debug, PartialEq, Eq)]
pub enum FileAppenderConfigBuilderError {
    /// A required field was never set; the name of the field is given.
    UninitializedField(&'static str),
    /// A field was rejected by a validator; no field of this builder has one.
    ValidationError(String),
}

/// What a [`FileAppenderConfigBuilder`] holds: each field is `None` until set.
pub struct FileAppenderConfigBuilderView {
    pub dir: Option<PathBuf>,
    pub prefix: Option<String>,
    pub suffix: Option<String>,
    pub max_files: Option<usize>,
}

/// Builder for [`FileAppenderConfig`].
pub struct FileAppenderConfigBuilder {
    dir: Option<PathBuf>,
    prefix: Option<String>,
    suffix: Option<String>,
    max_files: Option<usize>,
}

impl View for FileAppenderConfigBuilder {
    type V = FileAppenderConfigBuilderView;

    closed spec fn view(&self) -> FileAppenderConfigBuilderView {
        FileAppenderConfigBuilderView {
            dir: self.dir,
            prefix: self.prefix,
            suffix: self.suffix,
            max_files: self.max_files,
        }
    }
}

impl Clone for FileAppenderConfigBuilder {
    fn clone(&self) -> (r: Self)
        ensures
            r@ == self@,
    {
        let dir = match &self.dir {
            Some(d) => Some(clone_path(d)),
            None => None,
        };
        FileAppenderConfigBuilder {
            dir,
            prefix: self.prefix.clone(),
            suffix: self.suffix.clone(),
            max_files: self.max_files,
        }
    }
}

impl Default for FileAppenderConfigBuilder {
    fn default() -> (b: Self)
        ensures
            b@.dir is None,
            b@.prefix is None,
            b@.suffix is None,
            b@.max_files is None,
    {
        FileAppenderConfigBuilder { dir: None, prefix: None, suffix: None, max_files: None }
    }
}

/// What building from the given fields yields: the first required field that
/// is missing, in the order `dir`, `prefix`, `suffix`, as an error; otherwise
/// the fields of the configuration, with `max_files` taken as
/// [`DEFAULT_MAX_FILES`] when it was not set.
pub open spec fn file_appender_outcome(b: FileAppenderConfigBuilderView) -> Result<
    (PathBuf, String, String, usize),
    FileAppenderConfigBuilderError,
> {
    match (b.dir, b.prefix, b.suffix) {
        (None, _, _) => Err(FileAppenderConfigBuilderError::UninitializedField("dir")),
        (Some(_), None, _) => Err(FileAppenderConfigBuilderError::UninitializedField("prefix")),
        (Some(_), Some(_), None) => Err(FileAppenderConfigBuilderError::UninitializedField("suffix")),
        (Some(dir), Some(prefix), Some(suffix)) => Ok(
            (
                dir,
                prefix,
                suffix,
                match b.max_files {
                    Some(n) => n,
                    None => DEFAULT_MAX_FILES,
                },
            ),
        ),
    }
}

/// Once `dir`, `prefix` and `suffix` have been set, building succeeds and
/// gives back exactly the values that were set; `max_files` gives back its
/// value when set and [`DEFAULT_MAX_FILES`] otherwise.
pub proof fn lemma_file_appender_build_reads_back(b: FileAppenderConfigBuilderView)
    requires
        b.dir is Some,
        b.prefix is Some,
        b.suffix is Some,
    ensures
        file_appender_outcome(b) == Ok::<_, FileAppenderConfigBuilderError>(
            (
                b.dir->0,
                b.prefix->0,
                b.suffix->0,
                if b.max_files is Some {
                    b.max_files->0
                } else {
                    7
                },
            ),
        ),
{
}

/// Building succeeds exactly when `dir`, `prefix` and `suffix` were all set;
/// the first of them that is missing, in that order, is reported.
pub proof fn lemma_file_appender_requires_fields(b: FileAppenderConfigBuilderView)
    ensures
        file_appender_outcome(b) is Ok <==> (b.dir is Some && b.prefix is Some && b.suffix is Some),
        b.dir is None ==> file_appender_outcome(b) == Err::<
            (PathBuf, String, String, usize),
            FileAppenderConfigBuilderError,
        >(FileAppenderConfigBuilderError::UninitializedField("dir")),
        b.dir is Some && b.prefix is None ==> file_appender_outcome(b) == Err::<
            (PathBuf, String, String, usize),
            FileAppenderConfigBuilderError,
        >(FileAppenderConfigBuilderError::UninitializedField("prefix")),
        b.dir is Some && b.prefix is Some && b.suffix is None ==> file_appender_outcome(b) == Err::<
            (PathBuf, String, String, usize),
            FileAppenderConfigBuilderError,
        >(FileAppenderConfigBuilderError::UninitializedField("suffix")),
{
}

impl FileAppenderConfigBuilder {
    pub fn dir(&mut self, value: PathBuf) -> (r: &mut Self)
        ensures
            r@.dir == Some(value),
            r@.prefix == old(self)@.prefix,
            r@.suffix == old(self)@.suffix,
            r@.max_files == old(self)@.max_files,
            *final(self) == *final(r),
    {
        self.dir = Some(value);
        self
    }

    pub fn prefix(&mut self, value: String) -> (r: &mut Self)
        ensures
            r@.dir == old(self)@.dir,
            r@.prefix == Some(value),
            r@.suffix == old(self)@.suffix,
            r@.max_files == old(self)@.max_files,
            *final(self) == *final(r),
    {
        self.prefix = Some(value);
        self
    }

    pub fn suffix(&mut self, value: String) -> (r: &mut Self)
        ensures
            r@.dir == old(self)@.dir,
            r@.prefix == old(self)@.prefix,
            r@.suffix == Some(value),
            r@.max_files == old(self)@.max_files,
            *final(self) == *final(r),
    {
        self.suffix = Some(value);
        self
    }

    pub fn max_files(&mut self, value: usize) -> (r: &mut Self)
        ensures
            r@.dir == old(self)@.dir,
            r@.prefix == old(self)@.prefix,
            r@.suffix == old(self)@.suffix,
            r@.max_files == Some(value),
            *final(self) == *final(r),
    {
        self.max_files = Some(value);
        self
    }

    /// Builds the configuration from the fields set so far, as
    /// [`file_appender_outcome`] says. The builder is left as it was.
    pub fn build(&self) -> (r: Result<FileAppenderConfig, FileAppenderConfigBuilderError>)
        ensures
            match r {
                Ok(c) => file_appender_outcome(self@) == Ok::<_, FileAppenderConfigBuilderError>(
                    (c.dir, c.prefix, c.suffix, c.max_files),
                ),
                Err(e) => file_appender_outcome(self@) == Err::<
                    (PathBuf, String, String, usize),
                    _,
                >(e),
            },
            r is Ok <==> (self@.dir is Some && self@.prefix is Some && self@.suffix is Some),
            self@.dir is None ==> r == Err::<FileAppenderConfig, FileAppenderConfigBuilderError>(
                FileAppenderConfigBuilderError::UninitializedField("dir"),
            ),
            self@.dir is Some && self@.prefix is None ==> r == Err::<
                FileAppenderConfig,
                FileAppenderConfigBuilderError,
            >(FileAppenderConfigBuilderError::UninitializedField("prefix")),
            self@.dir is Some && self@.prefix is Some && self@.suffix is None ==> r == Err::<
                FileAppenderConfig,
                FileAppenderConfigBuilderError,
            >(FileAppenderConfigBuilderError::UninitializedField("suffix")),
            r matches Ok(c) ==> {
                &&& c.dir == self@.dir->0
                &&& c.prefix == self@.prefix->0
                &&& c.suffix == self@.suffix->0
                &&& (self@.max_files is Some ==> c.max_files == self@.max_files->0)
                &&& (self@.max_files is None ==> c.max_files == 7)
            },
    {
        let dir = match &self.dir {
            Some(v) => clone_path(v),
            None => return Err(FileAppenderConfigBuilderError::UninitializedField("dir")),
        };
        let prefix = match &self.prefix {
            Some(v) => v.clone(),
            None => return Err(FileAppenderConfigBuilderError::UninitializedField("prefix")),
        };
        let suffix = match &self.suffix {
            Some(v) => v.clone(),
            None => return Err(FileAppenderConfigBuilderError::UninitializedField("suffix")),
        };
        let max_files = match self.max_files {
            Some(v) => v,
            None => DEFAULT_MAX_FILES,
        };
        Ok(FileAppenderConfig { dir, prefix, suffix, max_files })
    }
}

/// Core configuration for the tracing subscriber.
pub struct LogConfig {
    verbosity: Verbosity,
    ansi: bool,
    file_appender: Option<FileAppenderConfig>,
}

impl LogConfig {
    pub closed spec fn spec_verbosity(&self) -> Verbosity {
        self.verbosity
    }

    pub closed spec fn spec_ansi(&self) -> bool {
        self.ansi
    }

    pub closed spec fn spec_file_appender(&self) -> &Option<FileAppenderConfig> {
        &self.file_appender
    }

    /// The verbosity that selects the default filter level.
    #[verifier::when_used_as_spec(spec_verbosity)]
    pub fn verbosity(&self) -> (v: Verbosity)
        ensures
            v == self.spec_verbosity(),
    {
        self.verbosity
    }

    /// Whether console output uses ANSI colours.
    #[verifier::when_used_as_spec(spec_ansi)]
    pub fn ansi(&self) -> (a: bool)
        ensures
            a == self.spec_ansi(),
    {
        self.ansi
    }

    /// The rolling file appender, if file logging is configured.
    #[verifier::when_used_as_spec(spec_file_appender)]
    pub fn file_appender(&self) -> (f: &Option<FileAppenderConfig>)
        ensures
            f == self.spec_file_appender(),
    {
        &self.file_appender
    }
}

impl Clone for LogConfig {
    fn clone(&self) -> (r: Self)
        ensures
            r == *self,
    {
        let file_appender = match &self.file_appender {
            Some(f) => Some(f.clone()),
            None => None,
        };
        LogConfig { verbosity: self.verbosity, ansi: self.ansi, file_appender }
    }
}

/// Error returned by [`LogConfigBuilder::build`].
#[derive(Debug, PartialEq, Eq)]
pub enum LogConfigBuilderError {
    /// A required field was never set; the name of the field is given.
    UninitializedField(&'static str),
    /// A field was rejected by a validator; no field of this builder has one.
    ValidationError(String),
}

/// What a [`LogConfigBuilder`] holds: each field is `None` until set.
pub struct LogConfigBuilderView {
    pub verbosity: Option<Verbosity>,
    pub ansi: Option<bool>,
    pub file_appender: Option<Option<FileAppenderConfig>>,
}

/// Builder for [`LogConfig`].
pub struct LogConfigBuilder {
    verbosity: Option<Verbosity>,
    ansi: Option<bool>,
    file_appender: Option<Option<FileAppenderConfig>>,
}

impl View for LogConfigBuilder {
    type V = LogConfigBuilderView;

    closed spec fn view(&self) -> LogConfigBuilderView {
        LogConfigBuilderView {
            verbosity: self.verbosity,
            ansi: self.ansi,
            file_appender: self.file_appender,
        }
    }
}

impl Clone for LogConfigBuilder {
    fn clone(&self) -> (r: Self)
        ensures
            r@ == self@,
    {
        let file_appender = match &self.file_appender {
            Some(Some(f)) => Some(Some(f.clone())),
            Some(None) => Some(None),
            None => None,
        };
        LogConfigBuilder { verbosity: self.verbosity, ansi: self.ansi, file_appender }
    }
}

impl Default for LogConfigBuilder {
    fn default() -> (b: Self)
        ensures
            b@.verbosity is None,
            b@.ansi is None,
            b@.file_appender is None,
    {
        LogConfigBuilder { verbosity: None, ansi: None, file_appender: None }
    }
}

/// What building from the given fields yields: the first required field that
/// is missing, in the order `verbosity`, `ansi`, as an error; otherwise the
/// verbosity, the colour setting and the file appender (none unless set).
pub open spec fn log_config_outcome(b: LogConfigBuilderView) -> Result<
    (Verbosity, bool, Option<FileAppenderConfig>),
    LogConfigBuilderError,
> {
    match (b.verbosity, b.ansi) {
        (None, _) => Err(LogConfigBuilderError::UninitializedField("verbosity")),
        (Some(_), None) => Err(LogConfigBuilderError::UninitializedField("ansi")),
        (Some(verbosity), Some(ansi)) => Ok(
            (
                verbosity,
                ansi,
                match b.file_appender {
                    Some(f) => f,
                    None => None,
                },
            ),
        ),
    }
}

/// Once `verbosity` and `ansi` have been set, building succeeds and gives back
/// exactly the values that were set; file logging is off unless a file
/// appender was set.
pub proof fn lemma_log_config_build_reads_back(b: LogConfigBuilderView)
    requires
        b.verbosity is Some,
        b.ansi is Some,
    ensures
        log_config_outcome(b) is Ok,
        log_config_outcome(b)->Ok_0.0 == b.verbosity->0,
        log_config_outcome(b)->Ok_0.1 == b.ansi->0,
        b.file_appender is None ==> log_config_outcome(b)->Ok_0.2 is None,
        b.file_appender matches Some(Some(f)) ==> log_config_outcome(b)->Ok_0.2 == Some(f),
{
}

/// Building succeeds exactly when both required fields were set. A missing
/// `verbosity` is reported first, then a missing `ansi`; nothing, not even a
/// file appender, fills in a missing field.
pub proof fn lemma_log_config_requires_fields(b: LogConfigBuilderView)
    ensures
        log_config_outcome(b) is Ok <==> (b.verbosity is Some && b.ansi is Some),
        b.verbosity is None ==> log_config_outcome(b) == Err::<
            (Verbosity, bool, Option<FileAppenderConfig>),
            LogConfigBuilderError,
        >(LogConfigBuilderError::UninitializedField("verbosity")),
        b.verbosity is Some && b.ansi is None ==> log_config_outcome(b) == Err::<
            (Verbosity, bool, Option<FileAppenderConfig>),
            LogConfigBuilderError,
        >(LogConfigBuilderError::UninitializedField("ansi")),
{
}

impl LogConfigBuilder {
    /// Sets the verbosity from anything that converts into one: a flag count
    /// (`u8`), a [`Level`], or a [`Verbosity`].
    pub fn verbosity<VALUE: Into<Verbosity>>(&mut self, value: VALUE) -> (r: &mut Self)
        ensures
            r@.verbosity matches Some(v) && call_ensures(VALUE::into, (value,), v),
            r@.ansi == old(self)@.ansi,
            r@.file_appender == old(self)@.file_appender,
            *final(self) == *final(r),
    {
        self.verbosity = Some(value.into());
        self
    }

    pub fn ansi(&mut self, value: bool) -> (r: &mut Self)
        ensures
            r@.verbosity == old(self)@.verbosity,
            r@.ansi == Some(value),
            r@.file_appender == old(self)@.file_appender,
            *final(self) == *final(r),
    {
        self.ansi = Some(value);
        self
    }

    /// Enables file logging with the given appender configuration, or with
    /// anything that converts into one.
    pub fn file_appender<VALUE: Into<FileAppenderConfig>>(&mut self, value: VALUE) -> (r: &mut Self)
        ensures
            r@.verbosity == old(self)@.verbosity,
            r@.ansi == old(self)@.ansi,
            r@.file_appender matches Some(Some(f)) && call_ensures(VALUE::into, (value,), f),
            *final(self) == *final(r),
    {
        self.file_appender = Some(Some(value.into()));
        self
    }

    /// Builds the configuration from the fields set so far, as
    /// [`log_config_outcome`] says. The builder is left as it was.
    pub fn build(&self) -> (r: Result<LogConfig, LogConfigBuilderError>)
        ensures
            match r {
                Ok(c) => log_config_outcome(self@) == Ok::<_, LogConfigBuilderError>(
                    (c.verbosity(), c.ansi(), *c.file_appender()),
                ),
                Err(e) => log_config_outcome(self@) == Err::<
                    (Verbosity, bool, Option<FileAppenderConfig>),
                    _,
                >(e),
            },
            r is Ok <==> (self@.verbosity is Some && self@.ansi is Some),
            self@.verbosity is None ==> r == Err::<LogConfig, LogConfigBuilderError>(
                LogConfigBuilderError::UninitializedField("verbosity"),
            ),
            self@.verbosity is Some && self@.ansi is None ==> r == Err::<
                LogConfig,
                LogConfigBuilderError,
            >(LogConfigBuilderError::UninitializedField("ansi")),
            r matches Ok(c) ==> {
                &&& c.verbosity() == self@.verbosity->0
                &&& c.ansi() == self@.ansi->0
                &&& (self@.file_appender matches Some(Some(f)) ==> *c.file_appender() == Some(f))
                &&& (!(self@.file_appender is Some && self@.file_appender->0 is Some)
                    ==> *c.file_appender() is None)
            },
    {
        let verbosity = match self.verbosity {
            Some(v) => v,
            None => return Err(LogConfigBuilderError::UninitializedField("verbosity")),
        };
        let ansi = match self.ansi {
            Some(v) => v,
            None => return Err(LogConfigBuilderError::UninitializedField("ansi")),
        };
        let file_appender = match &self.file_appender {
            Some(Some(f)) => Some(f.clone()),
            _ => None,
        };
        Ok(LogConfig { verbosity, ansi, file_appender })
    }
}

/// How often the log file is rolled over to a new file.
#[derive(Clone, Copy, Debug, PartialEq, Eq, Structural)]
pub enum Rotation {
    Minutely,
    Hourly,
    Daily,
    Weekly,
    Never,
}

/// What installing the subscriber does, decided from the configuration and
/// from the value of the `RUST_LOG` environment variable.
pub struct LoggingPlan {
    /// The directive the environment filter is built from.
    pub filter_directive: String,
    /// Whether console output uses ANSI colours.
    pub stdout_ansi: bool,
    /// The daily rolling file appender to add, if any.
    pub file: Option<FileAppenderConfig>,
    /// Whether file output uses ANSI colours.
    pub file_ansi: bool,
    /// How often the log file rolls over.
    pub file_rotation: Rotation,
}

/// Decides how logging is installed. A `RUST_LOG` value, when present, is the
/// filter directive as it stands; otherwise the directive is the name of the
/// configured verbosity's level. Console colours follow the configuration,
/// and the log file is always written without colours and rolled over daily.
pub fn plan_logging(conf: LogConfig, rust_log: Option<String>) -> (p: LoggingPlan)
    ensures
        p.filter_directive@ == match rust_log {
            Some(s) => s@,
            None => conf.verbosity().level().name(),
        },
        p.stdout_ansi == conf.ansi(),
        p.file == *conf.file_appender(),
        !p.file_ansi,
        p.file_rotation == Rotation::Daily,
{
    let filter_directive = match rust_log {
        Some(s) => s,
        None => String::from_str(conf.verbosity.as_ref()),
    };
    LoggingPlan {
        filter_directive,
        stdout_ansi: conf.ansi,
        file: conf.file_appender,
        file_ansi: false,
        file_rotation: Rotation::Daily,
    }
}

} // verus!
