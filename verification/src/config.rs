//! The validity window of a presigned request: when it starts to be valid and
//! for how long, with the builder that checks both.

use crate::clock::duration_nanos;
use std::time::Duration;
use std::time::SystemTime;
use vstd::prelude::*;

verus! {

/// The longest time a presigned request may be valid for, in seconds: one week.
pub const MAX_EXPIRES_IN_SECS: u64 = 604_800;

/// One second in nanoseconds.
pub const NANOS_PER_SEC: u128 = 1_000_000_000;

/// [`MAX_EXPIRES_IN_SECS`] in nanoseconds.
const MAX_EXPIRES_IN_NANOS: u128 = 604_800_000_000_000;

/// Whether a duration is at most one week. Exactly one week is within the
/// limit; one nanosecond more is not.
pub open spec fn within_limit(d: Duration) -> bool {
    duration_nanos(d) <= MAX_EXPIRES_IN_SECS * NANOS_PER_SEC
}

/// Why a configuration could not be built.
#[derive(Debug, Clone, Copy, PartialEq, Eq, Structural)]
pub enum ErrorKind {
    /// Presigned requests cannot be valid for longer than one week.
    ExpiresInDurationTooLong,
    /// The builder requires a value for `expires_in`.
    ExpiresInRequired,
}

/// `PresigningConfig` build errors.
#[derive(Debug)]
pub struct PresigningConfigError {
    kind: ErrorKind,
}

impl View for PresigningConfigError {
    type V = ErrorKind;

    closed spec fn view(&self) -> ErrorKind {
        self.kind
    }
}

impl PresigningConfigError {
    /// Which of the two failures this is.
    pub fn kind(&self) -> (kind: ErrorKind)
        ensures
            kind == self@,
    {
        self.kind
    }

    /// The text that describes the failure to a person.
    pub fn message(&self) -> (text: String)
        ensures
            self@ == ErrorKind::ExpiresInDurationTooLong ==> text@
                == "`expires_in` must be no longer than one week"@,
            self@ == ErrorKind::ExpiresInRequired ==> text@ == "`expires_in` is required"@,
    {
        match self.kind {
            ErrorKind::ExpiresInDurationTooLong => {
                "`expires_in` must be no longer than one week".to_owned()
            },
            ErrorKind::ExpiresInRequired => "`expires_in` is required".to_owned(),
        }
    }
}

impl From<ErrorKind> for PresigningConfigError {
    fn from(kind: ErrorKind) -> (error: Self)
        ensures
            error@ == kind,
    {
        Self { kind }
    }
}

impl vstd::std_specs::convert::FromSpecImpl<ErrorKind> for PresigningConfigError {
    open spec fn obeys_from_spec() -> bool {
        true
    }

    closed spec fn from_spec(kind: ErrorKind) -> Self {
        PresigningConfigError { kind }
    }
}

/// What a configuration holds: the model of a [`PresigningConfig`].
pub struct ValidityWindow {
    /// The time from which the request is valid.
    pub start_time: SystemTime,
    /// How long it stays valid after that.
    pub expires_in: Duration,
}

/// What a builder has been given so far: the model of a
/// [`PresigningConfigBuilder`].
pub struct BuilderState {
    /// The start time, if one was set.
    pub start_time: Option<SystemTime>,
    /// The duration, if one was set.
    pub expires_in: Option<Duration>,
}

impl BuilderState {
    /// The state of a fresh builder: nothing is set.
    pub open spec fn empty() -> BuilderState {
        BuilderState { start_time: None, expires_in: None }
    }

    /// This state with the start time set or cleared.
    pub open spec fn with_start_time(self, start_time: Option<SystemTime>) -> BuilderState {
        BuilderState { start_time, expires_in: self.expires_in }
    }

    /// This state with the duration set or cleared.
    pub open spec fn with_expires_in(self, expires_in: Option<Duration>) -> BuilderState {
        BuilderState { start_time: self.start_time, expires_in }
    }

    /// The failure that building from this state ends in, if it fails: a
    /// missing duration, or one over the limit.
    pub open spec fn build_error(self) -> Option<ErrorKind> {
        match self.expires_in {
            None => Some(ErrorKind::ExpiresInRequired),
            Some(d) => if within_limit(d) {
                None
            } else {
                Some(ErrorKind::ExpiresInDurationTooLong)
            },
        }
    }

    /// What building from this state gives when the clock reads `now`: the
    /// failure, or the window with the start time that was set, and `now`
    /// where none was.
    pub open spec fn build_outcome(self, now: SystemTime) -> Result<ValidityWindow, ErrorKind> {
        match self.build_error() {
            Some(kind) => Err(kind),
            None => Ok(
                ValidityWindow {
                    start_time: match self.start_time {
                        Some(t) => t,
                        None => now,
                    },
                    expires_in: self.expires_in->0,
                },
            ),
        }
    }
}

/// The model of what a build returned.
pub open spec fn outcome_of(r: Result<PresigningConfig, PresigningConfigError>) -> Result<
    ValidityWindow,
    ErrorKind,
> {
    match r {
        Ok(config) => Ok(config@),
        Err(error) => Err(error@),
    }
}

/// Presigning config values required for creating a presigned request.
#[non_exhaustive]
#[derive(Debug)]
pub struct PresigningConfig {
    start_time: SystemTime,
    expires_in: Duration,
}

impl View for PresigningConfig {
    type V = ValidityWindow;

    closed spec fn view(&self) -> ValidityWindow {
        ValidityWindow { start_time: self.start_time, expires_in: self.expires_in }
    }
}

impl Clone for PresigningConfig {
    fn clone(&self) -> (copy: Self)
        ensures
            copy@ == self@,
    {
        proof {
            use_type_invariant(self);
        }
        PresigningConfig { start_time: self.start_time, expires_in: self.expires_in }
    }
}

impl PresigningConfig {
    /// No configuration holds a duration over the limit.
    #[verifier::type_invariant]
    spec fn valid(self) -> bool {
        within_limit(self.expires_in)
    }

    /// Creates a `PresigningConfig` with the given `expires_in` duration.
    ///
    /// The `expires_in` duration is the total amount of time the presigned request should
    /// be valid for. Other config values are defaulted: the start time is read from the
    /// system clock.
    ///
    /// Credential expiration time takes priority over the `expires_in` value.
    /// If the credentials used to sign the request expire before the presigned request is
    /// set to expire, then the presigned request will become invalid.
    pub fn expires_in(expires_in: Duration) -> (r: Result<PresigningConfig, PresigningConfigError>)
        ensures
            match r {
                Ok(config) => within_limit(expires_in) && config@.expires_in == expires_in,
                Err(error) => !within_limit(expires_in) && error@
                    == ErrorKind::ExpiresInDurationTooLong,
            },
    {
        Self::builder().expires_in(expires_in).build()
    }

    /// Creates a new builder for creating a `PresigningConfig`.
    pub fn builder() -> (builder: PresigningConfigBuilder)
        ensures
            builder@ == BuilderState::empty(),
    {
        PresigningConfigBuilder::default()
    }

    /// Returns the amount of time the presigned request should be valid for.
    pub fn expires(&self) -> (expires_in: Duration)
        ensures
            expires_in == self@.expires_in,
            within_limit(expires_in),
    {
        proof {
            use_type_invariant(self);
        }
        self.expires_in
    }

    /// Returns the start time. The presigned request will be valid between this and the end
    /// time produced by adding the `expires()` value to it.
    pub fn start_time(&self) -> (start_time: SystemTime)
        ensures
            start_time == self@.start_time,
    {
        self.start_time
    }
}

/// Builder used to create `PresigningConfig`.
#[non_exhaustive]
#[derive(Debug)]
pub struct PresigningConfigBuilder {
    start_time: Option<SystemTime>,
    expires_in: Option<Duration>,
}

impl View for PresigningConfigBuilder {
    type V = BuilderState;

    closed spec fn view(&self) -> BuilderState {
        BuilderState { start_time: self.start_time, expires_in: self.expires_in }
    }
}

impl Default for PresigningConfigBuilder {
    fn default() -> (builder: Self)
        ensures
            builder@ == BuilderState::empty(),
    {
        PresigningConfigBuilder { start_time: None, expires_in: None }
    }
}

impl PresigningConfigBuilder {
    /// Sets the start time for the presigned request.
    ///
    /// The request will start to be valid at this time, and will cease to be valid after
    /// the end time, which can be determined by adding the `expires_in` duration to this
    /// start time. If not specified, this will default to the current time.
    ///
    /// Optional.
    pub fn start_time(self, start_time: SystemTime) -> (builder: Self)
        ensures
            builder@ == self@.with_start_time(Some(start_time)),
    {
        let mut builder = self;
        builder.set_start_time(Some(start_time));
        builder
    }

    /// Sets or clears the start time for the presigned request.
    ///
    /// Any time is accepted, past or future. If none is set at build time, the
    /// start time defaults to the current time.
    ///
    /// Optional.
    pub fn set_start_time(&mut self, start_time: Option<SystemTime>)
        ensures
            final(self)@ == old(self)@.with_start_time(start_time),
    {
        self.start_time = start_time;
    }

    /// Sets how long the request should be valid after the `start_time` (which defaults
    /// to the current time).
    ///
    /// Credential expiration time takes priority over the `expires_in` value.
    /// If the credentials used to sign the request expire before the presigned request is
    /// set to expire, then the presigned request will become invalid.
    ///
    /// Required.
    pub fn expires_in(self, expires_in: Duration) -> (builder: Self)
        ensures
            builder@ == self@.with_expires_in(Some(expires_in)),
    {
        let mut builder = self;
        builder.set_expires_in(Some(expires_in));
        builder
    }

    /// Sets or clears how long the request should be valid after the `start_time`.
    ///
    /// No duration is refused here: the limit is checked when the configuration
    /// is built.
    ///
    /// Required.
    pub fn set_expires_in(&mut self, expires_in: Option<Duration>)
        ensures
            final(self)@ == old(self)@.with_expires_in(expires_in),
    {
        self.expires_in = expires_in;
    }

    /// The duration that was set, where a configuration may hold it.
    fn checked_expires_in(&self) -> (r: Result<Duration, PresigningConfigError>)
        ensures
            match r {
                Ok(d) => self@.build_error() is None && self@.expires_in == Some(d),
                Err(error) => self@.build_error() == Some(error@),
            },
    {
        let expires_in = match self.expires_in {
            Some(d) => d,
            None => {
                return Err(PresigningConfigError::from(ErrorKind::ExpiresInRequired));
            },
        };
        if expires_in.as_nanos() > MAX_EXPIRES_IN_NANOS {
            return Err(PresigningConfigError::from(ErrorKind::ExpiresInDurationTooLong));
        }
        Ok(expires_in)
    }

    /// Builds the `PresigningConfig`. This will error if `expires_in` is not
    /// given, or if it's longer than one week. Where no start time was set, it
    /// is read from the system clock, so of that start time nothing is promised.
    pub fn build(self) -> (r: Result<PresigningConfig, PresigningConfigError>)
        ensures
            match r {
                Ok(config) => {
                    &&& self@.build_error() is None
                    &&& self@.expires_in == Some(config@.expires_in)
                    &&& self@.start_time matches Some(t) ==> config@.start_time == t
                },
                Err(error) => self@.build_error() == Some(error@),
            },
    {
        let expires_in = match self.checked_expires_in() {
            Ok(d) => d,
            Err(error) => {
                return Err(error);
            },
        };
        let start_time = match self.start_time {
            Some(t) => t,
            None => SystemTime::now(),
        };
        Ok(PresigningConfig { start_time, expires_in })
    }

    /// Builds the `PresigningConfig` as [`build`](Self::build) does, with `now`
    /// in place of the system clock's reading.
    pub fn build_at(self, now: SystemTime) -> (r: Result<PresigningConfig, PresigningConfigError>)
        ensures
            outcome_of(r) == self@.build_outcome(now),
    {
        let expires_in = match self.checked_expires_in() {
            Ok(d) => d,
            Err(error) => {
                return Err(error);
            },
        };
        let start_time = match self.start_time {
            Some(t) => t,
            None => now,
        };
        Ok(PresigningConfig { start_time, expires_in })
    }
}

/// A duration of at most one week, set on a fresh builder, builds: whatever
/// `builder`, `expires_in` and `build` return in turn, the last is a
/// configuration, and `expires` returns that duration for it.
pub proof fn law_duration_within_limit_builds(
    d: Duration,
    fresh: PresigningConfigBuilder,
    chosen: PresigningConfigBuilder,
    config: PresigningConfig,
    built: Result<PresigningConfig, PresigningConfigError>,
    shown: Duration,
)
    requires
        within_limit(d),
        call_ensures(PresigningConfig::builder, (), fresh),
        call_ensures(PresigningConfigBuilder::expires_in, (fresh, d), chosen),
        call_ensures(PresigningConfigBuilder::build, (chosen,), built),
        built is Ok ==> built == Ok::<PresigningConfig, PresigningConfigError>(config),
        call_ensures(PresigningConfig::expires, (&config,), shown),
    ensures
        built is Ok,
        config@.expires_in == d,
        shown == d,
{
}

/// A duration of more than one week is refused as too long, whether or not a
/// start time was set before it: whatever `builder`, `set_start_time`,
/// `expires_in` and `build` return in turn, the last is that error.
pub proof fn law_duration_over_limit_is_refused(
    d: Duration,
    start: Option<SystemTime>,
    fresh: PresigningConfigBuilder,
    started: PresigningConfigBuilder,
    chosen: PresigningConfigBuilder,
    built: Result<PresigningConfig, PresigningConfigError>,
)
    requires
        !within_limit(d),
        call_ensures(PresigningConfig::builder, (), fresh),
        started@ == fresh@.with_start_time(start),
        call_ensures(PresigningConfigBuilder::expires_in, (started, d), chosen),
        call_ensures(PresigningConfigBuilder::build, (chosen,), built),
    ensures
        built matches Err(error) && error@ == ErrorKind::ExpiresInDurationTooLong,
{
}

/// A builder that was given no duration is refused for want of one, whether
/// or not a start time was set: whatever `builder` and `build` return in turn,
/// the last is that error.
pub proof fn law_missing_duration_is_refused(
    start: Option<SystemTime>,
    fresh: PresigningConfigBuilder,
    started: PresigningConfigBuilder,
    built: Result<PresigningConfig, PresigningConfigError>,
)
    requires
        call_ensures(PresigningConfig::builder, (), fresh),
        started@ == fresh@.with_start_time(start),
        call_ensures(PresigningConfigBuilder::build, (started,), built),
    ensures
        built matches Err(error) && error@ == ErrorKind::ExpiresInRequired,
{
}

/// A start time that was set is the configuration's start time, whatever the
/// clock reads: whatever `builder`, `start_time`, `expires_in` and `build`
/// return in turn, the last is a configuration, and `start_time` returns that
/// time for it.
pub proof fn law_explicit_start_time_is_kept(
    t: SystemTime,
    d: Duration,
    fresh: PresigningConfigBuilder,
    started: PresigningConfigBuilder,
    chosen: PresigningConfigBuilder,
    config: PresigningConfig,
    built: Result<PresigningConfig, PresigningConfigError>,
    shown: SystemTime,
)
    requires
        within_limit(d),
        call_ensures(PresigningConfig::builder, (), fresh),
        call_ensures(PresigningConfigBuilder::start_time, (fresh, t), started),
        call_ensures(PresigningConfigBuilder::expires_in, (started, d), chosen),
        call_ensures(PresigningConfigBuilder::build, (chosen,), built),
        built is Ok ==> built == Ok::<PresigningConfig, PresigningConfigError>(config),
        call_ensures(PresigningConfig::start_time, (&config,), shown),
    ensures
        built is Ok,
        config@ == (ValidityWindow { start_time: t, expires_in: d }),
        shown == t,
{
}

/// The shortcut does what the builder does with a duration and nothing else:
/// whatever `PresigningConfig::expires_in` returns for a duration, and `build`
/// for a fresh builder that was given it, both are configurations that hold
/// it, or both are refused as too long.
pub proof fn law_shortcut_builds_the_same(
    d: Duration,
    fresh: PresigningConfigBuilder,
    chosen: PresigningConfigBuilder,
    built: Result<PresigningConfig, PresigningConfigError>,
    shortcut: Result<PresigningConfig, PresigningConfigError>,
)
    requires
        call_ensures(PresigningConfig::builder, (), fresh),
        call_ensures(PresigningConfigBuilder::expires_in, (fresh, d), chosen),
        call_ensures(PresigningConfigBuilder::build, (chosen,), built),
        call_ensures(PresigningConfig::expires_in, (d,), shortcut),
    ensures
        built is Ok <==> shortcut is Ok,
        built is Ok <==> within_limit(d),
        built matches Ok(config) ==> config@.expires_in == d && shortcut->Ok_0@.expires_in == d,
        built matches Err(error) ==> error@ == ErrorKind::ExpiresInDurationTooLong
            && shortcut->Err_0@ == error@,
{
}

/// With the clock's reading in hand the outcome of a build is fixed, and
/// `build` returns one of those outcomes: the same failure as `build_at`
/// whatever the clock reads, and else a configuration that differs from it in
/// the start time at most, and in that only where none was set.
pub proof fn law_build_follows_build_at(
    builder: PresigningConfigBuilder,
    now: SystemTime,
    built: Result<PresigningConfig, PresigningConfigError>,
    built_at: Result<PresigningConfig, PresigningConfigError>,
)
    requires
        call_ensures(PresigningConfigBuilder::build, (builder,), built),
        call_ensures(PresigningConfigBuilder::build_at, (builder, now), built_at),
    ensures
        built is Err <==> built_at is Err,
        built matches Err(error) ==> outcome_of(built) == outcome_of(built_at),
        built matches Ok(config) ==> config@.expires_in == built_at->Ok_0@.expires_in,
        built is Ok && builder@.start_time is Some ==> outcome_of(built) == outcome_of(built_at),
{
}

} // verus!
