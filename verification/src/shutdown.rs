use vstd::prelude::*;
use std::time::{Duration, SystemTime, SystemTimeError, UNIX_EPOCH};

verus! {

/// A point of the wall clock, carried through opaque.
#[verifier::external_type_specification]
#[verifier::external_body]
pub struct ExSystemTime(SystemTime);

/// The error of a wall-clock point that lies before the Unix epoch, carried through opaque.
#[verifier::external_type_specification]
#[verifier::external_body]
pub struct ExSystemTimeError(SystemTimeError);

/// `SystemTime::now`: the current point of the wall clock. Nothing is promised of it.
#[verifier::external_body]
fn system_time_now() -> (t: SystemTime) {
    SystemTime::now()
}

/// `SystemTime::duration_since(UNIX_EPOCH)`: how long after the Unix epoch `t` lies, or an
/// error when it lies before. Nothing is stated of the duration.
#[verifier::external_body]
fn since_unix_epoch(t: SystemTime) -> (r: Result<Duration, SystemTimeError>) {
    t.duration_since(UNIX_EPOCH)
}

/// `Duration::as_millis`: the whole milliseconds of `d`. `Duration` is opaque here, so
/// nothing is stated of the number.
#[verifier::external_body]
fn duration_as_millis(d: Duration) -> (ms: u128) {
    d.as_millis()
}

/// The milliseconds since the Unix epoch cut to 64 bits, from the whole milliseconds of the
/// clock's distance to the epoch (`None` when the clock stands before it, which gives 0).
pub open spec fn millis_value(since_epoch_ms: Option<u128>) -> u64 {
    match since_epoch_ms {
        Some(m) => (m % 0x1_0000_0000_0000_0000u128) as u64,
        None => 0,
    }
}

/// The time value kept by the shutdown state, from the whole milliseconds since the Unix
/// epoch (see `millis_value`).
pub fn millis_from_clock(since_epoch_ms: Option<u128>) -> (ms: u64)
    ensures
        ms == millis_value(since_epoch_ms),
{
    match since_epoch_ms {
        Some(m) => {
            let low: u128 = m % 0x1_0000_0000_0000_0000u128;
            low as u64
        },
        None => 0,
    }
}

/// The milliseconds since the Unix epoch by the wall clock, cut to 64 bits; 0 when the clock
/// stands before the epoch (see `millis_from_clock`). Which value that is depends on the
/// clock.
pub fn current_time_millis() -> (ms: u64) {
    let since_epoch_ms: Option<u128> = match since_unix_epoch(system_time_now()) {
        Ok(d) => Some(duration_as_millis(d)),
        Err(_) => None,
    };
    millis_from_clock(since_epoch_ms)
}

/// How the application stands: running, stopping in one of three ways, or stopped.
#[derive(Debug, Clone, Copy, PartialEq, Eq, Structural)]
pub enum ShutdownType {
    Running,
    Stoped,
    SmartStop,
    FastStop,
    ImmediateStop,
}

/// The number of a shutdown type.
pub open spec fn shutdown_type_number(t: ShutdownType) -> i32 {
    match t {
        ShutdownType::Running => 0,
        ShutdownType::Stoped => 1,
        ShutdownType::SmartStop => 2,
        ShutdownType::FastStop => 3,
        ShutdownType::ImmediateStop => 4,
    }
}

/// The shutdown type of a number; an unknown number means running.
pub open spec fn shutdown_type_of(value: i32) -> ShutdownType {
    if value == 1 {
        ShutdownType::Stoped
    } else if value == 2 {
        ShutdownType::SmartStop
    } else if value == 3 {
        ShutdownType::FastStop
    } else if value == 4 {
        ShutdownType::ImmediateStop
    } else {
        ShutdownType::Running
    }
}

/// Whether a shutdown type is one of the three ways of stopping.
pub open spec fn is_stopping_type(t: ShutdownType) -> bool {
    t is SmartStop || t is FastStop || t is ImmediateStop
}

impl ShutdownType {
    /// The shutdown type of a number; an unknown number means running.
    pub fn from_int(value: i32) -> (t: ShutdownType)
        ensures
            t == shutdown_type_of(value),
    {
        match value {
            0 => ShutdownType::Running,
            1 => ShutdownType::Stoped,
            2 => ShutdownType::SmartStop,
            3 => ShutdownType::FastStop,
            4 => ShutdownType::ImmediateStop,
            _ => ShutdownType::Running,
        }
    }

    /// The number of this shutdown type.
    pub fn to_int(self) -> (n: i32)
        ensures
            n == shutdown_type_number(self),
    {
        match self {
            ShutdownType::Running => 0,
            ShutdownType::Stoped => 1,
            ShutdownType::SmartStop => 2,
            ShutdownType::FastStop => 3,
            ShutdownType::ImmediateStop => 4,
        }
    }

    /// Whether this is one of the three ways of stopping.
    pub fn is_stopping(self) -> (b: bool)
        ensures
            b == is_stopping_type(self),
    {
        match self {
            ShutdownType::SmartStop => true,
            ShutdownType::FastStop => true,
            ShutdownType::ImmediateStop => true,
            _ => false,
        }
    }
}

/// Reading a shutdown type back from its number gives the same type.
pub proof fn lemma_shutdown_type_round_trip(t: ShutdownType)
    ensures
        shutdown_type_of(shutdown_type_number(t)) == t,
{
}

/// The shutdown state of an application: how it stands, its exit code and message, and when
/// the shutdown began and ended, in milliseconds since the Unix epoch (0 for not set).
///
/// A clone is a state of its own: a later change to one is not seen by the other. Parts of
/// the application that must see the same state borrow the one in the context rather than
/// keep clones.
#[derive(Debug, Clone)]
pub struct AppShutdown {
    shutdown_type: ShutdownType,
    code: i32,
    message: Option<String>,
    start_time_ms: u64,
    end_time_ms: u64,
}

/// What a shutdown state holds.
pub struct AppShutdownView {
    pub kind: ShutdownType,
    pub code: i32,
    pub message: Option<Seq<char>>,
    pub start_time_ms: u64,
    pub end_time_ms: u64,
}

/// The view of an optional text.
pub open spec fn message_view(m: Option<String>) -> Option<Seq<char>> {
    match m {
        Some(s) => Some(s@),
        None => None,
    }
}

impl View for AppShutdown {
    type V = AppShutdownView;

    closed spec fn view(&self) -> AppShutdownView {
        AppShutdownView {
            kind: self.shutdown_type,
            code: self.code,
            message: message_view(self.message),
            start_time_ms: self.start_time_ms,
            end_time_ms: self.end_time_ms,
        }
    }
}

/// The state after a shutdown of kind `kind` was asked for at `now`: nothing changes when one
/// of that kind is already under way; otherwise it begins at `now` and has no end yet.
pub open spec fn begin_shutdown(s: AppShutdownView, kind: ShutdownType, now: u64) -> AppShutdownView {
    if s.kind == kind {
        s
    } else {
        AppShutdownView { kind, start_time_ms: now, end_time_ms: 0, ..s }
    }
}

/// The state after the application stopped at `now`: nothing changes when it had stopped
/// already; otherwise it is stopped and ended at `now`.
pub open spec fn finish_shutdown(s: AppShutdownView, now: u64) -> AppShutdownView {
    if s.kind == ShutdownType::Stoped {
        s
    } else {
        AppShutdownView { kind: ShutdownType::Stoped, end_time_ms: now, ..s }
    }
}

/// The state after the application was stopped at `now` with `code`, and `message` when there
/// is one (otherwise the message stays).
pub open spec fn stopped_with(s: AppShutdownView, code: i32, message: Option<Seq<char>>, now: u64) -> AppShutdownView {
    finish_shutdown(
        AppShutdownView {
            code,
            message: match message { Some(m) => Some(m), None => s.message },
            ..s
        },
        now,
    )
}

/// When the application ended, once it has stopped with an end set.
pub open spec fn end_time_of(s: AppShutdownView) -> Option<u64> {
    if s.end_time_ms == 0 || s.kind != ShutdownType::Stoped {
        None
    } else {
        Some(s.end_time_ms)
    }
}

fn clone_text(m: &Option<String>) -> (r: Option<String>)
    ensures
        r == *m,
{
    match m {
        Some(s) => Some(s.clone()),
        None => None,
    }
}

impl Default for AppShutdown {
    /// A running application with code 0, no message and no times.
    fn default() -> (s: Self)
        ensures
            s@.kind == ShutdownType::Running,
            s@.code == 0,
            s@.message is None,
            s@.start_time_ms == 0,
            s@.end_time_ms == 0,
    {
        AppShutdown { shutdown_type: ShutdownType::Running, code: 0, message: None, start_time_ms: 0, end_time_ms: 0 }
    }
}

impl AppShutdown {
    /// How the application stands.
    pub fn get_type(&self) -> (t: ShutdownType)
        ensures
            t == self@.kind,
    {
        self.shutdown_type
    }

    /// Sets how the application stands, and nothing else.
    pub fn set_type(&mut self, shutdown_type: ShutdownType)
        ensures
            final(self)@ == (AppShutdownView { kind: shutdown_type, ..old(self)@ }),
    {
        self.shutdown_type = shutdown_type;
    }

    /// Sets the exit code, and nothing else.
    pub fn set_code(&mut self, code: i32)
        ensures
            final(self)@ == (AppShutdownView { code, ..old(self)@ }),
    {
        self.code = code;
    }

    /// Sets the message, and nothing else.
    pub fn set_message(&mut self, message: String)
        ensures
            final(self)@ == (AppShutdownView { message: Some(message@), ..old(self)@ }),
    {
        self.message = Some(message);
    }

    /// Marks the application stopped at `now`, unless it had stopped already.
    pub fn to_stoped_at(&mut self, now: u64)
        ensures
            final(self)@ == finish_shutdown(old(self)@, now),
    {
        if self.shutdown_type == ShutdownType::Stoped {
            return;
        }
        self.shutdown_type = ShutdownType::Stoped;
        self.end_time_ms = now;
    }

    /// Marks the application stopped now by the wall clock, unless it had stopped already.
    pub fn to_stoped(&mut self)
        ensures
            exists|now: u64| final(self)@ == finish_shutdown(old(self)@, now),
    {
        let now = current_time_millis();
        self.to_stoped_at(now);
    }

    /// Begins a shutdown of kind `kind` at `now`, unless one of that kind is under way.
    fn begin_at(&mut self, kind: ShutdownType, now: u64)
        ensures
            final(self)@ == begin_shutdown(old(self)@, kind, now),
    {
        if self.shutdown_type == kind {
            return;
        }
        self.shutdown_type = kind;
        self.start_time_ms = now;
        self.end_time_ms = 0;
    }

    /// Begins a smart stop at `now`, unless one is under way.
    pub fn shutdown_smart_at(&mut self, now: u64)
        ensures
            final(self)@ == begin_shutdown(old(self)@, ShutdownType::SmartStop, now),
    {
        self.begin_at(ShutdownType::SmartStop, now);
    }

    /// Begins a fast stop at `now`, unless one is under way.
    pub fn shutdown_fast_at(&mut self, now: u64)
        ensures
            final(self)@ == begin_shutdown(old(self)@, ShutdownType::FastStop, now),
    {
        self.begin_at(ShutdownType::FastStop, now);
    }

    /// Begins an immediate stop at `now`, unless one is under way.
    pub fn shutdown_immediate_at(&mut self, now: u64)
        ensures
            final(self)@ == begin_shutdown(old(self)@, ShutdownType::ImmediateStop, now),
    {
        self.begin_at(ShutdownType::ImmediateStop, now);
    }

    /// Begins a smart stop now by the wall clock, unless one is under way.
    pub fn shutdown_smart(&mut self)
        ensures
            exists|now: u64| final(self)@ == begin_shutdown(old(self)@, ShutdownType::SmartStop, now),
    {
        let now = current_time_millis();
        self.shutdown_smart_at(now);
    }

    /// Begins a fast stop now by the wall clock, unless one is under way.
    pub fn shutdown_fast(&mut self)
        ensures
            exists|now: u64| final(self)@ == begin_shutdown(old(self)@, ShutdownType::FastStop, now),
    {
        let now = current_time_millis();
        self.shutdown_fast_at(now);
    }

    /// Begins an immediate stop now by the wall clock, unless one is under way.
    pub fn shutdown_immediate(&mut self)
        ensures
            exists|now: u64| final(self)@ == begin_shutdown(old(self)@, ShutdownType::ImmediateStop, now),
    {
        let now = current_time_millis();
        self.shutdown_immediate_at(now);
    }

    /// Whether the application runs.
    pub fn is_running(&self) -> (b: bool)
        ensures
            b == (self@.kind == ShutdownType::Running),
    {
        self.shutdown_type == ShutdownType::Running
    }

    /// Whether a smart stop is under way.
    pub fn is_smart_stop(&self) -> (b: bool)
        ensures
            b == (self@.kind == ShutdownType::SmartStop),
    {
        self.shutdown_type == ShutdownType::SmartStop
    }

    /// Whether a fast stop is under way.
    pub fn is_fast_stop(&self) -> (b: bool)
        ensures
            b == (self@.kind == ShutdownType::FastStop),
    {
        self.shutdown_type == ShutdownType::FastStop
    }

    /// Whether an immediate stop is under way.
    pub fn is_immediate_stop(&self) -> (b: bool)
        ensures
            b == (self@.kind == ShutdownType::ImmediateStop),
    {
        self.shutdown_type == ShutdownType::ImmediateStop
    }

    /// Whether the application has stopped.
    pub fn is_stoped(&self) -> (b: bool)
        ensures
            b == (self@.kind == ShutdownType::Stoped),
    {
        self.shutdown_type == ShutdownType::Stoped
    }

    /// Whether one of the three ways of stopping is under way.
    pub fn is_stoping(&self) -> (b: bool)
        ensures
            b == is_stopping_type(self@.kind),
    {
        self.shutdown_type.is_stopping()
    }

    /// The exit code.
    pub fn get_code(&self) -> (c: i32)
        ensures
            c == self@.code,
    {
        self.code
    }

    /// The message, when one was set.
    pub fn get_message(&self) -> (m: Option<String>)
        ensures
            message_view(m) == self@.message,
    {
        clone_text(&self.message)
    }

    /// When the shutdown began (0 for never).
    pub fn get_start_time(&self) -> (t: u64)
        ensures
            t == self@.start_time_ms,
    {
        self.start_time_ms
    }

    /// When the application ended, once it has stopped with an end set.
    pub fn get_end_time(&self) -> (t: Option<u64>)
        ensures
            t == end_time_of(self@),
    {
        if self.end_time_ms == 0 || !self.is_stoped() {
            None
        } else {
            Some(self.end_time_ms)
        }
    }

    /// How long the shutdown took, in milliseconds, once the application has stopped with an
    /// end set.
    pub fn get_duration(&self) -> (d: Option<u64>)
        requires
            end_time_of(self@) is Some ==> self@.start_time_ms <= self@.end_time_ms,
        ensures
            d == (match end_time_of(self@) {
                Some(end) => Some((end - self@.start_time_ms) as u64),
                None => None::<u64>,
            }),
    {
        match self.get_end_time() {
            Some(end) => Some(end - self.start_time_ms),
            None => None,
        }
    }

    /// Stops the application at `now` with `code`, and `message` when there is one.
    pub fn stop_at(&mut self, code: i32, message: Option<String>, now: u64)
        ensures
            final(self)@ == stopped_with(old(self)@, code, message_view(message), now),
    {
        self.set_code(code);
        match message {
            Some(msg) => self.set_message(msg),
            None => {},
        }
        self.to_stoped_at(now);
    }

    /// Stops the application now by the wall clock with `code`, and `message` when there is
    /// one.
    pub fn stop(&mut self, code: i32, message: Option<String>)
        ensures
            exists|now: u64| final(self)@ == #[trigger] stopped_with(old(self)@, code, message_view(message), now),
    {
        let now = current_time_millis();
        self.stop_at(code, message, now);
    }
}

/// Asking twice for the same kind of shutdown is the same as asking once: the second request
/// keeps the time of the first.
pub proof fn lemma_begin_shutdown_idempotent(s: AppShutdownView, kind: ShutdownType, t1: u64, t2: u64)
    ensures
        begin_shutdown(begin_shutdown(s, kind, t1), kind, t2) == begin_shutdown(s, kind, t1),
{
}

/// Stopping twice is the same as stopping once: the second stop keeps the first end time.
pub proof fn lemma_finish_shutdown_idempotent(s: AppShutdownView, t1: u64, t2: u64)
    ensures
        finish_shutdown(finish_shutdown(s, t1), t2) == finish_shutdown(s, t1),
{
}

/// Once stopped with a nonzero end time, the end time can be read back.
pub proof fn lemma_end_time_after_stop(s: AppShutdownView, now: u64)
    requires
        s.kind != ShutdownType::Stoped,
        now != 0,
    ensures
        end_time_of(finish_shutdown(s, now)) == Some(now),
{
}

/// The shutdown state as it is handed to a plugin written in C: the kind as its number, the
/// exit code, the message and the two times.
#[derive(Debug, Clone)]
pub struct CAppShutdown {
    pub shutdown_type: i32,
    pub code: i32,
    pub message: Option<String>,
    pub start_time_ms: u64,
    pub end_time_ms: u64,
}

/// The fields of a shutdown state for C: the number of its kind, its code, its message and its
/// two times.
pub open spec fn c_fields(s: AppShutdownView) -> (i32, i32, Option<Seq<char>>, u64, u64) {
    (shutdown_type_number(s.kind), s.code, s.message, s.start_time_ms, s.end_time_ms)
}

/// The fields of a shutdown state for C, with the message taken by its view.
pub open spec fn c_struct_fields(c: CAppShutdown) -> (i32, i32, Option<Seq<char>>, u64, u64) {
    (c.shutdown_type, c.code, message_view(c.message), c.start_time_ms, c.end_time_ms)
}

/// The shutdown state read from its fields for C; an unknown kind number means running.
pub open spec fn from_c_fields(f: (i32, i32, Option<Seq<char>>, u64, u64)) -> AppShutdownView {
    AppShutdownView { kind: shutdown_type_of(f.0), code: f.1, message: f.2, start_time_ms: f.3, end_time_ms: f.4 }
}

impl AppShutdown {
    /// The state laid out for a plugin written in C.
    pub fn as_c_struct(&self) -> (c: CAppShutdown)
        ensures
            c_struct_fields(c) == c_fields(self@),
    {
        CAppShutdown {
            shutdown_type: self.shutdown_type.to_int(),
            code: self.code,
            message: clone_text(&self.message),
            start_time_ms: self.start_time_ms,
            end_time_ms: self.end_time_ms,
        }
    }

    /// The state read back from its layout for C; an unknown kind number reads as running.
    pub fn from_c_struct(c_shutdown: &CAppShutdown) -> (s: Self)
        ensures
            s@ == from_c_fields(c_struct_fields(*c_shutdown)),
    {
        AppShutdown {
            shutdown_type: ShutdownType::from_int(c_shutdown.shutdown_type),
            code: c_shutdown.code,
            message: clone_text(&c_shutdown.message),
            start_time_ms: c_shutdown.start_time_ms,
            end_time_ms: c_shutdown.end_time_ms,
        }
    }
}

/// Reading back the layout for C of a shutdown state gives the same state.
pub proof fn lemma_c_struct_round_trip(s: AppShutdownView)
    ensures
        from_c_fields(c_fields(s)) == s,
{
}

} // verus!
