use vstd::prelude::*;

use crate::config::{deadline_fits, fits_all, millis, Config};

verus! {

/// Server state.
#[derive(Debug, Copy, Clone, Eq, PartialEq, Structural)]
pub enum State {
    /// Server is stopped.
    Stopped,

    /// Server is starting.
    Starting,

    /// Server is online and responding.
    Started,

    /// Server is stopping.
    Stopping,
}

impl State {
    /// Numeric code of this state, as an atomic register would store it.
    pub open spec fn code(self) -> u8 {
        match self {
            State::Stopped => 0,
            State::Starting => 1,
            State::Started => 2,
            State::Stopping => 3,
        }
    }

    /// From u8; only the four state codes are meaningful.
    pub fn from_u8(state: u8) -> (r: Self)
        requires
            state < 4,
        ensures
            r.code() == state,
    {
        match state {
            0 => Self::Stopped,
            1 => Self::Starting,
            2 => Self::Started,
            _ => Self::Stopping,
        }
    }

    /// To u8.
    pub fn to_u8(self) -> (r: u8)
        ensures
            r == self.code(),
    {
        match self {
            Self::Stopped => 0,
            Self::Starting => 1,
            Self::Started => 2,
            Self::Stopping => 3,
        }
    }
}

/// Last known status snapshot of the backing server, reduced to the plain
/// fields the lifecycle core reads.
#[derive(Debug, Copy, Clone, Eq, PartialEq, Structural)]
pub struct ServerStatus {
    /// Number of players currently online.
    pub players_online: u32,

    /// Player capacity the server reports.
    pub players_max: u32,
}

/// How the backing process came to its end.
#[derive(Debug, Copy, Clone, Eq, PartialEq, Structural)]
pub enum ExitOutcome {
    /// The process exited with a success code.
    Success,

    /// The process exited with a failure code.
    Failure,

    /// Waiting for the process failed, so its end could not be observed.
    WaitFailed,
}

/// Shared server state.
#[derive(Debug)]
pub struct Server {
    /// Server state.
    pub state: State,

    /// Server process PID.
    ///
    /// Set if a server process is running.
    pub pid: Option<u32>,

    /// Last known server status.
    ///
    /// Will remain set once known, not cleared if the server goes offline.
    pub status: Option<ServerStatus>,

    /// Last active time, in clock milliseconds.
    ///
    /// The last time there was activity on the server.  Also set at the
    /// moment the server comes online.
    pub last_active: Option<u64>,

    /// Force the server to stay online until this clock time.
    pub keep_online_until: Option<u64>,

    /// Clock time to force kill the server process at.
    ///
    /// Used as starting/stopping timeout.
    pub kill_at: Option<u64>,
}

/// The state a server register holds before anything happened.
pub open spec fn initial() -> Server {
    Server {
        state: State::Stopped,
        pid: None,
        status: None,
        last_active: None,
        keep_online_until: None,
        kill_at: None,
    }
}

/// A conditional transition takes effect: the current state matches the
/// expected one (when one is expected at all) and actually changes.
pub open spec fn transition_allowed(s: Server, from: Option<State>, new: State) -> bool {
    &&& (from is None || from == Some(s.state))
    &&& s.state != new
}

/// The kill deadline recomputed on every effective transition: set when
/// entering Starting or Stopping under a nonzero timeout, cleared otherwise.
pub open spec fn kill_deadline(c: Config, new: State, now: u64) -> Option<u64> {
    if new == State::Starting && c.start_timeout > 0 {
        Some((now + millis(c.start_timeout)) as u64)
    } else if new == State::Stopping && c.stop_timeout > 0 {
        Some((now + millis(c.stop_timeout)) as u64)
    } else {
        None
    }
}

/// The server after an effective transition to `new` at clock time `now`:
/// the kill deadline is recomputed, and on Starting -> Started the activity
/// baseline is refreshed and the minimum online time starts running.
pub open spec fn apply_transition(s: Server, c: Config, new: State, now: u64) -> Server {
    let stepped = Server { state: new, kill_at: kill_deadline(c, new, now), ..s };
    if s.state == State::Starting && new == State::Started {
        Server {
            last_active: Some(now),
            keep_online_until: if c.min_online_time > 0 {
                Some((now + millis(c.min_online_time)) as u64)
            } else {
                None
            },
            ..stepped
        }
    } else {
        stepped
    }
}

/// The cached status knows of at least one player online.
pub open spec fn players_online(s: Server) -> bool {
    match s.status {
        Some(st) => st.players_online > 0,
        None => false,
    }
}

/// The keep-online deadline still suppresses sleeping at clock time `now`.
pub open spec fn keep_online_active(s: Server, now: u64) -> bool {
    match s.keep_online_until {
        Some(k) => k >= now,
        None => false,
    }
}

/// Milliseconds elapsed since `then`, clamped at zero for a clock that
/// reads earlier than the recorded time.
pub open spec fn elapsed(then: u64, now: u64) -> int {
    if now >= then {
        now - then
    } else {
        0
    }
}

/// The idle-sleep decision: the server is online, nobody is playing, no
/// keep-online deadline is pending, and the last activity lies at least
/// the configured sleep-after duration in the past.  An unknown activity
/// baseline never sleeps.
pub open spec fn should_sleep_spec(s: Server, c: Config, now: u64) -> bool {
    &&& s.state == State::Started
    &&& !players_online(s)
    &&& !keep_online_active(s, now)
    &&& match s.last_active {
        Some(t) => elapsed(t, now) >= millis(c.sleep_after),
        None => false,
    }
}

/// The kill decision: a kill deadline is set and has passed.
pub open spec fn should_kill_spec(s: Server, now: u64) -> bool {
    match s.kill_at {
        Some(k) => k <= now,
        None => false,
    }
}

/// The server after a status report at clock time `now`: a present status
/// brings a stopped or starting server online, an absent one takes a
/// started server offline; a present status is cached unconditionally and
/// refreshes the activity baseline when players are online.
pub open spec fn status_step(s: Server, c: Config, status: Option<ServerStatus>, now: u64) -> Server {
    let stepped = if (s.state == State::Stopped || s.state == State::Starting) && status is Some {
        apply_transition(s, c, State::Started, now)
    } else if s.state == State::Started && status is None {
        apply_transition(s, c, State::Stopped, now)
    } else {
        s
    };
    match status {
        Some(st) => Server {
            status: Some(st),
            last_active: if st.players_online > 0 {
                Some(now)
            } else {
                stepped.last_active
            },
            ..stepped
        },
        None => stepped,
    }
}

impl Server {
    /// Get current state.
    pub fn state(&self) -> (r: State)
        ensures
            r == self.state,
    {
        self.state
    }

    /// Set a new state.
    ///
    /// This updates various other internal things depending on how the
    /// state changes.
    ///
    /// Returns false if the state didn't change, in which case nothing
    /// happens.
    fn update_state(&mut self, state: State, config: &Config, now: u64) -> (r: bool)
        requires
            fits_all(*config, now),
        ensures
            r == transition_allowed(*old(self), None, state),
            r ==> *final(self) == apply_transition(*old(self), *config, state, now),
            !r ==> *final(self) == *old(self),
    {
        self.update_state_from(None, state, config, now)
    }

    /// Set new state, from a current state.
    ///
    /// This updates various other internal things depending on how the
    /// state changes.
    ///
    /// Returns false if the current state didn't match `from` or if
    /// nothing changed; a failed attempt leaves the server untouched.
    fn update_state_from(&mut self, from: Option<State>, new: State, config: &Config, now: u64) -> (r:
        bool)
        requires
            fits_all(*config, now),
        ensures
            r == transition_allowed(*old(self), from, new),
            r ==> *final(self) == apply_transition(*old(self), *config, new, now),
            !r ==> *final(self) == *old(self),
    {
        // The expected state must match, or nothing may happen at all
        match from {
            Some(f) => {
                if self.state != f {
                    return false;
                }
            },
            None => {},
        }

        // State must be changed
        if self.state == new {
            return false;
        }
        let old_state = self.state;
        self.state = new;

        // Update kill at time for starting/stopping state
        self.kill_at = if new == State::Starting && config.start_timeout > 0 {
            Some(now + (config.start_timeout as u64) * 1000)
        } else if new == State::Stopping && config.stop_timeout > 0 {
            Some(now + (config.stop_timeout as u64) * 1000)
        } else {
            None
        };

        // If Starting -> Started, update active time and keep it online for
        // the configured time
        if old_state == State::Starting && new == State::Started {
            self.update_last_active(now);
            self.keep_online_for(config.min_online_time, now);
        }

        true
    }

    /// Update status as polled from the server.
    ///
    /// This updates various other internal things depending on the current
    /// state and the given status.  A report while the server is offline
    /// or starting brings it online; a missing report while it is online
    /// takes it offline; the cached status is sticky and only ever
    /// overwritten by a newer one.
    pub fn update_status(&mut self, config: &Config, status: Option<ServerStatus>, now: u64)
        requires
            fits_all(*config, now),
        ensures
            *final(self) == status_step(*old(self), *config, status, now),
            old(self).state == State::Started && status is None ==> final(self).state
                == State::Stopped && final(self).status == old(self).status,
            old(self).state == State::Stopped && status is Some ==> final(self).state
                == State::Started && final(self).status == status,
    {
        // Update state based on the current state and the given status
        match (self.state, &status) {
            (State::Stopped | State::Starting, Some(_)) => {
                self.update_state(State::Started, config, now);
            },
            (State::Started, None) => {
                self.update_state(State::Stopped, config, now);
            },
            _ => {},
        }

        // Update last status if known
        if let Some(st) = status {
            // Update last active time if there are online players
            if st.players_online > 0 {
                self.update_last_active(now);
            }
            self.status = Some(st);
        }
    }

    /// Try to admit a start of the server.
    ///
    /// Succeeds only on a stopped server: the Stopped -> Starting
    /// transition is the sole admission check preventing duplicate
    /// launches, so of any row of attempts on a stopped server exactly the
    /// first one returns true.  The caller that wins admission must launch
    /// one supervision task for the backing process.
    pub fn start(&mut self, config: &Config, now: u64) -> (r: bool)
        requires
            fits_all(*config, now),
        ensures
            r == (old(self).state == State::Stopped),
            r ==> *final(self) == apply_transition(*old(self), *config, State::Starting, now),
            !r ==> *final(self) == *old(self),
    {
        // Must set state from stopped to starting
        self.update_state_from(Some(State::Stopped), State::Starting, config, now)
    }

    /// Remember the PID of the spawned server process.
    pub fn set_pid(&mut self, pid: u32)
        ensures
            *final(self) == (Server { pid: Some(pid), ..*old(self) }),
    {
        self.pid = Some(pid);
    }

    /// Forget the server PID, once the process has been reaped.
    pub fn clear_pid(&mut self)
        ensures
            *final(self) == (Server { pid: None, ..*old(self) }),
    {
        self.pid = None;
    }

    /// The PID of the running server process, if one is known.
    pub fn pid(&self) -> (r: Option<u32>)
        ensures
            r == self.pid,
    {
        self.pid
    }

    /// Whether a server process is currently known to run.
    pub fn has_process(&self) -> (r: bool)
        ensures
            r == (self.pid is Some),
    {
        self.pid.is_some()
    }

    /// Classify the end of the backing process.
    ///
    /// Only a failure exit while the server was fully online counts as a
    /// crash: a failure while still starting does not, and an unobservable
    /// exit is treated as a clean stop since the process state cannot be
    /// trusted.
    pub fn classify_exit(&self, outcome: ExitOutcome) -> (crashed: bool)
        ensures
            crashed == (outcome == ExitOutcome::Failure && self.state == State::Started),
    {
        match outcome {
            ExitOutcome::Success => false,
            ExitOutcome::Failure => self.state == State::Started,
            ExitOutcome::WaitFailed => false,
        }
    }

    /// Conclude a reaped process: force the state to Stopped and decide
    /// whether the server must be started again.
    ///
    /// The transition is unconditional, so it takes effect even if the
    /// register is mid-Stopping.  A restart is owed exactly when the
    /// process crashed and restart-on-crash is configured.
    pub fn finish_exit(&mut self, config: &Config, crashed: bool, now: u64) -> (restart: bool)
        requires
            fits_all(*config, now),
        ensures
            final(self).state == State::Stopped,
            old(self).state != State::Stopped ==> *final(self) == apply_transition(
                *old(self),
                *config,
                State::Stopped,
                now,
            ),
            old(self).state == State::Stopped ==> *final(self) == *old(self),
            restart == (crashed && config.wake_on_crash),
    {
        // Set server state to stopped
        self.update_state(State::Stopped, config, now);

        // Restart on crash
        crashed && config.wake_on_crash
    }

    /// Whether the remote graceful stop may be attempted: only a fully
    /// online server with the remote administrative channel enabled.
    pub fn rcon_stop_applicable(&self, config: &Config) -> (r: bool)
        ensures
            r == (self.state == State::Started && config.rcon_enabled),
    {
        self.state == State::Started && config.rcon_enabled
    }

    /// Record that the remote graceful stop command was delivered: move to
    /// Stopping, starting the stop timeout.
    pub fn confirm_rcon_stop(&mut self, config: &Config, now: u64) -> (r: bool)
        requires
            fits_all(*config, now),
        ensures
            r == (old(self).state != State::Stopping),
            r ==> *final(self) == apply_transition(*old(self), *config, State::Stopping, now),
            !r ==> *final(self) == *old(self),
    {
        self.update_state(State::Stopping, config, now)
    }

    /// Record that the graceful termination signal was sent: move to
    /// Stopping from either Starting or Started, of which at most one can
    /// hold; any other state is left untouched.
    pub fn confirm_signal_stop(&mut self, config: &Config, now: u64) -> (r: bool)
        requires
            fits_all(*config, now),
        ensures
            r == (old(self).state == State::Starting || old(self).state == State::Started),
            r ==> *final(self) == apply_transition(*old(self), *config, State::Stopping, now),
            !r ==> *final(self) == *old(self),
    {
        // Update from starting/started to stopping
        let from_starting = self.update_state_from(
            Some(State::Starting),
            State::Stopping,
            config,
            now,
        );
        let from_started = self.update_state_from(
            Some(State::Started),
            State::Stopping,
            config,
            now,
        );
        from_starting || from_started
    }

    /// Decide whether the server should sleep.
    ///
    /// Always returns false if it is currently not online.
    pub fn should_sleep(&self, config: &Config, now: u64) -> (r: bool)
        ensures
            r == should_sleep_spec(*self, *config, now),
    {
        // Server must be online
        if self.state != State::Started {
            return false;
        }

        // Never sleep if players are online
        let online = match &self.status {
            Some(st) => st.players_online > 0,
            None => false,
        };
        if online {
            return false;
        }

        // Don't sleep when keep online until isn't expired
        let keep_online = match self.keep_online_until {
            Some(k) => k >= now,
            None => false,
        };
        if keep_online {
            return false;
        }

        // Last active time must have passed the sleep threshold
        match self.last_active {
            Some(t) => {
                let idle: u64 = if now >= t {
                    now - t
                } else {
                    0
                };
                idle >= (config.sleep_after as u64) * 1000
            },
            None => false,
        }
    }

    /// Decide whether to force kill the server process.
    pub fn should_kill(&self, now: u64) -> (r: bool)
        ensures
            r == should_kill_spec(*self, now),
    {
        match self.kill_at {
            Some(k) => k <= now,
            None => false,
        }
    }

    /// Read the last known server status.
    pub fn status(&self) -> (r: Option<ServerStatus>)
        ensures
            r == self.status,
    {
        self.status
    }

    /// Update the last active time.
    fn update_last_active(&mut self, now: u64)
        ensures
            *final(self) == (Server { last_active: Some(now), ..*old(self) }),
    {
        self.last_active = Some(now);
    }

    /// Force the server to be online for the given number of seconds.
    fn keep_online_for(&mut self, duration: u32, now: u64)
        requires
            deadline_fits(now, duration),
        ensures
            *final(self) == (Server {
                keep_online_until: if duration > 0 {
                    Some((now + millis(duration)) as u64)
                } else {
                    None
                },
                ..*old(self)
            }),
    {
        self.keep_online_until = if duration > 0 {
            Some(now + (duration as u64) * 1000)
        } else {
            None
        };
    }
}

/// How many of a row of start attempts at the given clock times win
/// admission, each attempt seeing the server the previous ones left.
pub open spec fn start_attempt_successes(s: Server, c: Config, times: Seq<u64>) -> nat
    decreases times.len(),
{
    if times.len() == 0 {
        0
    } else {
        let won = transition_allowed(s, Some(State::Stopped), State::Starting);
        let next = if won {
            apply_transition(s, c, State::Starting, times[0])
        } else {
            s
        };
        (if won {
            1nat
        } else {
            0nat
        }) + start_attempt_successes(next, c, times.drop_first())
    }
}

/// On a server that is not stopped, no row of start attempts ever wins
/// admission.
pub proof fn lemma_start_admission_blocked(s: Server, c: Config, times: Seq<u64>)
    requires
        s.state != State::Stopped,
    ensures
        start_attempt_successes(s, c, times) == 0,
    decreases times.len(),
{
    if times.len() > 0 {
        lemma_start_admission_blocked(s, c, times.drop_first());
    }
}

/// Of any row of start attempts on a stopped server, exactly one wins
/// admission — the first — and so launches exactly one supervision task;
/// every other attempt returns false and leaves the server untouched.
pub proof fn lemma_start_admission_exclusive(s: Server, c: Config, times: Seq<u64>)
    requires
        s.state == State::Stopped,
        times.len() > 0,
    ensures
        transition_allowed(s, Some(State::Stopped), State::Starting),
        start_attempt_successes(s, c, times) == 1,
{
    let next = apply_transition(s, c, State::Starting, times[0]);
    assert(next.state == State::Starting);
    lemma_start_admission_blocked(next, c, times.drop_first());
}

/// A conditional transition whose expected state does not match the
/// current one is not allowed to apply, so it mutates nothing.
pub proof fn lemma_mismatched_transition_refused(s: Server, from: State, new: State)
    requires
        s.state != from,
    ensures
        !transition_allowed(s, Some(from), new),
{
}

/// Right after the Starting -> Started transition the keep-online deadline
/// suppresses sleeping for the whole configured minimum online time,
/// whatever the cached status says.
pub proof fn lemma_min_online_blocks_sleep(s: Server, c: Config, now: u64, later: u64)
    requires
        s.state == State::Starting,
        c.min_online_time > 0,
        fits_all(c, now),
        now <= later <= now + millis(c.min_online_time),
    ensures
        !should_sleep_spec(apply_transition(s, c, State::Started, now), c, later),
{
}

/// Right after the Starting -> Started transition the refreshed activity
/// baseline alone suppresses sleeping until the sleep-after duration has
/// elapsed, even with no player online and no keep-online deadline.
pub proof fn lemma_fresh_activity_blocks_sleep(s: Server, c: Config, now: u64, later: u64)
    requires
        s.state == State::Starting,
        fits_all(c, now),
        now <= later < now + millis(c.sleep_after),
    ensures
        !should_sleep_spec(apply_transition(s, c, State::Started, now), c, later),
{
}

/// With at least one player online per the cached status, the server never
/// sleeps, however long it has been idle.
pub proof fn lemma_players_block_sleep(s: Server, c: Config, now: u64)
    requires
        players_online(s),
    ensures
        !should_sleep_spec(s, c, now),
{
}

/// A set kill deadline divides the clock exactly: the kill decision is
/// false strictly before it and true at and after it.
pub proof fn lemma_kill_deadline_checked(s: Server, k: u64, now: u64)
    requires
        s.kill_at == Some(k),
    ensures
        should_kill_spec(s, now) == (now >= k),
{
}

/// Winning start admission under a nonzero start timeout sets the kill
/// deadline that exact duration into the future, and the kill decision
/// flips from false to true precisely there.
pub proof fn lemma_kill_deadline_after_admission(s: Server, c: Config, now: u64, later: u64)
    requires
        c.start_timeout > 0,
        fits_all(c, now),
    ensures
        apply_transition(s, c, State::Starting, now).kill_at == Some(
            (now + millis(c.start_timeout)) as u64,
        ),
        should_kill_spec(apply_transition(s, c, State::Starting, now), later) == (later >= now
            + millis(c.start_timeout)),
{
}

/// Leaving Starting or Stopping for Started or Stopped clears the kill
/// deadline, so the kill decision reverts to false for good.
pub proof fn lemma_kill_deadline_cleared(s: Server, c: Config, new: State, now: u64, later: u64)
    requires
        new == State::Started || new == State::Stopped,
    ensures
        apply_transition(s, c, new, now).kill_at is None,
        !should_kill_spec(apply_transition(s, c, new, now), later),
{
}

impl Default for Server {
    /// A fresh register: stopped, with no process, status, activity or
    /// deadline known.
    fn default() -> (r: Self)
        ensures
            r == initial(),
    {
        Self {
            state: State::Stopped,
            pid: None,
            status: None,
            last_active: None,
            keep_online_until: None,
            kill_at: None,
        }
    }
}

} // verus!
