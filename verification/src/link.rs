//! The network bring-up sequencer.
//!
//! The sequencer runs once at startup and gates everything that serves: it
//! walks a fixed order of initialization steps - radio hardware and firmware,
//! power-management policy, static IP configuration, the random seed for the
//! packet stack - and then attempts wireless association in a loop.  A failed
//! attempt is logged and retried after a fixed delay, indefinitely: an
//! unreachable network is a transient environmental condition, not a fatal
//! error, for a headless device with no other recovery path.  The loop exits
//! only on successful association, and no connection worker starts before
//! that.
//!
//! The surrounding program performs each hardware exchange and feeds its
//! outcome back in; the sequencer decides what comes next.

use vstd::prelude::*;

verus! {

/// Fixed delay between association attempts, in milliseconds.
pub const JOIN_RETRY_DELAY_MS: u64 = 100;

/// The wireless network identity the sequencer associates with; a
/// compile-time configuration constant, as is the passphrase.
pub const WIFI_SSID: &'static str = "sensor-net";

/// The pre-shared credentials for association.
pub const WIFI_PASSPHRASE: &'static str = "change-me-before-flashing";

/// The statically assigned IPv4 configuration: no DHCP negotiation happens
/// in this design, so the address, prefix and gateway are fixed values the
/// bring-up sequencer hands to the IP layer.
#[derive(Clone, Copy, PartialEq, Eq, Debug)]
pub struct StaticIpV4 {
    pub address: (u8, u8, u8, u8),
    pub prefix_len: u8,
    pub gateway: (u8, u8, u8, u8),
}

impl StaticIpV4 {
    /// The node's fixed address, prefix and gateway.
    pub fn node_default() -> (c: StaticIpV4)
        ensures
            c == (StaticIpV4 {
                address: (192, 168, 1, 113),
                prefix_len: 24,
                gateway: (192, 168, 1, 254),
            }),
    {
        StaticIpV4 { address: (192, 168, 1, 113), prefix_len: 24, gateway: (192, 168, 1, 254) }
    }
}

/// Where the bring-up sequence stands.
#[derive(Clone, Copy, PartialEq, Eq, Structural, Debug)]
pub enum Phase {
    /// Radio hardware and firmware blobs are being initialized.
    RadioInit,
    /// The power-management policy is being applied.
    PowerConfig,
    /// The IP layer is being configured with the static address.
    IpConfig,
    /// The packet stack is being seeded and started.
    SeedInit,
    /// Association attempts are running.
    Associating,
    /// Association succeeded; serving may start.
    Joined,
}

/// The association state of the wireless link, derived from the phase.
#[derive(Clone, Copy, PartialEq, Eq, Structural, Debug)]
pub enum LinkState {
    Disconnected,
    Joining,
    Joined,
}

/// Outcome of the exchange the sequencer asked for.
#[derive(Clone, Copy, PartialEq, Eq, Structural, Debug)]
pub enum BringUpEvent {
    /// The requested initialization step completed.
    StepDone,
    /// The association attempt succeeded.
    JoinOk,
    /// The association attempt was rejected, with the driver's status code.
    JoinFailed(u32),
}

/// What the sequencer asks the surrounding program to do next.
#[derive(Clone, Copy, PartialEq, Eq, Structural, Debug)]
pub enum BringUpAction {
    /// Apply the power-management policy.
    ConfigurePower,
    /// Configure the IP layer with the static address, prefix and gateway.
    ConfigureIp,
    /// Generate the random seed and start the packet stack.
    SeedStack,
    /// Attempt association with the configured identity and credentials.
    AttemptJoin,
    /// Log the failure, wait the given number of milliseconds, then attempt
    /// association again.
    RetryJoinAfterDelay(u64),
    /// Bring-up is complete: spawn the poll loop and the worker pool.
    StartServing,
}

/// The bring-up sequencer: its phase and how many association attempts have
/// failed so far.
#[derive(Clone, Copy, PartialEq, Eq, Structural, Debug)]
pub struct BringUp {
    pub phase: Phase,
    pub attempts: u64,
}

impl BringUp {
    /// The link state the sequencer has established.
    pub open spec fn link_state(self) -> LinkState {
        match self.phase {
            Phase::Associating => LinkState::Joining,
            Phase::Joined => LinkState::Joined,
            _ => LinkState::Disconnected,
        }
    }

    /// Whether serving tasks may be spawned: only once association has
    /// succeeded.
    pub open spec fn may_serve(self) -> bool {
        self.phase is Joined
    }

    /// Which events the surrounding program can hand the sequencer in its
    /// current phase: association outcomes while associating, completion of
    /// the requested step elsewhere, nothing once joined.
    pub open spec fn event_fits(self, ev: BringUpEvent) -> bool {
        match self.phase {
            Phase::Associating => ev is JoinOk || ev is JoinFailed,
            Phase::Joined => false,
            _ => ev is StepDone,
        }
    }

    /// The sequencer as it stands at power-on, before any hardware exchange.
    /// The surrounding program's first duty is the radio initialization.
    pub fn start() -> (s: BringUp)
        ensures
            s == (BringUp { phase: Phase::RadioInit, attempts: 0 }),
    {
        BringUp { phase: Phase::RadioInit, attempts: 0 }
    }

    /// The transition relation: from a state and an event to the next state
    /// and the action the surrounding program performs next.
    pub open spec fn spec_step(self, ev: BringUpEvent) -> (BringUp, BringUpAction) {
        match self.phase {
            Phase::RadioInit => (
                BringUp { phase: Phase::PowerConfig, ..self },
                BringUpAction::ConfigurePower,
            ),
            Phase::PowerConfig => (
                BringUp { phase: Phase::IpConfig, ..self },
                BringUpAction::ConfigureIp,
            ),
            Phase::IpConfig => (BringUp { phase: Phase::SeedInit, ..self }, BringUpAction::SeedStack),
            Phase::SeedInit => (
                BringUp { phase: Phase::Associating, ..self },
                BringUpAction::AttemptJoin,
            ),
            Phase::Associating => match ev {
                BringUpEvent::JoinOk => (
                    BringUp { phase: Phase::Joined, ..self },
                    BringUpAction::StartServing,
                ),
                _ => (
                    BringUp { phase: Phase::Associating, attempts: (self.attempts + 1) as u64 },
                    BringUpAction::RetryJoinAfterDelay(JOIN_RETRY_DELAY_MS),
                ),
            },
            Phase::Joined => (self, BringUpAction::StartServing),
        }
    }

    /// Advances the sequencer by one exchange.  The ordering of the phases is
    /// fixed; a rejected association keeps the sequencer associating, counts
    /// the failed attempt and asks for a retry after the fixed delay; and the
    /// sequencer allows serving exactly when the attempt succeeded.
    pub fn step(&mut self, ev: BringUpEvent) -> (a: BringUpAction)
        requires
            old(self).event_fits(ev),
            old(self).attempts < u64::MAX,
        ensures
            (*final(self), a) == old(self).spec_step(ev),
            final(self).may_serve() <==> ev is JoinOk,
    {
        match self.phase {
            Phase::RadioInit => {
                self.phase = Phase::PowerConfig;
                BringUpAction::ConfigurePower
            },
            Phase::PowerConfig => {
                self.phase = Phase::IpConfig;
                BringUpAction::ConfigureIp
            },
            Phase::IpConfig => {
                self.phase = Phase::SeedInit;
                BringUpAction::SeedStack
            },
            Phase::SeedInit => {
                self.phase = Phase::Associating;
                BringUpAction::AttemptJoin
            },
            Phase::Associating => match ev {
                BringUpEvent::JoinOk => {
                    self.phase = Phase::Joined;
                    BringUpAction::StartServing
                },
                _ => {
                    self.attempts = self.attempts + 1;
                    BringUpAction::RetryJoinAfterDelay(JOIN_RETRY_DELAY_MS)
                },
            },
            Phase::Joined => BringUpAction::StartServing,
        }
    }
}

/// The sequencer after a run of association-phase events, folded through the
/// transition relation.
pub open spec fn assoc_run(s: BringUp, evs: Seq<BringUpEvent>) -> BringUp
    decreases evs.len(),
{
    if evs.len() == 0 {
        s
    } else {
        assoc_run(s.spec_step(evs[0]).0, evs.drop_first())
    }
}

/// While every attempt fails, the sequencer stays associating - it never
/// gives up and never serves - and counts exactly the failed attempts.
pub proof fn lemma_all_failures_keep_associating(s: BringUp, evs: Seq<BringUpEvent>)
    requires
        s.phase is Associating,
        forall|i: int| 0 <= i < evs.len() ==> evs[i] is JoinFailed,
        s.attempts + evs.len() <= u64::MAX,
    ensures
        assoc_run(s, evs).phase is Associating,
        assoc_run(s, evs).attempts == s.attempts + evs.len(),
    decreases evs.len(),
{
    if evs.len() > 0 {
        assert(evs[0] is JoinFailed);
        let s1 = s.spec_step(evs[0]).0;
        lemma_all_failures_keep_associating(s1, evs.drop_first());
    }
}

/// Splitting a run at its last event: the fold over `evs` is one step on top
/// of the fold over everything before it.
pub proof fn lemma_assoc_run_snoc(s: BringUp, evs: Seq<BringUpEvent>)
    requires
        evs.len() > 0,
    ensures
        assoc_run(s, evs) == assoc_run(s, evs.drop_last()).spec_step(evs.last()).0,
    decreases evs.len(),
{
    if evs.len() == 1 {
        assert(evs.drop_first().len() == 0);
        assert(evs.drop_last().len() == 0);
    } else {
        let s1 = s.spec_step(evs[0]).0;
        lemma_assoc_run_snoc(s1, evs.drop_first());
        assert(evs.drop_first().drop_last() =~= evs.drop_last().drop_first());
        assert(evs.drop_first().last() == evs.last());
    }
}

/// Association with failures on attempts 1..=k and success on attempt k+1:
/// the sequencer performs exactly k retries, each asking for the fixed
/// delay, never allows serving while any failure is outstanding, and
/// proceeds to `Joined` exactly on the successful attempt.
pub proof fn lemma_retry_until_success(s: BringUp, evs: Seq<BringUpEvent>, k: int)
    requires
        s.phase is Associating,
        0 <= k,
        evs.len() == k + 1,
        forall|i: int| 0 <= i < k ==> evs[i] is JoinFailed,
        evs[k] is JoinOk,
        s.attempts + k <= u64::MAX,
    ensures
        assoc_run(s, evs).phase is Joined,
        assoc_run(s, evs).attempts == s.attempts + k,
        forall|i: int|
            0 <= i <= k ==> !assoc_run(s, evs.take(i)).may_serve(),
        forall|i: int|
            0 <= i < k ==> assoc_run(s, evs.take(i)).spec_step(evs[i]).1
                == BringUpAction::RetryJoinAfterDelay(JOIN_RETRY_DELAY_MS),
        assoc_run(s, evs.take(k)).spec_step(evs[k]).1 == BringUpAction::StartServing,
{
    assert forall|i: int| 0 <= i <= k implies !assoc_run(s, evs.take(i)).may_serve() by {
        lemma_all_failures_keep_associating(s, evs.take(i));
    }
    assert forall|i: int|
        0 <= i < k implies assoc_run(s, evs.take(i)).spec_step(evs[i]).1
        == BringUpAction::RetryJoinAfterDelay(JOIN_RETRY_DELAY_MS) by {
        lemma_all_failures_keep_associating(s, evs.take(i));
    }
    lemma_all_failures_keep_associating(s, evs.take(k));
    lemma_assoc_run_snoc(s, evs);
    assert(evs.drop_last() =~= evs.take(k));
}

} // verus!
