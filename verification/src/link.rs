//! The vocabulary that the sessions share with whoever owns the radio: what
//! is to be done next, what came of it, and what is worth a log line.

use vstd::prelude::*;

verus! {

/// Which side of the link this device plays.
#[derive(Clone, Copy, Debug, PartialEq, Eq)]
pub enum Role {
    /// Advertises, serves the counter and answers every write with a
    /// notification.
    Peripheral,
    /// Connects, negotiates the link and drives the exchange.
    Central,
}

/// One step of the negotiation that follows a new connection.
#[derive(Clone, Copy, Debug, PartialEq, Eq)]
pub enum Step {
    /// Enable the host feature bit for shorter connection intervals.
    HostFeature,
    /// Read the link-layer features that are supported. Nothing hangs on
    /// the answer.
    Features,
    /// Ask for the higher-throughput PHY.
    Phy,
    /// Ask for the baseline connection parameters.
    ConnParams,
    /// Ask for a shorter frame space on the PHY chosen before.
    FrameSpace,
    /// Read the shortest connection interval that is supported. Nothing
    /// hangs on the answer.
    MinInterval,
    /// Ask for the connection rate.
    ConnRate,
}

/// What the owner of the radio is asked to do.
#[derive(Clone, Copy, Debug, PartialEq, Eq)]
pub enum Action {
    /// Nothing: the event did not answer what was asked for, or what it
    /// ended leaves nothing to do.
    Nothing,
    /// Stop the whole system: the fault cannot be recovered from.
    Halt,
    /// Start advertising.
    Advertise,
    /// Wait for a peer to connect.
    Accept,
    /// Wait for the next event of the attribute server.
    AwaitEvent,
    /// Put `value` into the counter attribute.
    Store { value: u32 },
    /// Notify the peer of `value` on the counter attribute.
    Notify { value: u32 },
    /// Connect to the fixed peer address.
    Connect,
    /// Send the request of one negotiation step.
    Negotiate(Step),
    /// Create the attribute client for the connection.
    OpenClient,
    /// Look up the counter service by its identifier.
    FindService,
    /// Resolve the counter attribute in the service found.
    FindCounter,
    /// Resolve the command attribute in the service found.
    FindCommand,
    /// Subscribe to notifications of the counter attribute.
    Subscribe,
    /// Write `byte` to the command attribute.
    WriteTrigger { byte: u8 },
    /// Wait for the next notification.
    AwaitNotification,
}

/// What came of the action asked for last.
#[derive(Clone, Copy, Debug, PartialEq, Eq)]
pub enum Event {
    /// The operation has come back: accepted, or refused.
    Completed { ok: bool },
    /// A notification arrived at the monotonic instant `at`, in microseconds.
    Notified { at: u64 },
    /// The peer wrote an attribute at the monotonic instant `at`, in
    /// microseconds.
    Written { at: u64 },
    /// The link is gone.
    Disconnected,
    /// An event of the attribute server that is neither a write nor a
    /// disconnect.
    Other,
}

/// How loud a notice is.
#[derive(Clone, Copy, Debug, PartialEq, Eq)]
pub enum Level {
    Error,
    Warn,
    Info,
    Debug,
    Trace,
}

/// Why an exchange is over.
#[derive(Clone, Copy, Debug, PartialEq, Eq)]
pub enum EndCause {
    /// The attribute client could not be created.
    ClientFailed,
    /// The subscription was refused.
    SubscribeFailed,
    /// A trigger write was not acknowledged.
    WriteFailed,
    /// The peer went away.
    Disconnected,
    /// The attribute store refused the counter.
    StoreFailed,
}

/// What a transition reports about the event it handled.
#[derive(Clone, Copy, Debug, PartialEq, Eq)]
pub enum Notice {
    /// Nothing worth a line.
    Silent,
    /// The session has started.
    Started,
    /// Advertising could not be set up.
    AdvertiseFailed,
    /// The connect request failed.
    ConnectFailed,
    /// A link is up.
    Connected,
    /// The step was accepted at its `attempts`-th request.
    StepAccepted { step: Step, attempts: u32 },
    /// The `attempt`-th request of the step was refused; it is made again.
    StepRefused { step: Step, attempt: u32, limit: u32 },
    /// The step was refused `attempts` times and is given up.
    StepAbandoned { step: Step, attempts: u32 },
    /// Notifications are subscribed to; the exchange starts.
    Subscribed,
    /// At cycle number `cycle`, `elapsed_us` microseconds lie between this
    /// tick and the one before.
    Telemetry { cycle: u32, elapsed_us: u64 },
    /// The exchange on this connection is over.
    ExchangeEnded(EndCause),
}

/// What a machine answers to an event: its next state, what to do after
/// waiting `delay_ms` milliseconds, and what to report.
#[derive(Debug, PartialEq, Eq)]
pub struct Transition<S> {
    pub next: S,
    pub delay_ms: u64,
    pub action: Action,
    pub notice: Notice,
}

/// The count that follows `value`: one more, and zero after the largest
/// value.
pub open spec fn successor(value: u32) -> u32 {
    ((value + 1) % 0x1_0000_0000) as u32
}

impl Level {
    /// The position of the level, the loudest first.
    pub open spec fn rank(self) -> nat {
        match self {
            Level::Error => 1,
            Level::Warn => 2,
            Level::Info => 3,
            Level::Debug => 4,
            Level::Trace => 5,
        }
    }

    /// Whether a line at this level reaches the log: informational and
    /// louder lines do.
    pub fn enabled(self) -> (shown: bool)
        ensures
            shown == (self.rank() <= Level::Info.rank()),
    {
        match self {
            Level::Error | Level::Warn | Level::Info => true,
            Level::Debug | Level::Trace => false,
        }
    }
}

impl Notice {
    /// The level of a notice: what went wrong is a warning, a fault that
    /// halts the system an error, the rest informational.
    pub open spec fn spec_level(self) -> Level {
        match self {
            Notice::AdvertiseFailed | Notice::ConnectFailed | Notice::StepRefused { .. }
            | Notice::StepAbandoned { .. } => Level::Warn,
            Notice::ExchangeEnded(cause) => match cause {
                EndCause::StoreFailed => Level::Error,
                EndCause::Disconnected => Level::Info,
                _ => Level::Warn,
            },
            _ => Level::Info,
        }
    }

    /// The level at which the notice is logged.
    pub fn level(&self) -> (level: Level)
        ensures
            level == self.spec_level(),
    {
        match self {
            Notice::AdvertiseFailed => Level::Warn,
            Notice::ConnectFailed => Level::Warn,
            Notice::StepRefused { .. } => Level::Warn,
            Notice::StepAbandoned { .. } => Level::Warn,
            Notice::ExchangeEnded(EndCause::StoreFailed) => Level::Error,
            Notice::ExchangeEnded(EndCause::Disconnected) => Level::Info,
            Notice::ExchangeEnded(_) => Level::Warn,
            _ => Level::Info,
        }
    }
}

impl Role {
    /// Whether this is the peripheral role.
    pub fn is_peripheral(&self) -> (yes: bool)
        ensures
            yes == (*self is Peripheral),
    {
        match self {
            Role::Peripheral => true,
            Role::Central => false,
        }
    }

    /// Whether this is the central role.
    pub fn is_central(&self) -> (yes: bool)
        ensures
            yes == (*self is Central),
    {
        match self {
            Role::Peripheral => false,
            Role::Central => true,
        }
    }
}

/// A device plays exactly one role: a role is the peripheral's or the
/// central's, and never both.
pub proof fn lemma_role_exclusive(role: Role)
    ensures
        (role is Peripheral) != (role is Central),
{
}

} // verus!
