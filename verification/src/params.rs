//! What the negotiation asks for: the parameters of each request, as plain
//! values. Durations are in microseconds.

use crate::link::Step;
use vstd::prelude::*;

verus! {

/// The host feature bit that announces support for shorter connection
/// intervals.
pub const SHORTER_CONN_INTERVALS_HOST_SUPPORT: u8 = 73;

/// The unit in which a connection interval is counted, in microseconds.
pub const INTERVAL_UNIT_US: u64 = 125;

/// The most links that are up at a time.
pub const CONNECTIONS_MAX: usize = 1;

/// The most data channels on a link.
pub const L2CAP_CHANNELS_MAX: usize = 3;

/// A physical layer of the radio.
#[derive(Clone, Copy, Debug, PartialEq, Eq)]
pub enum Phy {
    Le1M,
    Le2M,
    LeCoded,
}

/// A set of physical layers.
#[derive(Clone, Copy, Debug, PartialEq, Eq)]
pub struct PhySet {
    pub le_1m: bool,
    pub le_2m: bool,
    pub le_coded: bool,
}

/// The kinds of frame spacing that a frame space update applies to.
#[derive(Clone, Copy, Debug, PartialEq, Eq)]
pub struct SpacingSet {
    pub t_ifs_acl_cp: bool,
    pub t_ifs_acl_pc: bool,
    pub t_mces: bool,
    pub t_ifs_cis: bool,
    pub t_mss_cis: bool,
}

/// The connection parameters that set the baseline interval.
#[derive(Clone, Copy, Debug, PartialEq, Eq)]
pub struct ConnParams {
    pub min_interval_us: u64,
    pub max_interval_us: u64,
    pub max_latency: u16,
    pub min_event_length_us: u64,
    pub max_event_length_us: u64,
    pub supervision_timeout_us: u64,
}

/// The range of frame space that is asked for, and where it applies.
#[derive(Clone, Copy, Debug, PartialEq, Eq)]
pub struct FrameSpace {
    pub min_us: u64,
    pub max_us: u64,
    pub phys: PhySet,
    pub spacing: SpacingSet,
}

/// The connection rate that is asked for: an interval, and how it is
/// subrated.
#[derive(Clone, Copy, Debug, PartialEq, Eq)]
pub struct ConnectRateParams {
    pub min_interval_us: u64,
    pub max_interval_us: u64,
    pub subrate_min: u16,
    pub subrate_max: u16,
    pub max_latency: u16,
    pub continuation_number: u16,
    pub supervision_timeout_us: u64,
    pub min_event_length_us: u64,
    pub max_event_length_us: u64,
}

/// What a negotiation step sends.
#[derive(Clone, Copy, Debug, PartialEq, Eq)]
pub enum Request {
    /// Set the host feature bit `bit` to `enabled`.
    SetHostFeature { bit: u8, enabled: bool },
    /// Read the features of the link layer.
    ReadFeatures,
    /// Change to the given PHY.
    SetPhy(Phy),
    /// Update the connection parameters.
    UpdateConnParams(ConnParams),
    /// Update the frame space.
    UpdateFrameSpace(FrameSpace),
    /// Read the shortest supported connection interval.
    ReadMinInterval,
    /// Request the connection rate.
    RequestRate(ConnectRateParams),
}

impl PhySet {
    /// The set that holds `phy` and nothing else.
    pub open spec fn spec_only(phy: Phy) -> PhySet {
        PhySet { le_1m: phy is Le1M, le_2m: phy is Le2M, le_coded: phy is LeCoded }
    }

    /// The set that holds `phy` and nothing else.
    pub fn only(phy: Phy) -> (set: PhySet)
        ensures
            set == Self::spec_only(phy),
    {
        match phy {
            Phy::Le1M => PhySet { le_1m: true, le_2m: false, le_coded: false },
            Phy::Le2M => PhySet { le_1m: false, le_2m: true, le_coded: false },
            Phy::LeCoded => PhySet { le_1m: false, le_2m: false, le_coded: true },
        }
    }
}

impl ConnectRateParams {
    /// The parameters are valid when the interval and the event length are
    /// proper ranges and the supervision timeout outlasts the longest
    /// silence that the latency allows: `max_latency + 1` intervals of the
    /// longest kind.
    pub open spec fn valid(self) -> bool {
        &&& self.min_interval_us <= self.max_interval_us
        &&& self.min_event_length_us <= self.max_event_length_us
        &&& self.supervision_timeout_us > self.max_interval_us * (self.max_latency + 1)
    }

    /// Whether the parameters are valid.
    pub fn is_valid(&self) -> (ok: bool)
        ensures
            ok == self.valid(),
    {
        let interval: u128 = self.max_interval_us as u128;
        let events: u128 = self.max_latency as u128 + 1;
        assert(interval * events <= 0xffff_ffff_ffff_ffff * 0x1_0000) by (nonlinear_arith)
            requires
                0 <= interval <= 0xffff_ffff_ffff_ffff,
                0 <= events <= 0x1_0000,
        ;
        self.min_interval_us <= self.max_interval_us && self.min_event_length_us
            <= self.max_event_length_us && (self.supervision_timeout_us as u128) > interval
            * events
    }

    /// The shortest interval asked for, counted in units of 125
    /// microseconds.
    pub fn interval_units(&self) -> (units: u64)
        ensures
            units == self.min_interval_us / INTERVAL_UNIT_US,
    {
        self.min_interval_us / INTERVAL_UNIT_US
    }
}

/// The connection rate that both roles are set up for: an interval of two
/// milliseconds, not subrated, with no latency.
pub open spec fn spec_conn_rate_params() -> ConnectRateParams {
    ConnectRateParams {
        min_interval_us: 2000,
        max_interval_us: 2000,
        subrate_min: 1,
        subrate_max: 1,
        max_latency: 0,
        continuation_number: 0,
        supervision_timeout_us: 500_000,
        min_event_length_us: 500,
        max_event_length_us: 500,
    }
}

/// The baseline that is asked for before the rate: an interval of 7.5
/// milliseconds.
pub open spec fn spec_baseline_conn_params() -> ConnParams {
    ConnParams {
        min_interval_us: 7500,
        max_interval_us: 7500,
        max_latency: 0,
        min_event_length_us: 0,
        max_event_length_us: 0,
        supervision_timeout_us: 500_000,
    }
}

/// The PHY that the negotiation asks for.
pub open spec fn spec_preferred_phy() -> Phy {
    Phy::Le2M
}

/// The frame space that is asked for: as short as 0 to 125 microseconds,
/// on the preferred PHY only, for the spacings of the data channel and
/// between subevents.
pub open spec fn spec_frame_space() -> FrameSpace {
    FrameSpace {
        min_us: 0,
        max_us: 125,
        phys: PhySet::spec_only(spec_preferred_phy()),
        spacing: SpacingSet {
            t_ifs_acl_cp: true,
            t_ifs_acl_pc: true,
            t_mces: true,
            t_ifs_cis: false,
            t_mss_cis: false,
        },
    }
}

/// What each step sends.
pub open spec fn spec_request(step: Step) -> Request {
    match step {
        Step::HostFeature => Request::SetHostFeature {
            bit: SHORTER_CONN_INTERVALS_HOST_SUPPORT,
            enabled: true,
        },
        Step::Features => Request::ReadFeatures,
        Step::Phy => Request::SetPhy(spec_preferred_phy()),
        Step::ConnParams => Request::UpdateConnParams(spec_baseline_conn_params()),
        Step::FrameSpace => Request::UpdateFrameSpace(spec_frame_space()),
        Step::MinInterval => Request::ReadMinInterval,
        Step::ConnRate => Request::RequestRate(spec_conn_rate_params()),
    }
}

/// The connection rate that both roles are set up for.
pub fn conn_rate_params() -> (params: ConnectRateParams)
    ensures
        params == spec_conn_rate_params(),
        params.valid(),
{
    ConnectRateParams {
        min_interval_us: 2000,
        max_interval_us: 2000,
        subrate_min: 1,
        subrate_max: 1,
        max_latency: 0,
        continuation_number: 0,
        supervision_timeout_us: 500_000,
        min_event_length_us: 500,
        max_event_length_us: 500,
    }
}

/// What the given step sends.
pub fn request(step: Step) -> (out: Request)
    ensures
        out == spec_request(step),
{
    match step {
        Step::HostFeature => Request::SetHostFeature {
            bit: SHORTER_CONN_INTERVALS_HOST_SUPPORT,
            enabled: true,
        },
        Step::Features => Request::ReadFeatures,
        Step::Phy => Request::SetPhy(Phy::Le2M),
        Step::ConnParams => Request::UpdateConnParams(
            ConnParams {
                min_interval_us: 7500,
                max_interval_us: 7500,
                max_latency: 0,
                min_event_length_us: 0,
                max_event_length_us: 0,
                supervision_timeout_us: 500_000,
            },
        ),
        Step::FrameSpace => Request::UpdateFrameSpace(
            FrameSpace {
                min_us: 0,
                max_us: 125,
                phys: PhySet::only(Phy::Le2M),
                spacing: SpacingSet {
                    t_ifs_acl_cp: true,
                    t_ifs_acl_pc: true,
                    t_mces: true,
                    t_ifs_cis: false,
                    t_mss_cis: false,
                },
            },
        ),
        Step::MinInterval => Request::ReadMinInterval,
        Step::ConnRate => Request::RequestRate(conn_rate_params()),
    }
}

/// The frame space is asked for on the PHY that the step before chose, and
/// on no other.
pub proof fn lemma_frame_space_on_chosen_phy()
    ensures
        spec_request(Step::Phy) matches Request::SetPhy(phy) && spec_request(Step::FrameSpace)
            matches Request::UpdateFrameSpace(space) && space.phys == PhySet::spec_only(phy),
{
}

} // verus!
