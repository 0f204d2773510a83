//! What the indicator service decides for a request: which indicator it runs,
//! over which window and time stamps, with which multiplier, or which error
//! it answers.

use vstd::prelude::*;

use crate::grpc::types::{
    lemma_id_round_trip, IndicatorRequest, IndicatorType, Selection, INDICATOR_COUNT,
};
use crate::IndicatorService;
use crate::timeline::{
    civil_unix_seconds, days_since_epoch, days_to_seconds, leap_years_through, MAX_DELTA_SECS, delta_in_range, utc_seconds_of, Origin, Schedule,
    SECS_PER_DAY,
};

verus! {

/// The period in days of the Bollinger bands where a request gives none.
pub const DEFAULT_BOLLINGER_PERIOD: i64 = 5;

/// The multiplier of the Bollinger bands where a request gives none.
pub const DEFAULT_BOLLINGER_MULTIPLIER: i64 = 2;

/// The instant 2020-01-01 00:00:00 UTC, from which several series start.
pub open spec fn start_of_2020() -> i64 {
    civil_unix_seconds(2020, 1, 1, 0, 0, 0) as i64
}

/// The instant 2023-01-01 00:00:00 UTC, at which the minimum's series stands.
pub open spec fn start_of_2023() -> i64 {
    civil_unix_seconds(2023, 1, 1, 0, 0, 0) as i64
}

/// The fixed origins, as numbers.
pub proof fn lemma_fixed_origins()
    ensures
        start_of_2020() == 1_577_836_800,
        start_of_2023() == 1_672_531_200,
{
    assert(leap_years_through(1969) == 477);
    assert(leap_years_through(2019) == 489);
    assert(leap_years_through(2022) == 490);
    assert(days_since_epoch(2020, 1, 1) == 18262);
    assert(days_since_epoch(2023, 1, 1) == 19358);
}

fn start_of_2020_exec() -> (r: i64)
    ensures
        r == start_of_2020(),
{
    assert(crate::timeline::days_in_month(2020, 1) == 31);
    proof {
        lemma_fixed_origins();
    }
    match utc_seconds_of(2020, 1, 1, 0, 0, 0) {
        Some(t) => t,
        None => {
            assert(false);
            0
        },
    }
}

fn start_of_2023_exec() -> (r: i64)
    ensures
        r == start_of_2023(),
{
    assert(crate::timeline::days_in_month(2023, 1) == 31);
    proof {
        lemma_fixed_origins();
    }
    match utc_seconds_of(2023, 1, 1, 0, 0, 0) {
        Some(t) => t,
        None => {
            assert(false);
            0
        },
    }
}

/// A schedule with an origin, a window, and element `i` at `offset + i * step`.
pub open spec fn linear(window_secs: int, origin: Origin, offset_secs: int, step_secs: int) -> Schedule {
    Schedule {
        window_secs: window_secs as i64,
        origin,
        offset_secs: offset_secs as i64,
        step_secs: step_secs as i64,
        index_wraps_i32: false,
    }
}

impl IndicatorType {
    /// The schedule of each indicator; the Bollinger bands look back over
    /// `bollinger_days` days.
    pub open spec fn spec_schedule(self, bollinger_days: i64) -> Schedule {
        match self {
            IndicatorType::BollingerBands => linear(bollinger_days * SECS_PER_DAY, Origin::Now, 0, SECS_PER_DAY as int),
            IndicatorType::ExponentialMovingAverage => linear(5 * SECS_PER_DAY, Origin::Now, 0, SECS_PER_DAY as int),
            IndicatorType::MaxDrawdown => linear(10000, Origin::At(start_of_2020()), 0, 1),
            IndicatorType::MaxDrawup => linear(2, Origin::At(start_of_2020()), 0, 1),
            IndicatorType::Maximum => linear(100, Origin::At(start_of_2020()), 0, 50),
            IndicatorType::MeanAbsoluteDeviation => linear(5, Origin::At(0), 0, 1),
            IndicatorType::Minimum => linear(2 * SECS_PER_DAY, Origin::At(start_of_2023()), 0, 0),
            IndicatorType::RateOfChange => linear(3, Origin::At(start_of_2020()), 0, 1),
            IndicatorType::RelativeStrengthIndex => linear(3 * SECS_PER_DAY, Origin::At(start_of_2020()), SECS_PER_DAY as int, 0),
            IndicatorType::SimpleMovingAverage => Schedule {
                window_secs: 5,
                origin: Origin::Now,
                offset_secs: 0,
                step_secs: 1,
                index_wraps_i32: true,
            },
            IndicatorType::StandardDeviation => linear(4, Origin::Now, 3, 1),
        }
    }

    /// The schedule of this indicator.
    pub fn schedule(&self, bollinger_days: i64) -> (r: Schedule)
        requires
            *self == IndicatorType::BollingerBands ==> delta_in_range(bollinger_days * SECS_PER_DAY),
        ensures
            r == self.spec_schedule(bollinger_days),
    {
        match self {
            IndicatorType::BollingerBands => bollinger_bands(bollinger_days),
            IndicatorType::ExponentialMovingAverage => exponential_moving_average(),
            IndicatorType::MaxDrawdown => max_drawdown(),
            IndicatorType::MaxDrawup => max_drawup(),
            IndicatorType::Maximum => maximum(),
            IndicatorType::MeanAbsoluteDeviation => mean_absolute_deviation(),
            IndicatorType::Minimum => minimum(),
            IndicatorType::RateOfChange => rate_of_change(),
            IndicatorType::RelativeStrengthIndex => relative_strength_index(),
            IndicatorType::SimpleMovingAverage => simple_moving_average(),
            IndicatorType::StandardDeviation => standard_deviation(),
        }
    }
}

/// Bollinger bands over `time_window` days; element `i` stands `i` days after
/// the request.
pub fn bollinger_bands(time_window: i64) -> (r: Schedule)
    requires
        delta_in_range(time_window * SECS_PER_DAY),
    ensures
        r == IndicatorType::BollingerBands.spec_schedule(time_window),
{
    let window = match days_to_seconds(time_window) {
        Some(s) => s,
        None => {
            assert(false);
            0
        },
    };
    Schedule { window_secs: window, origin: Origin::Now, offset_secs: 0, step_secs: SECS_PER_DAY, index_wraps_i32: false }
}

/// Exponential moving average over 5 days; element `i` stands `i` days after
/// the request.
pub fn exponential_moving_average() -> (r: Schedule)
    ensures
        r == IndicatorType::ExponentialMovingAverage.spec_schedule(0),
{
    Schedule { window_secs: 5 * SECS_PER_DAY, origin: Origin::Now, offset_secs: 0, step_secs: SECS_PER_DAY, index_wraps_i32: false }
}

/// Maximum drawdown over 10000 seconds; element `i` stands `i` seconds after
/// the start of 2020.
pub fn max_drawdown() -> (r: Schedule)
    ensures
        r == IndicatorType::MaxDrawdown.spec_schedule(0),
{
    let start = start_of_2020_exec();
    Schedule { window_secs: 10000, origin: Origin::At(start), offset_secs: 0, step_secs: 1, index_wraps_i32: false }
}

/// Maximum drawup over 2 seconds; element `i` stands `i` seconds after the
/// start of 2020.
pub fn max_drawup() -> (r: Schedule)
    ensures
        r == IndicatorType::MaxDrawup.spec_schedule(0),
{
    let start = start_of_2020_exec();
    Schedule { window_secs: 2, origin: Origin::At(start), offset_secs: 0, step_secs: 1, index_wraps_i32: false }
}

/// Maximum over 100 seconds; element `i` stands `50 * i` seconds after the
/// start of 2020.
pub fn maximum() -> (r: Schedule)
    ensures
        r == IndicatorType::Maximum.spec_schedule(0),
{
    let start = start_of_2020_exec();
    Schedule { window_secs: 100, origin: Origin::At(start), offset_secs: 0, step_secs: 50, index_wraps_i32: false }
}

/// Mean absolute deviation over 5 seconds; element `i` stands at Unix time
/// `i`.
pub fn mean_absolute_deviation() -> (r: Schedule)
    ensures
        r == IndicatorType::MeanAbsoluteDeviation.spec_schedule(0),
{
    Schedule { window_secs: 5, origin: Origin::At(0), offset_secs: 0, step_secs: 1, index_wraps_i32: false }
}

/// Minimum over 2 days; every element stands at the start of 2023.
pub fn minimum() -> (r: Schedule)
    ensures
        r == IndicatorType::Minimum.spec_schedule(0),
{
    let start = start_of_2023_exec();
    Schedule { window_secs: 2 * SECS_PER_DAY, origin: Origin::At(start), offset_secs: 0, step_secs: 0, index_wraps_i32: false }
}

/// Rate of change over 3 seconds; element `i` stands `i` seconds after the
/// start of 2020.
pub fn rate_of_change() -> (r: Schedule)
    ensures
        r == IndicatorType::RateOfChange.spec_schedule(0),
{
    let start = start_of_2020_exec();
    Schedule { window_secs: 3, origin: Origin::At(start), offset_secs: 0, step_secs: 1, index_wraps_i32: false }
}

/// Relative strength index over 3 days; every element stands one day after the
/// start of 2020.
pub fn relative_strength_index() -> (r: Schedule)
    ensures
        r == IndicatorType::RelativeStrengthIndex.spec_schedule(0),
{
    let start = start_of_2020_exec();
    Schedule {
        window_secs: 3 * SECS_PER_DAY,
        origin: Origin::At(start),
        offset_secs: SECS_PER_DAY,
        step_secs: 0,
        index_wraps_i32: false,
    }
}

/// Simple moving average over 5 seconds; element `i` stands `i` seconds after
/// the request, `i` cut to an `i32`.
pub fn simple_moving_average() -> (r: Schedule)
    ensures
        r == IndicatorType::SimpleMovingAverage.spec_schedule(0),
{
    Schedule { window_secs: 5, origin: Origin::Now, offset_secs: 0, step_secs: 1, index_wraps_i32: true }
}

/// Standard deviation over 4 seconds; element `i` stands `3 + i` seconds after
/// the request.
pub fn standard_deviation() -> (r: Schedule)
    ensures
        r == IndicatorType::StandardDeviation.spec_schedule(0),
{
    Schedule { window_secs: 4, origin: Origin::Now, offset_secs: 3, step_secs: 1, index_wraps_i32: false }
}

/// Which multiplier the Bollinger bands use: the default one or the one the
/// request gives.
#[derive(Clone, Copy, Debug, PartialEq, Eq, Structural)]
pub enum Multiplier {
    Default,
    Requested,
}

/// What the service computes for a request: the indicator, its schedule, and
/// (for the Bollinger bands; the other indicators take none) the multiplier.
#[derive(Clone, Copy, Debug, PartialEq, Eq, Structural)]
pub struct IndicatorPlan {
    pub kind: IndicatorType,
    pub schedule: Schedule,
    pub multiplier: Multiplier,
}

/// Why the service refuses a request. Each is answered with the status code
/// "not found".
#[derive(Clone, Copy, Debug, PartialEq, Eq, Structural)]
pub enum RequestError {
    /// The request names no indicator.
    ActionNotFound,
}

/// The gRPC status code "not found".
pub const STATUS_NOT_FOUND: i32 = 5;

impl RequestError {
    /// The gRPC status code with which the refusal is answered: "not found"
    /// for every refusal.
    pub fn status_code(&self) -> (r: i32)
        ensures
            r == STATUS_NOT_FOUND,
    {
        match self {
            RequestError::ActionNotFound => STATUS_NOT_FOUND,
        }
    }

    /// The message the refusal carries.
    pub fn message(&self) -> (r: String)
        ensures
            r@ == "Action not found"@,
    {
        "Action not found".to_owned()
    }
}

impl Selection {
    /// The period in days of the Bollinger bands: the one in the options, or
    /// the default one.
    pub open spec fn spec_bollinger_period(self) -> i64 {
        match self.options {
            Some(o) => match o.period {
                Some(p) => p,
                None => DEFAULT_BOLLINGER_PERIOD,
            },
            None => DEFAULT_BOLLINGER_PERIOD,
        }
    }

    /// Whether the options give the multiplier of the Bollinger bands.
    pub open spec fn spec_multiplier(self) -> Multiplier {
        match self.options {
            Some(o) => if o.has_multiplier {
                Multiplier::Requested
            } else {
                Multiplier::Default
            },
            None => Multiplier::Default,
        }
    }

    /// The selection can be planned: where it selects the Bollinger bands,
    /// their period is a representable duration.
    pub open spec fn is_plannable(self) -> bool {
        self.l == Some(IndicatorType::BollingerBands) ==> delta_in_range(
            self.spec_bollinger_period() * SECS_PER_DAY,
        )
    }

    /// The period in days of the Bollinger bands.
    pub fn bollinger_period(&self) -> (r: i64)
        ensures
            r == self.spec_bollinger_period(),
    {
        match self.options {
            Some(o) => match o.period {
                Some(p) => p,
                None => DEFAULT_BOLLINGER_PERIOD,
            },
            None => DEFAULT_BOLLINGER_PERIOD,
        }
    }

    /// Whether the selection can be planned.
    pub fn plannable(&self) -> (r: bool)
        ensures
            r == self.is_plannable(),
    {
        match self.l {
            Some(IndicatorType::BollingerBands) => days_to_seconds(self.bollinger_period()).is_some(),
            _ => true,
        }
    }
}

/// What the service answers to a selection: the plan of the indicator it
/// selects, or `ActionNotFound` where it selects none.
pub open spec fn spec_plan(sel: Selection) -> Result<IndicatorPlan, RequestError> {
    match sel.l {
        None => Err(RequestError::ActionNotFound),
        Some(k) => Ok(
            IndicatorPlan {
                kind: k,
                schedule: k.spec_schedule(sel.spec_bollinger_period()),
                multiplier: if k == IndicatorType::BollingerBands {
                    sel.spec_multiplier()
                } else {
                    Multiplier::Default
                },
            },
        ),
    }
}

impl IndicatorService {
    /// The text with which the service answers a request to reload its
    /// configuration.
    pub fn conf_reload_result(&self) -> (r: String)
        ensures
            r@ == "ee"@,
    {
        "ee".to_owned()
    }

    /// The plan for a bare list of numbers: the Bollinger bands over the
    /// default period, with the default multiplier.
    pub fn gen_list_plan(&self) -> (r: IndicatorPlan)
        ensures
            r == (IndicatorPlan {
                kind: IndicatorType::BollingerBands,
                schedule: IndicatorType::BollingerBands.spec_schedule(DEFAULT_BOLLINGER_PERIOD),
                multiplier: Multiplier::Default,
            }),
    {
        assert(delta_in_range(DEFAULT_BOLLINGER_PERIOD * SECS_PER_DAY));
        IndicatorPlan {
            kind: IndicatorType::BollingerBands,
            schedule: bollinger_bands(DEFAULT_BOLLINGER_PERIOD),
            multiplier: Multiplier::Default,
        }
    }

    /// The plan for a selection, or the error with which it is refused.
    pub fn gen_liste_plan(&self, sel: &Selection) -> (r: Result<IndicatorPlan, RequestError>)
        requires
            sel.is_plannable(),
        ensures
            r == spec_plan(*sel),
    {
        let kind = match sel.l {
            Some(k) => k,
            None => {
                return Err(RequestError::ActionNotFound);
            },
        };
        let period = sel.bollinger_period();
        let multiplier = match kind {
            IndicatorType::BollingerBands => match sel.options {
                Some(o) => if o.has_multiplier {
                    Multiplier::Requested
                } else {
                    Multiplier::Default
                },
                None => Multiplier::Default,
            },
            _ => Multiplier::Default,
        };
        Ok(IndicatorPlan { kind, schedule: kind.schedule(period), multiplier })
    }
}

/// A request is refused exactly when its wire number names no indicator, and
/// then with `ActionNotFound`.
pub proof fn lemma_unknown_id_refused(req: IndicatorRequest)
    ensures
        spec_plan(Selection::spec_from_request(req)) is Err <==> !(0 <= req.id < INDICATOR_COUNT),
        spec_plan(Selection::spec_from_request(req)) is Err ==> spec_plan(
            Selection::spec_from_request(req),
        ) == Err::<IndicatorPlan, RequestError>(RequestError::ActionNotFound),
{
    lemma_id_round_trip(IndicatorType::BollingerBands, req.id as int);
}

/// A request that carries the wire number of an indicator is planned for that
/// indicator.
pub proof fn lemma_known_id_selects(k: IndicatorType, opt_period: Option<i64>)
    ensures
        spec_plan(Selection::spec_from_request(IndicatorRequest { id: k.wire_id() as i32, opt_period }))
            matches Ok(p) && p.kind == k,
{
    lemma_id_round_trip(k, k.wire_id());
}

/// A bare list of numbers is planned as a request for the Bollinger bands
/// without options: default period and default multiplier.
pub proof fn lemma_list_is_default_bollinger()
    ensures
        spec_plan(Selection::spec_from_request(IndicatorRequest { id: 0, opt_period: None }))
            == Ok::<IndicatorPlan, RequestError>(
            IndicatorPlan {
                kind: IndicatorType::BollingerBands,
                schedule: IndicatorType::BollingerBands.spec_schedule(DEFAULT_BOLLINGER_PERIOD),
                multiplier: Multiplier::Default,
            },
        ),
{
    lemma_id_round_trip(IndicatorType::BollingerBands, 0);
}

/// A request for the Bollinger bands that carries options is planned with the
/// requested multiplier and over the requested number of days.
pub proof fn lemma_bollinger_options_used(days: i64)
    ensures
        spec_plan(Selection::spec_from_request(IndicatorRequest { id: 0, opt_period: Some(days) }))
            == Ok::<IndicatorPlan, RequestError>(
            IndicatorPlan {
                kind: IndicatorType::BollingerBands,
                schedule: IndicatorType::BollingerBands.spec_schedule(days),
                multiplier: Multiplier::Requested,
            },
        ),
{
    lemma_id_round_trip(IndicatorType::BollingerBands, 0);
}

/// The time stamps fed to an indicator move forward from element to element,
/// except for the minimum and the relative strength index, whose elements all
/// stand at one instant; for the simple moving average this holds while the
/// index fits an `i32`.
pub proof fn lemma_series_direction(k: IndicatorType, days: i64, i: int, j: int)
    requires
        0 <= i < j,
        k == IndicatorType::SimpleMovingAverage ==> j <= i32::MAX,
    ensures
        k != IndicatorType::Minimum && k != IndicatorType::RelativeStrengthIndex ==> k.spec_schedule(
            days,
        ).spec_offset(i) < k.spec_schedule(days).spec_offset(j),
        k == IndicatorType::Minimum || k == IndicatorType::RelativeStrengthIndex ==> k.spec_schedule(
            days,
        ).spec_offset(i) == k.spec_schedule(days).spec_offset(j),
{
    let s = k.spec_schedule(days);
    if k == IndicatorType::SimpleMovingAverage {
        assert((i as i32) as int == i);
        assert((j as i32) as int == j);
    } else {
        assert(s.index_of(i) == i && s.index_of(j) == j);
        assert(i * s.step_secs <= j * s.step_secs) by (nonlinear_arith)
            requires
                0 <= i < j,
                s.step_secs >= 0,
        ;
        assert(s.step_secs > 0 ==> i * s.step_secs < j * s.step_secs) by (nonlinear_arith)
            requires
                0 <= i < j,
        ;
        assert(s.step_secs == 0 ==> i * s.step_secs == 0 && j * s.step_secs == 0)
            by (nonlinear_arith);
    }
}

/// The largest number of days whose length in seconds is a representable
/// duration.
pub open spec fn max_delta_days() -> int {
    106_751_991_167
}

/// For any indicator but the Bollinger bands, two selections of it are
/// answered with the same plan, whatever options either carries: the
/// schedule and the multiplier do not depend on the options.
pub proof fn lemma_other_plans_ignore_options(sel1: Selection, sel2: Selection)
    requires
        sel1.l == sel2.l,
        sel1.l is Some,
        sel1.l != Some(IndicatorType::BollingerBands),
    ensures
        spec_plan(sel1) == spec_plan(sel2),
        spec_plan(sel1) matches Ok(p) && p.multiplier == Multiplier::Default,
{
    let k = sel1.l->0;
    lemma_other_schedules_ignore_period(k, sel1.spec_bollinger_period(), sel2.spec_bollinger_period());
}

/// The schedule of any indicator but the Bollinger bands does not depend on
/// the period.
pub proof fn lemma_other_schedules_ignore_period(k: IndicatorType, d1: i64, d2: i64)
    requires
        k != IndicatorType::BollingerBands,
    ensures
        k.spec_schedule(d1) == k.spec_schedule(d2),
{
}

/// The Bollinger bands look back over exactly the given number of days, and
/// their elements stand one day apart from the request on.
pub proof fn lemma_bollinger_window(days: i64)
    requires
        delta_in_range(days * SECS_PER_DAY),
    ensures
        IndicatorType::BollingerBands.spec_schedule(days).window_secs == days * 86_400,
        IndicatorType::BollingerBands.spec_schedule(days).origin == Origin::Now,
        IndicatorType::BollingerBands.spec_schedule(days).offset_secs == 0,
        IndicatorType::BollingerBands.spec_schedule(days).step_secs == 86_400,
        !IndicatorType::BollingerBands.spec_schedule(days).index_wraps_i32,
{
}

/// A plannable selection of the Bollinger bands is planned over the period
/// its options give, or over 5 days where they give none, and with the
/// requested multiplier exactly where its options give one.
pub proof fn lemma_bollinger_plan(sel: Selection)
    requires
        sel.l == Some(IndicatorType::BollingerBands),
        sel.is_plannable(),
    ensures
        spec_plan(sel) matches Ok(p) && p.kind == IndicatorType::BollingerBands
            && p.schedule.window_secs == 86_400 * (match sel.options {
                Some(o) => match o.period {
                    Some(d) => d as int,
                    None => 5,
                },
                None => 5,
            })
            && p.schedule.step_secs == 86_400 && p.schedule.origin == Origin::Now
            && (p.multiplier == Multiplier::Requested <==> (sel.options matches Some(o) && o.has_multiplier)),
{
}

/// The fixed schedules, as numbers: window, origin, offset and step of each
/// indicator but the Bollinger bands, whatever the period.
pub proof fn lemma_fixed_schedules(k: IndicatorType, days: i64)
    ensures
        ({
            let s = k.spec_schedule(days);
            match k {
                IndicatorType::BollingerBands => true,
                IndicatorType::ExponentialMovingAverage => s.window_secs == 432_000 && s.origin
                    == Origin::Now && s.offset_secs == 0 && s.step_secs == 86_400 && !s.index_wraps_i32,
                IndicatorType::MaxDrawdown => s.window_secs == 10_000 && s.origin == Origin::At(
                    1_577_836_800,
                ) && s.offset_secs == 0 && s.step_secs == 1 && !s.index_wraps_i32,
                IndicatorType::MaxDrawup => s.window_secs == 2 && s.origin == Origin::At(1_577_836_800)
                    && s.offset_secs == 0 && s.step_secs == 1 && !s.index_wraps_i32,
                IndicatorType::Maximum => s.window_secs == 100 && s.origin == Origin::At(1_577_836_800)
                    && s.offset_secs == 0 && s.step_secs == 50 && !s.index_wraps_i32,
                IndicatorType::MeanAbsoluteDeviation => s.window_secs == 5 && s.origin == Origin::At(0)
                    && s.offset_secs == 0 && s.step_secs == 1 && !s.index_wraps_i32,
                IndicatorType::Minimum => s.window_secs == 172_800 && s.origin == Origin::At(
                    1_672_531_200,
                ) && s.offset_secs == 0 && s.step_secs == 0 && !s.index_wraps_i32,
                IndicatorType::RateOfChange => s.window_secs == 3 && s.origin == Origin::At(1_577_836_800)
                    && s.offset_secs == 0 && s.step_secs == 1 && !s.index_wraps_i32,
                IndicatorType::RelativeStrengthIndex => s.window_secs == 259_200 && s.origin
                    == Origin::At(1_577_836_800) && s.offset_secs == 86_400 && s.step_secs == 0
                    && !s.index_wraps_i32,
                IndicatorType::SimpleMovingAverage => s.window_secs == 5 && s.origin == Origin::Now
                    && s.offset_secs == 0 && s.step_secs == 1 && s.index_wraps_i32,
                IndicatorType::StandardDeviation => s.window_secs == 4 && s.origin == Origin::Now
                    && s.offset_secs == 3 && s.step_secs == 1 && !s.index_wraps_i32,
            }
        }),
{
    lemma_fixed_origins();
}

/// Which selections can be planned: every one that names no Bollinger bands,
/// every one whose options give no period (the default of 5 days), and a
/// Bollinger selection with a period exactly where that period has at most
/// `max_delta_days()` days either way.
pub proof fn lemma_plannable(sel: Selection)
    ensures
        sel.l != Some(IndicatorType::BollingerBands) ==> sel.is_plannable(),
        !(sel.options matches Some(o) && o.period is Some) ==> sel.is_plannable(),
        sel.l == Some(IndicatorType::BollingerBands) ==> match sel.options {
            Some(o) => match o.period {
                Some(d) => (sel.is_plannable() <==> -max_delta_days() <= d <= max_delta_days()),
                None => true,
            },
            None => true,
        },
{
    assert(-MAX_DELTA_SECS <= 5 * SECS_PER_DAY <= MAX_DELTA_SECS);
    if let Some(o) = sel.options {
        if let Some(d) = o.period {
        assert(-max_delta_days() <= d <= max_delta_days() ==> delta_in_range(d * SECS_PER_DAY))
            by (nonlinear_arith)
            requires
                MAX_DELTA_SECS == 9_223_372_036_854_775,
                SECS_PER_DAY == 86_400,
                max_delta_days() == 106_751_991_167,
        ;
        assert(!(-max_delta_days() <= d <= max_delta_days()) ==> !delta_in_range(d * SECS_PER_DAY))
            by (nonlinear_arith)
            requires
                MAX_DELTA_SECS == 9_223_372_036_854_775,
                SECS_PER_DAY == 86_400,
                max_delta_days() == 106_751_991_167,
        ;
        }
    }
}

} // verus!
