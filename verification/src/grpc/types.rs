use vstd::prelude::*;

verus! {

/// The indicators that the service computes, in the order of their wire
/// numbers (the first is number 0).
#[derive(Clone, Copy, Debug, PartialEq, Eq, Structural)]
pub enum IndicatorType {
    BollingerBands,
    ExponentialMovingAverage,
    MaxDrawdown,
    MaxDrawup,
    Maximum,
    MeanAbsoluteDeviation,
    Minimum,
    RateOfChange,
    RelativeStrengthIndex,
    SimpleMovingAverage,
    StandardDeviation,
}

/// How many indicators there are; their wire numbers are `0..INDICATOR_COUNT`.
pub const INDICATOR_COUNT: i32 = 11;

impl IndicatorType {
    /// The wire number of an indicator: its position in the declaration.
    pub open spec fn wire_id(self) -> int {
        match self {
            IndicatorType::BollingerBands => 0,
            IndicatorType::ExponentialMovingAverage => 1,
            IndicatorType::MaxDrawdown => 2,
            IndicatorType::MaxDrawup => 3,
            IndicatorType::Maximum => 4,
            IndicatorType::MeanAbsoluteDeviation => 5,
            IndicatorType::Minimum => 6,
            IndicatorType::RateOfChange => 7,
            IndicatorType::RelativeStrengthIndex => 8,
            IndicatorType::SimpleMovingAverage => 9,
            IndicatorType::StandardDeviation => 10,
        }
    }

    /// The indicators in the order of their declaration.
    pub open spec fn declaration_order() -> Seq<IndicatorType> {
        seq![
            IndicatorType::BollingerBands,
            IndicatorType::ExponentialMovingAverage,
            IndicatorType::MaxDrawdown,
            IndicatorType::MaxDrawup,
            IndicatorType::Maximum,
            IndicatorType::MeanAbsoluteDeviation,
            IndicatorType::Minimum,
            IndicatorType::RateOfChange,
            IndicatorType::RelativeStrengthIndex,
            IndicatorType::SimpleMovingAverage,
            IndicatorType::StandardDeviation,
        ]
    }

    /// The indicator that a wire number names: the one at that position of
    /// the declaration, if any.
    pub open spec fn spec_from_id(id: int) -> Option<IndicatorType> {
        if 0 <= id < INDICATOR_COUNT {
            Some(IndicatorType::declaration_order()[id])
        } else {
            None
        }
    }

    /// The wire number of this indicator.
    pub fn id(&self) -> (r: i32)
        ensures
            r == self.wire_id(),
    {
        match self {
            IndicatorType::BollingerBands => 0,
            IndicatorType::ExponentialMovingAverage => 1,
            IndicatorType::MaxDrawdown => 2,
            IndicatorType::MaxDrawup => 3,
            IndicatorType::Maximum => 4,
            IndicatorType::MeanAbsoluteDeviation => 5,
            IndicatorType::Minimum => 6,
            IndicatorType::RateOfChange => 7,
            IndicatorType::RelativeStrengthIndex => 8,
            IndicatorType::SimpleMovingAverage => 9,
            IndicatorType::StandardDeviation => 10,
        }
    }

    /// Decodes a wire number: the indicator whose number it is, or `None`
    /// for a number that names none.
    pub fn from_id(id: i32) -> (r: Option<IndicatorType>)
        ensures
            r is Some <==> 0 <= id < INDICATOR_COUNT,
            r matches Some(t) ==> t.wire_id() == id,
            r == IndicatorType::spec_from_id(id as int),
    {
        if id == 0 {
            Some(IndicatorType::BollingerBands)
        } else if id == 1 {
            Some(IndicatorType::ExponentialMovingAverage)
        } else if id == 2 {
            Some(IndicatorType::MaxDrawdown)
        } else if id == 3 {
            Some(IndicatorType::MaxDrawup)
        } else if id == 4 {
            Some(IndicatorType::Maximum)
        } else if id == 5 {
            Some(IndicatorType::MeanAbsoluteDeviation)
        } else if id == 6 {
            Some(IndicatorType::Minimum)
        } else if id == 7 {
            Some(IndicatorType::RateOfChange)
        } else if id == 8 {
            Some(IndicatorType::RelativeStrengthIndex)
        } else if id == 9 {
            Some(IndicatorType::SimpleMovingAverage)
        } else if id == 10 {
            Some(IndicatorType::StandardDeviation)
        } else {
            None
        }
    }
}

/// Distinct indicators have distinct wire numbers.
pub proof fn lemma_wire_id_injective(a: IndicatorType, b: IndicatorType)
    ensures
        a.wire_id() == b.wire_id() <==> a == b,
{
}

/// Every wire number lies in `0..INDICATOR_COUNT`.
pub proof fn lemma_wire_id_range(t: IndicatorType)
    ensures
        0 <= t.wire_id() < INDICATOR_COUNT,
{
}

/// Decoding the wire number of an indicator gives that indicator back, and a
/// number that decodes to an indicator is that indicator's number.
pub proof fn lemma_id_round_trip(t: IndicatorType, id: int)
    ensures
        IndicatorType::spec_from_id(t.wire_id()) == Some(t),
        IndicatorType::spec_from_id(id) matches Some(u) ==> u.wire_id() == id,
        IndicatorType::spec_from_id(id) is Some <==> 0 <= id < INDICATOR_COUNT,
{
}

/// A request as it comes in, without its price series and without the value of
/// its multiplier: the wire number of the indicator, and the period of the
/// request's options, present exactly where the request carries options.
#[derive(Clone, Copy, Debug, PartialEq, Eq, Structural)]
pub struct IndicatorRequest {
    pub id: i32,
    pub opt_period: Option<i64>,
}

/// The options of a selection: whether a multiplier is given, and the period
/// if one is given.
#[derive(Clone, Copy, Debug, PartialEq, Eq, Structural)]
pub struct OptionShape {
    pub has_multiplier: bool,
    pub period: Option<i64>,
}

/// What a request selects: the indicator (`None` where its wire number names
/// none) and its options.
#[derive(Clone, Copy, Debug, PartialEq, Eq, Structural)]
pub struct Selection {
    pub l: Option<IndicatorType>,
    pub options: Option<OptionShape>,
}

impl Selection {
    /// The selection that a request makes: its wire number decoded, and
    /// options that give both a multiplier and a period where the request
    /// carries options, and neither where it does not.
    pub open spec fn spec_from_request(req: IndicatorRequest) -> Selection {
        Selection {
            l: IndicatorType::spec_from_id(req.id as int),
            options: Some(
                OptionShape { has_multiplier: req.opt_period is Some, period: req.opt_period },
            ),
        }
    }

    /// Decodes a request into what it selects.
    pub fn from_request(req: &IndicatorRequest) -> (r: Selection)
        ensures
            r == Selection::spec_from_request(*req),
    {
        let l = IndicatorType::from_id(req.id);
        let has_multiplier = match req.opt_period {
            Some(_) => true,
            None => false,
        };
        Selection { l, options: Some(OptionShape { has_multiplier, period: req.opt_period }) }
    }
}

} // verus!
