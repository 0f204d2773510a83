use indicators::grpc::indicator_service::{
    bollinger_bands, exponential_moving_average, max_drawdown, max_drawup, maximum,
    mean_absolute_deviation, minimum, rate_of_change, relative_strength_index,
    simple_moving_average, standard_deviation, IndicatorPlan, Multiplier, RequestError, STATUS_NOT_FOUND,
    DEFAULT_BOLLINGER_MULTIPLIER, DEFAULT_BOLLINGER_PERIOD,
};
use indicators::grpc::types::{IndicatorRequest, IndicatorType, OptionShape, Selection, INDICATOR_COUNT};
use indicators::timeline::{days_to_seconds, Origin, Schedule, MAX_DELTA_SECS};
use indicators::IndicatorService;

const START_2020: i64 = 1_577_836_800;
const START_2023: i64 = 1_672_531_200;

const ALL: [IndicatorType; 11] = [
    IndicatorType::BollingerBands,
    IndicatorType::ExponentialMovingAverage,
    IndicatorType::MaxDrawdown,
    IndicatorType::MaxDrawup,
    IndicatorType::Maximum,
    IndicatorType::MeanAbsoluteDeviation,
    IndicatorType::Minimum,
    IndicatorType::RateOfChange,
    IndicatorType::RelativeStrengthIndex,
    IndicatorType::SimpleMovingAverage,
    IndicatorType::StandardDeviation,
];

#[test]
fn wire_numbers_follow_declaration_order() {
    for (i, t) in ALL.iter().enumerate() {
        assert_eq!(t.id(), i as i32);
    }
    assert_eq!(INDICATOR_COUNT, 11);
}

#[test]
fn wire_numbers_round_trip() {
    for t in ALL.iter() {
        assert_eq!(IndicatorType::from_id(t.id()), Some(*t));
    }
    for id in -3..20 {
        if let Some(t) = IndicatorType::from_id(id) {
            assert_eq!(t.id(), id);
        }
    }
}

#[test]
fn unknown_wire_numbers() {
    assert_eq!(IndicatorType::from_id(-1), None);
    assert_eq!(IndicatorType::from_id(11), None);
    assert_eq!(IndicatorType::from_id(i32::MAX), None);
    assert_eq!(IndicatorType::from_id(i32::MIN), None);
    assert_eq!(IndicatorType::from_id(10), Some(IndicatorType::StandardDeviation));
    assert_eq!(IndicatorType::from_id(6), Some(IndicatorType::Minimum));
}

#[test]
fn request_decoding() {
    let sel = Selection::from_request(&IndicatorRequest { id: 4, opt_period: Some(9) });
    assert_eq!(sel.l, Some(IndicatorType::Maximum));
    assert_eq!(sel.options, Some(OptionShape { has_multiplier: true, period: Some(9) }));
    let sel = Selection::from_request(&IndicatorRequest { id: 42, opt_period: None });
    assert_eq!(sel.l, None);
    assert_eq!(sel.options, Some(OptionShape { has_multiplier: false, period: None }));
}

#[test]
fn days_in_seconds() {
    assert_eq!(days_to_seconds(5), Some(432_000));
    assert_eq!(days_to_seconds(-2), Some(-172_800));
    assert_eq!(days_to_seconds(0), Some(0));
    let bound = MAX_DELTA_SECS / 86_400;
    assert_eq!(days_to_seconds(bound), Some(bound * 86_400));
    assert_eq!(days_to_seconds(bound + 1), None);
    assert_eq!(days_to_seconds(-bound - 1), None);
    assert_eq!(days_to_seconds(i64::MAX), None);
    assert_eq!(days_to_seconds(i64::MIN), None);
}

fn sched(window: i64, origin: Origin, offset: i64, step: i64, wraps: bool) -> Schedule {
    Schedule { window_secs: window, origin, offset_secs: offset, step_secs: step, index_wraps_i32: wraps }
}

#[test]
fn indicator_schedules() {
    assert_eq!(bollinger_bands(5), sched(432_000, Origin::Now, 0, 86_400, false));
    assert_eq!(bollinger_bands(7), sched(604_800, Origin::Now, 0, 86_400, false));
    assert_eq!(exponential_moving_average(), sched(432_000, Origin::Now, 0, 86_400, false));
    assert_eq!(max_drawdown(), sched(10_000, Origin::At(START_2020), 0, 1, false));
    assert_eq!(max_drawup(), sched(2, Origin::At(START_2020), 0, 1, false));
    assert_eq!(maximum(), sched(100, Origin::At(START_2020), 0, 50, false));
    assert_eq!(mean_absolute_deviation(), sched(5, Origin::At(0), 0, 1, false));
    assert_eq!(minimum(), sched(172_800, Origin::At(START_2023), 0, 0, false));
    assert_eq!(rate_of_change(), sched(3, Origin::At(START_2020), 0, 1, false));
    assert_eq!(relative_strength_index(), sched(259_200, Origin::At(START_2020), 86_400, 0, false));
    assert_eq!(simple_moving_average(), sched(5, Origin::Now, 0, 1, true));
    assert_eq!(standard_deviation(), sched(4, Origin::Now, 3, 1, false));
    assert_eq!(IndicatorType::Maximum.schedule(123), maximum());
    assert_eq!(IndicatorType::BollingerBands.schedule(3), bollinger_bands(3));
}

#[test]
fn series_offsets() {
    assert_eq!(maximum().offsets(4), Some(vec![0, 50, 100, 150]));
    assert_eq!(standard_deviation().offsets(3), Some(vec![3, 4, 5]));
    assert_eq!(relative_strength_index().offsets(3), Some(vec![86_400, 86_400, 86_400]));
    assert_eq!(minimum().offsets(2), Some(vec![0, 0]));
    assert_eq!(bollinger_bands(5).offsets(3), Some(vec![0, 86_400, 172_800]));
    assert_eq!(max_drawdown().offsets(0), Some(vec![]));
}

#[test]
fn series_offsets_edges() {
    let sma = simple_moving_average();
    assert_eq!(sma.offset_at(7), Some(7));
    assert_eq!(sma.offset_at(1usize << 31), Some(-(1i64 << 31)));
    assert_eq!(sma.offset_at((1usize << 32) + 5), Some(5));
    let ema = exponential_moving_average();
    let last = (MAX_DELTA_SECS / 86_400) as usize;
    assert_eq!(ema.offset_at(last), Some(last as i64 * 86_400));
    assert_eq!(ema.offset_at(last + 1), None);
    assert_eq!(ema.offset_at(usize::MAX), None);
    let sd = standard_deviation();
    assert_eq!(sd.offset_at(MAX_DELTA_SECS as usize - 3), Some(MAX_DELTA_SECS));
    assert_eq!(sd.offset_at(MAX_DELTA_SECS as usize - 2), None);
}

#[test]
fn refused_request() {
    let service = IndicatorService::default();
    let sel = Selection::from_request(&IndicatorRequest { id: 11, opt_period: Some(3) });
    let r = service.gen_liste_plan(&sel);
    assert_eq!(r, Err(RequestError::ActionNotFound));
    assert_eq!(RequestError::ActionNotFound.message(), "Action not found");
    assert_eq!(RequestError::ActionNotFound.status_code(), 5);
    assert_eq!(STATUS_NOT_FOUND, 5);
    let sel = Selection { l: None, options: None };
    assert!(sel.plannable());
    assert_eq!(service.gen_liste_plan(&sel), Err(RequestError::ActionNotFound));
}

#[test]
fn bollinger_plans() {
    let service = IndicatorService::default();
    let expected_default = IndicatorPlan {
        kind: IndicatorType::BollingerBands,
        schedule: bollinger_bands(DEFAULT_BOLLINGER_PERIOD),
        multiplier: Multiplier::Default,
    };
    assert_eq!(DEFAULT_BOLLINGER_PERIOD, 5);
    assert_eq!(DEFAULT_BOLLINGER_MULTIPLIER, 2);
    assert_eq!(service.gen_list_plan(), expected_default);
    let sel = Selection::from_request(&IndicatorRequest { id: 0, opt_period: None });
    assert_eq!(service.gen_liste_plan(&sel), Ok(expected_default));
    let sel = Selection::from_request(&IndicatorRequest { id: 0, opt_period: Some(10) });
    assert_eq!(sel.bollinger_period(), 10);
    assert_eq!(
        service.gen_liste_plan(&sel),
        Ok(IndicatorPlan {
            kind: IndicatorType::BollingerBands,
            schedule: bollinger_bands(10),
            multiplier: Multiplier::Requested,
        })
    );
    let sel = Selection {
        l: Some(IndicatorType::BollingerBands),
        options: Some(OptionShape { has_multiplier: false, period: Some(2) }),
    };
    assert_eq!(
        service.gen_liste_plan(&sel),
        Ok(IndicatorPlan {
            kind: IndicatorType::BollingerBands,
            schedule: bollinger_bands(2),
            multiplier: Multiplier::Default,
        })
    );
}

#[test]
fn unrepresentable_bollinger_period() {
    let sel = Selection::from_request(&IndicatorRequest { id: 0, opt_period: Some(i64::MAX) });
    assert!(!sel.plannable());
    let sel = Selection::from_request(&IndicatorRequest { id: 1, opt_period: Some(i64::MAX) });
    assert!(sel.plannable());
}

#[test]
fn other_plans_ignore_options() {
    let service = IndicatorService::default();
    for t in ALL.iter().skip(1) {
        let sel = Selection::from_request(&IndicatorRequest { id: t.id(), opt_period: Some(9) });
        let plan = service.gen_liste_plan(&sel).unwrap();
        assert_eq!(plan.kind, *t);
        assert_eq!(plan.multiplier, Multiplier::Default);
        assert_eq!(plan.schedule, t.schedule(0));
    }
}

#[test]
fn series_direction_examples() {
    for t in ALL.iter() {
        let offs = t.schedule(5).offsets(5).unwrap();
        for w in offs.windows(2) {
            match t {
                IndicatorType::Minimum | IndicatorType::RelativeStrengthIndex => assert_eq!(w[0], w[1]),
                _ => assert!(w[0] < w[1]),
            }
        }
    }
}

#[test]
fn conf_reload_answer() {
    assert_eq!(IndicatorService::default().conf_reload_result(), "ee");
}
