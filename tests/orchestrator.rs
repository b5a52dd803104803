use waterpi::{
    event_from_select, Configuration, Controller, Event, LoopControl, Orchestrator, PumpCommand,
    SensorPumpPair, TimeSpan, WaterPumpMock,
};

fn orchestrator(n: usize) -> Orchestrator<WaterPumpMock> {
    let mut controllers = Vec::new();
    for i in 0..n {
        controllers.push(Controller::new(
            format!("pair{}", i),
            600,
            TimeSpan::from_millis(1000),
            TimeSpan::from_millis(100),
            WaterPumpMock::new(),
        ));
    }
    Orchestrator::new(controllers)
}

fn calls(o: &Orchestrator<WaterPumpMock>, pair: usize) -> Vec<PumpCommand> {
    o.controller(pair).pump().calls.clone()
}

#[test]
fn reading_goes_to_its_own_pair_only() {
    let mut o = orchestrator(3);
    assert_eq!(o.handle_at(Event::Reading { pair: 1, value: 601 }, 0), LoopControl::Continue);
    assert_eq!(calls(&o, 0), vec![]);
    assert_eq!(calls(&o, 1), vec![PumpCommand::On]);
    assert_eq!(calls(&o, 2), vec![]);
    assert_eq!(o.handle_at(Event::Reading { pair: 2, value: 601 }, 10), LoopControl::Continue);
    assert_eq!(calls(&o, 0), vec![]);
    assert_eq!(calls(&o, 1), vec![PumpCommand::On]);
    assert_eq!(calls(&o, 2), vec![PumpCommand::On]);
    assert_eq!(o.controller(2).last_water_time(), Some(10));
}

#[test]
fn reading_for_an_unknown_pair_is_ignored() {
    let mut o = orchestrator(2);
    assert_eq!(o.handle_at(Event::Reading { pair: 2, value: 601 }, 0), LoopControl::Continue);
    assert_eq!(calls(&o, 0), vec![]);
    assert_eq!(calls(&o, 1), vec![]);
    assert!(o.is_running());
}

#[test]
fn shutdown_stops_every_pump_once() {
    let mut o = orchestrator(3);
    o.handle_at(Event::Reading { pair: 0, value: 601 }, 0);
    assert_eq!(o.handle_at(Event::Shutdown, 5), LoopControl::Exit);
    assert!(!o.is_running());
    assert_eq!(calls(&o, 0), vec![PumpCommand::On, PumpCommand::Stop]);
    assert_eq!(calls(&o, 1), vec![PumpCommand::Stop]);
    assert_eq!(calls(&o, 2), vec![PumpCommand::Stop]);
    // pending readings and a second shutdown change nothing
    assert_eq!(o.handle_at(Event::Reading { pair: 1, value: 601 }, 6), LoopControl::Exit);
    assert_eq!(o.handle_at(Event::Shutdown, 7), LoopControl::Exit);
    assert_eq!(o.handle_at(Event::Closed { pair: 0 }, 8), LoopControl::Exit);
    assert_eq!(calls(&o, 0), vec![PumpCommand::On, PumpCommand::Stop]);
    assert_eq!(calls(&o, 1), vec![PumpCommand::Stop]);
    assert_eq!(calls(&o, 2), vec![PumpCommand::Stop]);
}

#[test]
fn closed_channel_shuts_everything_down() {
    let mut o = orchestrator(2);
    assert_eq!(o.handle(Event::Closed { pair: 1 }), LoopControl::Exit);
    assert_eq!(calls(&o, 0), vec![PumpCommand::Stop]);
    assert_eq!(calls(&o, 1), vec![PumpCommand::Stop]);
}

#[test]
fn shutdown_with_no_pairs() {
    let mut o = orchestrator(0);
    assert_eq!(o.len(), 0);
    assert_eq!(o.handle(Event::Shutdown), LoopControl::Exit);
    assert!(!o.is_running());
}

#[test]
fn handle_times_readings_by_its_clock() {
    let mut o = orchestrator(2);
    assert_eq!(o.handle(Event::Reading { pair: 0, value: 601 }), LoopControl::Continue);
    assert_eq!(calls(&o, 0), vec![PumpCommand::On]);
    assert_eq!(calls(&o, 1), vec![]);
}

#[test]
fn select_index_zero_is_shutdown() {
    assert_eq!(event_from_select(0, None), Event::Shutdown);
    assert_eq!(event_from_select(0, Some(5)), Event::Shutdown);
}

#[test]
fn select_index_maps_to_pair() {
    assert_eq!(event_from_select(1, Some(601)), Event::Reading { pair: 0, value: 601 });
    assert_eq!(event_from_select(3, Some(0)), Event::Reading { pair: 2, value: 0 });
    assert_eq!(event_from_select(2, None), Event::Closed { pair: 1 });
}

#[test]
fn time_span_units() {
    assert_eq!(TimeSpan::from_nanos(7).nanos, 7);
    assert_eq!(TimeSpan::from_millis(100).nanos, 100_000_000);
    assert_eq!(TimeSpan::from_secs(3).nanos, 3_000_000_000);
    assert_eq!(TimeSpan::from_secs(u64::MAX).nanos, u64::MAX);
    assert_eq!(TimeSpan::from_millis(u64::MAX).nanos, u64::MAX);
}

#[test]
fn controller_from_configuration() {
    let config = Configuration {
        sensors_pumps: vec![SensorPumpPair {
            name: "basil".to_owned(),
            sensor_channel: 0,
            sensor_polling_time_seconds: 5,
            watering_threshold: 600,
            watering_throttle_seconds: 60,
            watering_duration_seconds: 2,
            pump_pin: 17,
            dry_run: true,
        }],
    };
    let pair = &config.sensors_pumps[0];
    assert_eq!(pair.polling_interval().nanos, 5_000_000_000);
    let mut c = pair.controller(WaterPumpMock::new());
    assert_eq!(c.name(), "basil");
    assert_eq!(c.threshold(), 600);
    c.new_reading_at(601, 0).unwrap();
    c.new_reading_at(601, 1_999_999_999).unwrap();
    assert_eq!(c.pump().calls, vec![PumpCommand::On]);
    c.new_reading_at(601, 2_000_000_000).unwrap();
    assert_eq!(c.pump().calls, vec![PumpCommand::On, PumpCommand::Off]);
    c.new_reading_at(601, 60_000_000_000).unwrap();
    assert_eq!(c.pump().calls, vec![PumpCommand::On, PumpCommand::Off, PumpCommand::On]);
}

#[test]
fn mock_pump_counts_commands() {
    let mut c = Controller::new(
        "m".to_owned(),
        10,
        TimeSpan::from_nanos(0),
        TimeSpan::from_nanos(0),
        WaterPumpMock::new(),
    );
    c.new_reading_at(11, 0).unwrap();
    c.new_reading_at(11, 1).unwrap();
    c.new_reading_at(5, 2).unwrap();
    c.stop();
    assert_eq!(c.pump().count(PumpCommand::On), 2);
    assert_eq!(c.pump().count(PumpCommand::Off), 1);
    assert_eq!(c.pump().count(PumpCommand::Stop), 1);
}
