use visio::sampler::{
    sample_all_from_readings, status_accepted, tof_center_at, RangeStatus, Sampler, SensorCommand,
    SensorEvent,
};

#[test]
fn accepted_statuses() {
    assert!(status_accepted(RangeStatus::Valid));
    assert!(status_accepted(RangeStatus::SignalFailure));
    assert!(status_accepted(RangeStatus::MinRangeFailure));
    assert!(!status_accepted(RangeStatus::Pending));
    assert!(!status_accepted(RangeStatus::OtherFailure));
}

#[test]
fn roi_center_table() {
    let expected: [u8; 16] = [
        10, 42, 74, 106, 14, 46, 78, 110, 245, 213, 181, 149, 241, 209, 177, 145,
    ];
    for (i, e) in expected.iter().enumerate() {
        assert_eq!(tof_center_at(i), *e);
    }
}

/// Drives one sampler round by hand and checks the exact command order:
/// stop, retarget, start, poll (repeated while not ready), clear, read.
#[test]
fn first_round_command_order() {
    let mut s = Sampler::new();
    assert!(!s.is_done());
    assert_eq!(s.index(), 0);

    assert_eq!(s.current_command(), Some(SensorCommand::StopRanging));
    s.step(SensorEvent::Acked);
    assert_eq!(s.current_command(), Some(SensorCommand::SetRoiCenter(10)));
    s.step(SensorEvent::Acked);
    assert_eq!(s.current_command(), Some(SensorCommand::StartRanging));
    s.step(SensorEvent::Acked);

    // A pending status keeps the sampler polling, with no other command.
    assert_eq!(s.current_command(), Some(SensorCommand::GetRangeStatus));
    s.step(SensorEvent::Status(RangeStatus::Pending));
    assert_eq!(s.current_command(), Some(SensorCommand::GetRangeStatus));
    s.step(SensorEvent::Status(RangeStatus::OtherFailure));
    assert_eq!(s.current_command(), Some(SensorCommand::GetRangeStatus));
    s.step(SensorEvent::Status(RangeStatus::SignalFailure));

    assert_eq!(s.current_command(), Some(SensorCommand::ClearInterrupt));
    s.step(SensorEvent::Acked);
    assert_eq!(s.current_command(), Some(SensorCommand::GetDistance));
    s.step(SensorEvent::Distance(777));

    // The round for index 0 is complete; index 1 starts with a stop.
    assert_eq!(s.index(), 1);
    assert_eq!(s.current_command(), Some(SensorCommand::StopRanging));
}

/// Runs a full scan by hand and checks that every slot receives its own
/// region's reading, in index order.
#[test]
fn full_scan_fills_all_slots() {
    let readings: Vec<u16> = (0u16..16).map(|i| 100 * i + 7).collect();
    let mut s = Sampler::new();
    let mut reads: usize = 0;
    while !s.is_done() {
        match s.current_command() {
            Some(SensorCommand::GetRangeStatus) => {
                s.step(SensorEvent::Status(RangeStatus::Valid));
            }
            Some(SensorCommand::GetDistance) => {
                assert_eq!(s.index(), reads);
                let d = readings[s.index()];
                s.step(SensorEvent::Distance(d));
                reads += 1;
            }
            Some(_) => s.step(SensorEvent::Acked),
            None => unreachable!(),
        }
    }
    assert_eq!(reads, 16);
    assert_eq!(s.into_distances(), readings);
}

#[test]
fn simulated_scan_returns_readings() {
    let readings: Vec<u16> = vec![
        1300, 500, 1000, 0, 9, 8, 1299, 1298, 65535, 1, 2, 3, 400, 600, 800, 1200,
    ];
    let out = sample_all_from_readings(&readings);
    assert_eq!(out, readings);
}
