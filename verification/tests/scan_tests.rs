use visio::channels::{channel_from, MotorChannel};
use visio::scan::{actuation_commands, scan_cycle_from_readings, scan_step};

#[test]
fn far_scene_actuates_all_zero() {
    let readings: Vec<u16> = vec![1300; 16];
    let out = scan_cycle_from_readings(&readings);
    assert_eq!(out.commands.len(), 16);
    for (i, cmd) in out.commands.iter().enumerate() {
        assert_eq!(cmd.channel, channel_from(i as u8));
        assert_eq!(cmd.on, 0);
        assert_eq!(cmd.off, 0);
    }
}

#[test]
fn mid_scene_actuates_533_everywhere() {
    let readings: Vec<u16> = vec![500; 16];
    let out = scan_cycle_from_readings(&readings);
    assert_eq!(out.commands.len(), 16);
    for (i, cmd) in out.commands.iter().enumerate() {
        assert_eq!(cmd.channel, channel_from(i as u8));
        assert_eq!(cmd.on, 0);
        assert_eq!(cmd.off, 533);
    }
}

#[test]
fn commands_follow_mapper_element_wise() {
    let distances: Vec<u16> = vec![
        0, 9, 500, 1000, 1299, 1300, 65535, 100, 1298, 8, 650, 700, 750, 1250, 50, 1,
    ];
    let expected_off: [u16; 16] = [
        0, 860, 533, 200, 0, 0, 0, 800, 1, 0, 433, 400, 366, 33, 833, 0,
    ];
    let cmds = actuation_commands(&distances);
    assert_eq!(cmds.len(), 16);
    for i in 0..16 {
        assert_eq!(cmds[i].channel, channel_from(i as u8));
        assert_eq!(cmds[i].on, 0);
        assert_eq!(cmds[i].off, expected_off[i]);
    }
}

#[test]
fn scan_step_renders_and_actuates_same_array() {
    let distances: Vec<u16> = vec![
        500, 500, 500, 500, 1300, 1300, 1300, 1300, 1000, 1000, 1000, 1000, 9, 9, 9, 9,
    ];
    let out = scan_step(&distances);
    assert_eq!(
        out.display,
        "500  500  500  500\n1300  1300  1300  1300\n1000  1000  1000  1000\n9  9  9  9"
    );
    assert_eq!(out.commands.len(), 16);
    for i in 0..4 {
        assert_eq!(out.commands[i].off, 533);
        assert_eq!(out.commands[i + 4].off, 0);
        assert_eq!(out.commands[i + 8].off, 200);
        assert_eq!(out.commands[i + 12].off, 860);
    }
    assert_eq!(out.commands[15].channel, MotorChannel::C15);
}
