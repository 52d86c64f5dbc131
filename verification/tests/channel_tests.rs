use visio::channels::{channel_from, MotorChannel};

#[test]
fn channels_in_order() {
    assert_eq!(channel_from(0), MotorChannel::C0);
    assert_eq!(channel_from(1), MotorChannel::C1);
    assert_eq!(channel_from(2), MotorChannel::C2);
    assert_eq!(channel_from(3), MotorChannel::C3);
    assert_eq!(channel_from(4), MotorChannel::C4);
    assert_eq!(channel_from(5), MotorChannel::C5);
    assert_eq!(channel_from(6), MotorChannel::C6);
    assert_eq!(channel_from(7), MotorChannel::C7);
    assert_eq!(channel_from(8), MotorChannel::C8);
    assert_eq!(channel_from(9), MotorChannel::C9);
    assert_eq!(channel_from(10), MotorChannel::C10);
    assert_eq!(channel_from(11), MotorChannel::C11);
    assert_eq!(channel_from(12), MotorChannel::C12);
    assert_eq!(channel_from(13), MotorChannel::C13);
    assert_eq!(channel_from(14), MotorChannel::C14);
    assert_eq!(channel_from(15), MotorChannel::C15);
}

#[test]
fn channels_are_distinct() {
    let channels: Vec<MotorChannel> = (0u8..16).map(channel_from).collect();
    for i in 0..16 {
        assert_ne!(channels[i], MotorChannel::All);
        for j in 0..16 {
            if i != j {
                assert_ne!(channels[i], channels[j]);
            }
        }
    }
}

#[test]
fn out_of_range_resolves_to_all() {
    assert_eq!(channel_from(16), MotorChannel::All);
    assert_eq!(channel_from(17), MotorChannel::All);
    assert_eq!(channel_from(255), MotorChannel::All);
}
