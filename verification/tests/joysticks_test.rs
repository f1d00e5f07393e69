use lintx::control::mixer::MixerOutMsg;
use lintx::joysticks_test::channel_out;

#[test]
fn test_channel_out() {
    for i in 0..3 as u16 {
        let mixout = MixerOutMsg {
            channels: [i * 100; 16],
        };
        let text = channel_out(&mixout);
        let v = i * 100;
        assert_eq!(
            text,
            format!(
                "\x1b[2KCH3 Thrust:{v}\n\x1b[2KCH4 Direction:{v}\n\x1b[2KCH1 Aileron:{v}\n\x1b[2KCH2 Elevator:{v}\n\x1b[4A"
            )
        );
    }
}

#[test]
fn channel_out_orders_thrust_direction_aileron_elevator() {
    let mut channels = [0u16; 16];
    channels[0] = 1;
    channels[1] = 2;
    channels[2] = 3;
    channels[3] = 4;
    let text = channel_out(&MixerOutMsg { channels });
    assert_eq!(
        text,
        "\x1b[2KCH3 Thrust:3\n\x1b[2KCH4 Direction:4\n\x1b[2KCH1 Aileron:1\n\x1b[2KCH2 Elevator:2\n\x1b[4A"
    );
}
