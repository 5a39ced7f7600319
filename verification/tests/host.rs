use rf_comp::host::{accepts_channels, due_events, frame_input, write_frame};

#[test]
fn it_refuses_a_channel_configuration_it_cannot_serve() {
    assert!(!accepts_channels(0, 2));
    assert!(!accepts_channels(3, 2));
    assert!(!accepts_channels(2, 3));
    assert!(!accepts_channels(2, 0));
    assert!(accepts_channels(1, 2));
    assert!(accepts_channels(2, 2));
}

#[test]
fn a_frame_is_read_from_the_interleaved_block() {
    let stereo = [0.1_f32, 0.2, 0.3, 0.4];
    assert_eq!(frame_input(&stereo, 1, 2, 0.0), (0.3, 0.4));
    assert_eq!(frame_input(&stereo, 2, 2, 0.0), (0.0, 0.0));
    let mono = [0.5_f32, 0.6];
    assert_eq!(frame_input(&mono, 1, 1, 0.0), (0.6, 0.6));
    assert_eq!(frame_input(&mono, 0, 0, 0.0), (0.0, 0.0));
    let short = [0.1_f32, 0.2, 0.3];
    assert_eq!(frame_input(&short, 1, 2, -1.0), (0.3, -1.0));
}

#[test]
fn a_frame_is_written_to_every_output_channel() {
    let mut stereo = [9.0_f32; 4];
    write_frame(&mut stereo, 1, 2, 0.25, 0.75);
    assert_eq!(stereo, [9.0, 9.0, 0.25, 0.75]);
    let mut mono = [9.0_f32; 2];
    write_frame(&mut mono, 1, 1, 0.25, 0.75);
    assert_eq!(mono, [9.0, 0.25]);
    let mut short = [9.0_f32; 3];
    write_frame(&mut short, 1, 2, 0.25, 0.75);
    assert_eq!(short, [9.0, 9.0, 0.25]);
}

#[test]
fn automation_lands_on_its_own_frame() {
    let frames = [0_u32, 0, 3, 3, 5];
    assert_eq!(due_events(&frames, 0, 0), 2);
    assert_eq!(due_events(&frames, 2, 1), 2);
    assert_eq!(due_events(&frames, 2, 3), 4);
    assert_eq!(due_events(&frames, 4, 5), 5);
    assert_eq!(due_events(&frames, 5, 6), 5);
}
