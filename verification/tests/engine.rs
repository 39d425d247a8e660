use audio_mixer::Channel;
use audio_mixer::Mixer;

/// The ten-channel input layout the end-to-end tests mix down from.
fn ten_channel_input_layout() -> Vec<Channel> {
    vec![
        Channel::FrontLeft,
        Channel::Silence,
        Channel::FrontRight,
        Channel::FrontCenter,
        Channel::BackLeft,
        Channel::SideRight,
        Channel::LowFrequency,
        Channel::SideLeft,
        Channel::BackCenter,
        Channel::BackRight,
    ]
}

/// Applies an engine's representation-independent plan to a floating-point
/// frame: every output position receives the plain sum of its sources.
fn apply_plan_f32(mixer: &Mixer, input: &[f32], output: &mut [f32]) {
    assert_eq!(input.len(), mixer.input_channel_count());
    assert_eq!(output.len(), mixer.output_channel_count());
    let mut o: usize = 0;
    while o < mixer.output_channel_count() {
        let sources = mixer.output_sources(o);
        let mut accumulated: f32 = 0.0;
        let mut k: usize = 0;
        while k < sources.len() {
            accumulated += input[sources[k]];
            k += 1;
        }
        output[o] = accumulated;
        o += 1;
    }
}

#[test]
fn lib_test_c_api() {
    let input_channels = ten_channel_input_layout();
    let output_channels = vec![Channel::Silence, Channel::FrontRight, Channel::FrontLeft];

    let mixer = Mixer::new(input_channels.clone(), output_channels.clone()).unwrap();

    let input_f32: Vec<f32> = (1u8..=10).map(f32::from).collect();
    let mut output_f32 = vec![0.0f32; output_channels.len()];
    apply_plan_f32(&mixer, &input_f32, &mut output_f32);
    println!("{:?} is mixed to {:?}", input_f32, output_f32);
    assert_eq!(output_f32, vec![0.0, 3.0, 1.0]);

    let input_i16: Vec<i16> = (1i16..=10).collect();
    let mut output_i16 = vec![0i16; output_channels.len()];
    mixer.mix(&input_i16, &mut output_i16);
    println!("{:?} is mixed to {:?}", input_i16, output_i16);
    assert_eq!(output_i16, vec![0, 3, 1]);
}

#[test]
fn capi_test_c_api() {
    let input_channels = ten_channel_input_layout();
    let output_channels = vec![Channel::Silence, Channel::FrontRight, Channel::FrontLeft];

    let mixer = Mixer::new(input_channels.clone(), output_channels.clone()).unwrap();

    let input_f32: Vec<f32> = (1u8..=10).map(f32::from).collect();
    let mut output_f32 = vec![0.0f32; output_channels.len()];
    apply_plan_f32(&mixer, &input_f32, &mut output_f32);
    let expected_f32 = vec![0.0f32, 3.0, 1.0];
    assert_eq!(output_f32, expected_f32);

    let input_i16: Vec<i16> = (1i16..=10).collect();
    let mut output_i16 = vec![0i16; output_channels.len()];
    mixer.mix(&input_i16, &mut output_i16);
    let expected_i16 = vec![0i16, 3, 1];
    assert_eq!(output_i16, expected_i16);
}

#[test]
fn identity_pass_through_i16() {
    for value in [i16::MIN, -12345, -1, 0, 1, 2, 32766, i16::MAX] {
        let mixer =
            Mixer::new(vec![Channel::FrontCenter], vec![Channel::FrontCenter]).unwrap();
        let mut output = vec![0i16; 1];
        mixer.mix(&vec![value], &mut output);
        assert_eq!(output, vec![value]);
    }
}

#[test]
fn silence_output_yields_zero() {
    let mixer = Mixer::new(
        vec![Channel::Silence, Channel::FrontLeft],
        vec![Channel::Silence, Channel::FrontLeft],
    )
    .unwrap();
    let mut output = vec![77i16; 2];
    mixer.mix(&vec![i16::MAX, -5], &mut output);
    assert_eq!(output, vec![0, -5]);
}

#[test]
fn unmatched_output_zero_filled() {
    let mixer = Mixer::new(
        vec![Channel::FrontLeft, Channel::FrontRight],
        vec![Channel::BackCenter],
    )
    .unwrap();
    let mut output = vec![123i16; 1];
    mixer.mix(&vec![1000, 2000], &mut output);
    assert_eq!(output, vec![0]);
}

#[test]
fn floating_summation_exact() {
    let mixer = Mixer::new(
        vec![Channel::FrontLeft, Channel::FrontLeft],
        vec![Channel::FrontLeft],
    )
    .unwrap();
    let mut output = vec![0.0f32; 1];
    apply_plan_f32(&mixer, &[0.25, 0.5], &mut output);
    assert_eq!(output, vec![0.75]);
}

#[test]
fn fixed_point_summation_saturates() {
    let mixer = Mixer::new(
        vec![Channel::SideLeft, Channel::SideLeft],
        vec![Channel::SideLeft],
    )
    .unwrap();

    let mut output = vec![0i16; 1];
    mixer.mix(&vec![i16::MAX, i16::MAX], &mut output);
    assert_eq!(output, vec![i16::MAX]);

    mixer.mix(&vec![i16::MIN, i16::MIN], &mut output);
    assert_eq!(output, vec![i16::MIN]);

    mixer.mix(&vec![30000, 10000], &mut output);
    assert_eq!(output, vec![i16::MAX]);

    mixer.mix(&vec![-30000, -10000], &mut output);
    assert_eq!(output, vec![i16::MIN]);

    mixer.mix(&vec![30000, -10000], &mut output);
    assert_eq!(output, vec![20000]);
}

#[test]
fn mix_is_deterministic() {
    let mixer = Mixer::new(
        ten_channel_input_layout(),
        vec![Channel::FrontLeft, Channel::Silence, Channel::BackRight],
    )
    .unwrap();
    let input: Vec<i16> = (1i16..=10).map(|v| v * -3131).collect();
    let mut first = vec![0i16; 3];
    let mut second = vec![9i16; 3];
    mixer.mix(&input, &mut first);
    mixer.mix(&input, &mut second);
    assert_eq!(first, second);
}

#[test]
fn scenario_floating_passthrough_with_silence() {
    let mixer = Mixer::new(
        vec![Channel::FrontLeft, Channel::FrontRight],
        vec![Channel::FrontLeft, Channel::FrontRight, Channel::Silence],
    )
    .unwrap();
    let mut output = vec![0.0f32; 3];
    apply_plan_f32(&mixer, &[1.0, 2.0], &mut output);
    assert_eq!(output, vec![1.0, 2.0, 0.0]);
}

#[test]
fn scenario_duplicate_inputs_summed() {
    let mixer = Mixer::new(
        vec![Channel::FrontLeft, Channel::FrontLeft],
        vec![Channel::FrontLeft],
    )
    .unwrap();
    let mut output = vec![0i16; 1];
    mixer.mix(&vec![3, 4], &mut output);
    assert_eq!(output, vec![7]);
}

#[test]
fn duplicate_outputs_each_receive_the_match() {
    let mixer = Mixer::new(
        vec![Channel::LowFrequency],
        vec![Channel::LowFrequency, Channel::LowFrequency],
    )
    .unwrap();
    let mut output = vec![0i16; 2];
    mixer.mix(&vec![-321], &mut output);
    assert_eq!(output, vec![-321, -321]);
}

#[test]
fn single_source_passes_through_unaltered() {
    let mixer = Mixer::new(ten_channel_input_layout(), vec![Channel::BackRight]).unwrap();
    let mut output = vec![0i16; 1];
    let input = vec![100, 200, 300, 400, 500, 600, 700, 800, 900, -31000];
    mixer.mix(&input, &mut output);
    assert_eq!(output, vec![-31000]);
}

#[test]
fn input_silence_supplies_zero() {
    let mixer = Mixer::new(
        vec![Channel::Silence, Channel::Silence],
        vec![Channel::Silence, Channel::FrontLeft],
    )
    .unwrap();
    let mut output = vec![55i16; 2];
    mixer.mix(&vec![1234, -4321], &mut output);
    assert_eq!(output, vec![0, 0]);
}
