use tinyaudio::interleave::channel_samples;

#[test]
fn stereo_buffer_is_split_into_left_and_right() {
    let interleaved = [1.0f32, -1.0, 2.0, -2.0, 3.0, -3.0];
    let mut samples = vec![9.0f32; 10];
    channel_samples(&interleaved, 2, 0, &mut samples);
    assert_eq!(samples, vec![1.0, 2.0, 3.0]);
    channel_samples(&interleaved, 2, 1, &mut samples);
    assert_eq!(samples, vec![-1.0, -2.0, -3.0]);
}

#[test]
fn mono_buffer_is_its_own_channel() {
    let interleaved = [5u32, 6, 7];
    let mut samples = Vec::new();
    channel_samples(&interleaved, 1, 0, &mut samples);
    assert_eq!(samples, vec![5, 6, 7]);
}

#[test]
fn every_channel_of_a_wide_buffer_comes_out_in_frame_order() {
    let channels = 5;
    let frames = 40;
    let interleaved: Vec<u32> = (0..channels * frames).collect();
    for channel in 0..channels {
        let mut samples = Vec::new();
        channel_samples(&interleaved, channels as usize, channel as usize, &mut samples);
        assert_eq!(samples.len(), frames as usize);
        for (frame, sample) in samples.iter().enumerate() {
            assert_eq!(*sample, frame as u32 * channels + channel);
        }
    }
}

#[test]
fn empty_buffer_has_empty_channels() {
    let interleaved: [u32; 0] = [];
    let mut samples = vec![1u32];
    channel_samples(&interleaved, 3, 2, &mut samples);
    assert!(samples.is_empty());
}
