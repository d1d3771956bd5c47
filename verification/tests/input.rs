use mp3lame_encoder::{DualPcm, InterleavedPcm, MonoPcm};

#[test]
fn mono_count_is_the_slice_length() {
    let samples = [0i16; 7];
    assert_eq!(MonoPcm(&samples).sample_count(), 7);
    let empty: [i16; 0] = [];
    assert_eq!(MonoPcm(&empty).sample_count(), 0);
}

#[test]
fn mono_count_is_the_same_for_every_element_type() {
    assert_eq!(MonoPcm(&[0u16; 5]).sample_count(), 5);
    assert_eq!(MonoPcm(&[0i32; 5]).sample_count(), 5);
    assert_eq!(MonoPcm(&[0f32; 5]).sample_count(), 5);
    assert_eq!(MonoPcm(&[0f64; 5]).sample_count(), 5);
}

#[test]
fn dual_count_of_equal_channels_is_their_length() {
    let left = [0i16; 4];
    let right = [0i16; 4];
    assert_eq!(DualPcm { left: &left, right: &right }.sample_count(), 4);
}

#[test]
fn dual_count_of_unequal_channels_is_the_minimum() {
    let left = [0i16; 6];
    let right = [0i16; 2];
    assert_eq!(DualPcm { left: &left, right: &right }.sample_count(), 2);
    assert_eq!(DualPcm { left: &right, right: &left }.sample_count(), 2);
}

#[test]
fn interleaved_count_is_half_the_length() {
    let pairs = [0i16; 8];
    assert_eq!(InterleavedPcm(&pairs).sample_count(), 4);
}

#[test]
fn interleaved_count_of_odd_length_rounds_down() {
    let odd = [0i16; 9];
    assert_eq!(InterleavedPcm(&odd).sample_count(), 4);
    let one = [0f32; 1];
    assert_eq!(InterleavedPcm(&one).sample_count(), 0);
}
