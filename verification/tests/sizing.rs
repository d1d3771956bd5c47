use mp3lame_encoder::max_required_buffer_size;

#[test]
fn zero_samples_need_one_frame_of_slack() {
    assert_eq!(max_required_buffer_size(0), 7200);
}

#[test]
fn exact_formula_on_small_counts() {
    // n + ceil(n / 4) + 7200
    assert_eq!(max_required_buffer_size(1), 1 + 1 + 7200);
    assert_eq!(max_required_buffer_size(3), 3 + 1 + 7200);
    assert_eq!(max_required_buffer_size(4), 4 + 1 + 7200);
    assert_eq!(max_required_buffer_size(5), 5 + 2 + 7200);
    assert_eq!(max_required_buffer_size(8), 8 + 2 + 7200);
}

#[test]
fn exact_formula_on_a_frame_of_samples() {
    assert_eq!(max_required_buffer_size(1152), 1152 + 288 + 7200);
    assert_eq!(max_required_buffer_size(44100), 44100 + 11025 + 7200);
}

#[test]
fn saturates_instead_of_overflowing() {
    assert_eq!(max_required_buffer_size(usize::MAX), usize::MAX);
    assert_eq!(max_required_buffer_size(usize::MAX - 1), usize::MAX);
    assert_eq!(max_required_buffer_size(usize::MAX / 4 * 4), usize::MAX);
}

#[test]
fn largest_count_that_does_not_saturate() {
    // The largest n with n + ceil(n/4) + 7200 <= usize::MAX still gets
    // the exact value.
    let n = (usize::MAX - 7200) / 5 * 4;
    let expected = n + n.div_ceil(4) + 7200;
    assert_eq!(max_required_buffer_size(n), expected);
}
