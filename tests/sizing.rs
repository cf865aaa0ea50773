use uclcli::minimum_compression_buffer_size;

#[test]
fn minimum_size_of_nothing() {
    assert_eq!(minimum_compression_buffer_size(0), 256);
}

#[test]
fn minimum_size_small_lengths() {
    assert_eq!(minimum_compression_buffer_size(1), 257);
    assert_eq!(minimum_compression_buffer_size(4), 260);
    assert_eq!(minimum_compression_buffer_size(7), 263);
    assert_eq!(minimum_compression_buffer_size(8), 265);
    assert_eq!(minimum_compression_buffer_size(15), 272);
    assert_eq!(minimum_compression_buffer_size(16), 274);
}

#[test]
fn minimum_size_of_one_kilobyte() {
    assert_eq!(minimum_compression_buffer_size(1024), 1408);
}

#[test]
fn minimum_size_matches_formula() {
    for n in [0usize, 3, 100, 4095, 8191, 65536, 1 << 20, 4 * 1024 * 1024 * 1024] {
        assert_eq!(minimum_compression_buffer_size(n), n + n / 8 + 256);
    }
}
