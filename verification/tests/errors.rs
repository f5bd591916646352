use seraph::Error;

#[test]
fn engine_error_without_message_is_unknown() {
    let e = Error::from_engine(None);
    assert_eq!(e.message(), "unknown error");
    assert_eq!(e.to_string(), "unknown error");
}

#[test]
fn engine_error_keeps_its_message() {
    let e = Error::from_engine(Some("store is sealed".to_string()));
    assert_eq!(e.message(), "store is sealed");
}

#[test]
fn buffer_too_small_names_both_sizes() {
    let e = Error::buffer_too_small(384, 16);
    assert_eq!(e.message(), "buffer too small: need 384, have 16");
    assert_eq!(e.to_string(), format!("buffer too small: need {}, have {}", 384, 16));
}

#[test]
fn buffer_too_small_with_zero_capacity() {
    let e = Error::buffer_too_small(768, 0);
    assert_eq!(e.message(), "buffer too small: need 768, have 0");
}

#[test]
fn sizes_are_written_as_std_formats_them() {
    for n in [0usize, 1, 9, 10, 11, 99, 100, 101, 1000, 4096, 65535, 1234567890, usize::MAX] {
        let e = Error::buffer_too_small(n, n / 2);
        assert_eq!(e.message(), format!("buffer too small: need {}, have {}", n, n / 2));
    }
}

#[test]
fn required_size_reads_back_from_the_message() {
    for n in [0usize, 7, 42, 100000, 987654321] {
        let e = Error::buffer_too_small(n, 3);
        let text = e.to_string();
        let need = text.strip_prefix("buffer too small: need ").unwrap();
        let need = need.split(',').next().unwrap();
        assert_eq!(need.parse::<usize>().unwrap(), n);
    }
}
