use puzzle_timer::duration::duration_to_string;

#[test]
fn test_timer_duration_to_str() {
    for (s, millis) in [
        ("0.000", 0),
        ("0.001", 1),
        ("0.010", 10),
        ("0.100", 100),
        ("1.000", 1000),
        ("10.000", 10000),
        ("1:00.000", 60000),
        ("1:01.000", 61000),
        ("1:10.000", 70000),
        ("10:00.000", 600000),
        ("11:00.000", 660000),
        ("11:10.000", 670000),
        ("11:11.000", 671000),
        ("1:00:00.000", 3600000),
        ("10:00:00.000", 36000000),
        ("100:00:00.000", 360000000),
        ("23:02:14.903", 82934903),
    ] {
        assert_eq!(s, duration_to_string(millis));
    }
}

#[test]
fn duration_segment_edges() {
    // 59 seconds stays unpadded; the first minute brings the padding in.
    assert_eq!("59.999", duration_to_string(59999));
    // An exact hour keeps the minutes segment, zero-padded.
    assert_eq!("2:00:00.000", duration_to_string(7200000));
    // Minutes pad only once hours are shown.
    assert_eq!("9:05.000", duration_to_string(545000));
    assert_eq!("1:09:05.000", duration_to_string(4145000));
}
