use video_trimmer::error::ErrorKind;
use video_trimmer::naming::{output_file_name, output_stamp};

#[test]
fn the_first_name_holds_the_stamp_alone() {
    assert_eq!(output_file_name("20240102030405", 0), "trimmed_20240102030405.mp4");
    assert_eq!(output_file_name("", 0), "trimmed_.mp4");
}

#[test]
fn every_later_name_holds_the_number_of_the_attempt() {
    assert_eq!(output_file_name("20240102030405", 1), "trimmed_20240102030405_1.mp4");
    assert_eq!(output_file_name("20240102030405", 2), "trimmed_20240102030405_2.mp4");
    assert_eq!(output_file_name("20240102030405", 10), "trimmed_20240102030405_10.mp4");
    assert_eq!(
        output_file_name("20240102030405", u64::MAX),
        "trimmed_20240102030405_18446744073709551615.mp4"
    );
}

#[test]
fn the_stamp_is_the_date_and_time_in_utc() {
    assert_eq!(output_stamp(0).unwrap(), "19700101000000");
    assert_eq!(output_stamp(1_700_000_000).unwrap(), "20231114221320");
    assert_eq!(output_stamp(951_827_696).unwrap(), "20000229123456");
    assert_eq!(output_stamp(-1).unwrap(), "19691231235959");
}

#[test]
fn runs_in_different_seconds_get_different_names() {
    let first = output_file_name(&output_stamp(1_700_000_000).unwrap(), 0);
    let second = output_file_name(&output_stamp(1_700_000_001).unwrap(), 0);
    assert_ne!(first, second);
}

#[test]
fn attempts_in_the_same_second_get_different_names() {
    let stamp = output_stamp(1_700_000_000).unwrap();
    let names: Vec<String> = (0..12).map(|attempt| output_file_name(&stamp, attempt)).collect();
    for (i, first) in names.iter().enumerate() {
        for second in &names[i + 1..] {
            assert_ne!(first, second);
        }
    }
}

#[test]
fn a_reading_that_is_no_date() {
    for seconds in [i64::MAX, i64::MIN] {
        let error = output_stamp(seconds).err().unwrap();
        assert_eq!(error.kind, ErrorKind::ClockOutOfRange);
        assert_eq!(error.message(), "The current time cannot be written as a date.");
    }
}
