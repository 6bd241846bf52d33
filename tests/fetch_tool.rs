use darklight::lines::{parse_file_name, parse_line, PercentError};
use darklight::youtube_dl::{download_args, work_dir, Arg, LineScanner, YoutubeDL, YoutubeDLError};

#[test]
fn test_parse_line() {
    let percentage = parse_line("[download]  95.4% of ~215.85MiB at  9.61MiB/s ETA 00:01 (frag 144/151)".into());

    assert_eq!(percentage, Some(Ok(95)))
}

#[test]
fn test_parse_line_get_nothing() {
    let nothing = parse_line("[download] Got server HTTP error: The read operation timed out. Retrying (attempt 1 of 10) ...".into());

    assert_eq!(nothing, None)
}

#[test]
fn test_parse_file_name() {
    let file_name = parse_file_name("[download] Destination: 10 Design Patterns Explained in 10 Minutes.mp4".into());

    assert_eq!(file_name, Some("10 Design Patterns Explained in 10 Minutes.mp4".into()));
}

#[test]
fn test_parse_file_name_get_nothing() {
    let nothing = parse_file_name("[download] No fit: something".into());

    assert_eq!(nothing, None)
}

#[test]
fn progress_line_with_short_tag() {
    let p = parse_line("[fetch]  95.4% of ~215.85MiB at 9.61MiB/s ETA 00:01".into());
    assert_eq!(p, Some(Ok(95)));
}

#[test]
fn line_without_percentage_gives_nothing() {
    assert_eq!(parse_line("[fetch] Destination: clip.mp4".into()), None);
    assert_eq!(parse_line("".into()), None);
    assert_eq!(parse_line("95% [download]".into()), None);
}

#[test]
fn progress_takes_leftmost_match() {
    assert_eq!(parse_line("x [download] a [download]\t7 [fetch] 8".into()), Some(Ok(7)));
    assert_eq!(parse_line("[download] 100%".into()), Some(Ok(100)));
}

#[test]
fn progress_number_too_large() {
    assert_eq!(
        parse_line("[download] 4294967296%".into()),
        Some(Err(PercentError::TooLarge))
    );
    assert_eq!(parse_line("[download] 4294967295%".into()), Some(Ok(4294967295)));
}

#[test]
fn file_name_line_with_short_tag() {
    assert_eq!(
        parse_file_name("[fetch] Destination: 10 Things.mp4".into()),
        Some("10 Things.mp4".to_string())
    );
    assert_eq!(parse_file_name("[fetch] No match here".into()), None);
}

#[test]
fn file_name_rejects_other_characters() {
    assert_eq!(parse_file_name("[download] Destination: a-b.mp4".into()), None);
    assert_eq!(parse_file_name("[download] Destination: ".into()), None);
    assert_eq!(parse_file_name(" [download] Destination: a.mp4".into()), None);
}

#[test]
fn scanner_reports_first_file_name_only() {
    let mut s = LineScanner::new();
    let a = s.scan("[download] Destination: first.mp4".into());
    assert_eq!(a.file_name, Some("first.mp4".to_string()));
    assert_eq!(a.percentage, None);
    let b = s.scan("[download] Destination: second.mp4".into());
    assert_eq!(b.file_name, None);
    let c = s.scan("[download]  42.0% of 10MiB".into());
    assert_eq!(c.percentage, Some(42));
}

#[test]
fn scanner_ignores_percentages_above_hundred() {
    let mut s = LineScanner::new();
    assert_eq!(s.scan("[download] 250%".into()).percentage, None);
    assert_eq!(s.scan("[download] 99999999999%".into()).percentage, None);
    assert_eq!(s.scan("[download] 0%".into()).percentage, Some(0));
}

#[test]
fn arg_reads_as_on_command_line() {
    assert_eq!(Arg::new("--newline").to_string(), "--newline");
    assert_eq!(Arg::new_with_args("--output", "x.mp4").to_string(), "--output x.mp4");
}

#[test]
fn command_line_words() {
    let y = YoutubeDL::new(&"/tmp/out".to_string(), true, download_args(), "https://example/video").unwrap();
    assert_eq!(
        y.command_args(),
        vec![
            "--progress".to_string(),
            "--newline".to_string(),
            "--output".to_string(),
            "%(title).90s.%(ext)s".to_string(),
            "https://example/video".to_string(),
        ]
    );
}

#[test]
fn work_dir_joins_root_and_id() {
    assert_eq!(work_dir("./target/output", "abc"), "./target/output/abc");
}

#[test]
fn output_path_must_be_a_directory() {
    let r = YoutubeDL::new(&"/tmp/file".to_string(), false, vec![], "l");
    assert!(matches!(r, Err(YoutubeDLError::IOError(_))));
}

#[test]
fn finished_run_outcomes() {
    let y = YoutubeDL::new(&"/tmp/out".to_string(), true, vec![], "l").unwrap();
    let failed = y.finish(false, &b"".to_vec(), &b"boom".to_vec());
    assert_eq!(failed.unwrap_err(), YoutubeDLError::Failure("boom".to_string()));
    let bad = y.finish(false, &vec![], &vec![0xff, 0xfe]);
    assert_eq!(bad.unwrap_err(), YoutubeDLError::UTF8Error);
    let bad_out = y.finish(true, &vec![0xc3], &vec![]);
    assert_eq!(bad_out.unwrap_err(), YoutubeDLError::UTF8Error);
    let ok = y.finish(true, &"done\n".as_bytes().to_vec(), &vec![]).unwrap();
    assert_eq!(ok.output(), "done\n");
    assert_eq!(ok.output_dir(), "/tmp/out");
}

#[test]
fn empty_result_for_a_directory() {
    let r = darklight::youtube_dl::YoutubeDLResult::new(&"/tmp/x".to_string());
    assert_eq!(r.output_dir(), "/tmp/x");
    assert_eq!(r.output(), "");
}

#[test]
fn progress_with_other_decimal_digits() {
    assert_eq!(
        parse_line("[download] \u{665}% of 3MiB".into()),
        Some(Err(PercentError::InvalidDigit))
    );
    assert_eq!(
        parse_line("[download] \u{665} [download] 7".into()),
        Some(Err(PercentError::InvalidDigit))
    );
    assert_eq!(parse_line("[download] 4\u{0966}".into()), Some(Err(PercentError::InvalidDigit)));
    assert_eq!(parse_line("[download] x [download] 7".into()), Some(Ok(7)));
    let mut s = LineScanner::new();
    assert_eq!(s.scan("[download] \u{665}%".into()).percentage, None);
}
