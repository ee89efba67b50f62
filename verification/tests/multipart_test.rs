use realtime_svg::multipart::{encode_multipart, encode_stream_frame};
use realtime_svg::text::u64_to_dec;
use realtime_svg::SvgFrame;

#[test]
fn part_encoding_is_exact() {
    let frame = SvgFrame::new("<svg>hi</svg>".to_string());
    let part = encode_multipart(&frame);
    assert_eq!(
        part,
        "Content-Type: image/svg+xml\r\nContent-Length: 13\r\n\r\n<svg>hi</svg>\r\n--frame\r\n"
    );
}

#[test]
fn part_content_length_counts_bytes_not_chars() {
    // Two characters, six UTF-8 bytes.
    let frame = SvgFrame::new("한글".to_string());
    let part = encode_multipart(&frame);
    assert_eq!(
        part,
        "Content-Type: image/svg+xml\r\nContent-Length: 6\r\n\r\n한글\r\n--frame\r\n"
    );
}

#[test]
fn single_frame_is_one_part() {
    let frame = SvgFrame::new("<svg/>".to_string());
    let one = encode_stream_frame(&frame, false);
    assert_eq!(one, encode_multipart(&frame));
}

#[test]
fn double_frame_is_two_identical_parts() {
    let frame = SvgFrame::new("<svg/>".to_string());
    let part = encode_multipart(&frame);
    let two = encode_stream_frame(&frame, true);
    assert_eq!(two, format!("{part}{part}"));
}

fn count_parts(stream: &str) -> usize {
    stream.matches("Content-Type: image/svg+xml\r\n").count()
}

#[test]
fn transcript_part_counts() {
    // The initial frame plus two publishes: three parts, six doubled.
    let initial = SvgFrame::new("<svg>0</svg>".to_string());
    let updates = [
        SvgFrame::new("<svg>1</svg>".to_string()),
        SvgFrame::new("<svg>2</svg>".to_string()),
    ];
    for double in [false, true] {
        let mut stream = String::from("--frame\r\n");
        stream.push_str(&encode_stream_frame(&initial, double));
        for u in &updates {
            stream.push_str(&encode_stream_frame(u, double));
        }
        let expected = if double { 6 } else { 3 };
        assert_eq!(count_parts(&stream), expected);
    }
}

#[test]
fn first_part_is_initial_frame() {
    let initial = SvgFrame::new("<svg>first</svg>".to_string());
    let update = SvgFrame::new("<svg>second</svg>".to_string());
    let mut stream = String::from("--frame\r\n");
    stream.push_str(&encode_stream_frame(&initial, false));
    stream.push_str(&encode_stream_frame(&update, false));
    let after_opener = &stream["--frame\r\n".len()..];
    assert!(after_opener.starts_with("Content-Type: image/svg+xml\r\n"));
    assert!(after_opener.starts_with(&encode_multipart(&initial)));
}

#[test]
fn decimal_rendering() {
    assert_eq!(u64_to_dec(0), "0");
    assert_eq!(u64_to_dec(13), "13");
    assert_eq!(u64_to_dec(30000), "30000");
    assert_eq!(u64_to_dec(u64::MAX), "18446744073709551615");
}
