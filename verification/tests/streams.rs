use playback_session::{
    append_decimal, count_property, describe_stream, listing_order, tags_signal, StreamKind,
    StreamTags,
};

fn no_tags() -> StreamTags {
    StreamTags { codec: None, language: None, bitrate: None }
}

fn in_decimal(i: i64) -> String {
    let mut text = String::new();
    append_decimal(&mut text, i);
    text
}

#[test]
fn count_properties_are_named_after_the_kind() {
    assert_eq!(count_property(StreamKind::Video), "n-video");
    assert_eq!(count_property(StreamKind::Audio), "n-audio");
    assert_eq!(count_property(StreamKind::Text), "n-text");
}

#[test]
fn tag_signals_are_named_after_the_kind() {
    assert_eq!(tags_signal(StreamKind::Video), "get-video-tags");
    assert_eq!(tags_signal(StreamKind::Audio), "get-audio-tags");
    assert_eq!(tags_signal(StreamKind::Text), "get-text-tags");
}

#[test]
fn listing_shows_video_then_audio_then_text() {
    assert_eq!(listing_order(), vec![StreamKind::Video, StreamKind::Audio, StreamKind::Text]);
}

#[test]
fn a_stream_without_tags_is_only_a_heading() {
    assert_eq!(describe_stream(StreamKind::Video, 0, &no_tags()), "video stream 0:\n ");
    assert_eq!(describe_stream(StreamKind::Text, 12, &no_tags()), "text stream 12:\n ");
}

#[test]
fn a_stream_is_described_by_codec_language_and_bitrate() {
    let tags = StreamTags {
        codec: Some(String::from("On2 VP8")),
        language: Some(String::from("en")),
        bitrate: Some(1_500_000),
    };
    assert_eq!(
        describe_stream(StreamKind::Video, 0, &tags),
        "video stream 0:\n     codec: On2 VP8 \n    language: en \n    bitrate: 1500000 \n"
    );
}

#[test]
fn absent_tags_leave_no_line() {
    let tags = StreamTags { codec: None, language: Some(String::from("fr")), bitrate: None };
    assert_eq!(
        describe_stream(StreamKind::Audio, 1, &tags),
        "audio stream 1:\n     language: fr \n"
    );
    let tags = StreamTags { codec: Some(String::from("Vorbis")), language: None, bitrate: Some(0) };
    assert_eq!(
        describe_stream(StreamKind::Audio, 2, &tags),
        "audio stream 2:\n     codec: Vorbis \n    bitrate: 0 \n"
    );
}

#[test]
fn description_matches_the_formatting_of_the_standard_library() {
    let tags = StreamTags {
        codec: Some(String::from("x")),
        language: Some(String::new()),
        bitrate: Some(u32::MAX),
    };
    for index in [0, 1, 9, 10, 99, 100, 1234, i32::MAX, -1, -10, i32::MIN] {
        let expected = format!(
            "{} stream {}:\n     codec: {} \n    language: {} \n    bitrate: {} \n",
            "text", index, "x", "", u32::MAX
        );
        assert_eq!(describe_stream(StreamKind::Text, index, &tags), expected);
    }
}

#[test]
fn decimal_of_small_numbers() {
    assert_eq!(in_decimal(0), "0");
    assert_eq!(in_decimal(7), "7");
    assert_eq!(in_decimal(10), "10");
    assert_eq!(in_decimal(109), "109");
    assert_eq!(in_decimal(1_234_567_890), "1234567890");
}

#[test]
fn decimal_of_negative_numbers() {
    assert_eq!(in_decimal(-1), "-1");
    assert_eq!(in_decimal(-10), "-10");
    assert_eq!(in_decimal(-2_147_483_648), "-2147483648");
}

#[test]
fn decimal_of_the_extremes() {
    assert_eq!(in_decimal(i64::MAX), "9223372036854775807");
    assert_eq!(in_decimal(i64::MIN), "-9223372036854775808");
    assert_eq!(in_decimal(4_294_967_295), "4294967295");
}

#[test]
fn decimal_is_appended_to_what_is_there() {
    let mut text = String::from("stream ");
    append_decimal(&mut text, 42);
    append_decimal(&mut text, -3);
    assert_eq!(text, "stream 42-3");
}

#[test]
fn decimal_agrees_with_the_standard_library() {
    let mut i: i64 = -1_000_003;
    while i < 1_000_003 {
        assert_eq!(in_decimal(i), format!("{}", i));
        i += 997;
    }
}

#[test]
fn copied_tags_equal_the_tags() {
    let tags = StreamTags {
        codec: Some(String::from("Theora")),
        language: None,
        bitrate: Some(64_000),
    };
    assert_eq!(tags.clone(), tags);
    assert_eq!(no_tags().clone(), no_tags());
}
