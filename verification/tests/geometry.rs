use slipmap::geometry::{
    command_of, command_word, encode_line_string, zigzag_decode, zigzag_encode, DecodeMode,
    GeoCommand, GeoPoint, PathDecoder, PathEvent,
};

fn pt(x: i64, y: i64) -> GeoPoint {
    GeoPoint { x, y }
}

#[test]
fn zigzag_small_values() {
    assert_eq!(zigzag_decode(0), 0);
    assert_eq!(zigzag_decode(1), -1);
    assert_eq!(zigzag_decode(2), 1);
    assert_eq!(zigzag_decode(3), -2);
    assert_eq!(zigzag_decode(4), 2);
}

#[test]
fn zigzag_roundtrip_values() {
    for v in [-2048i64, -1, 0, 1, 5, 4096, -4096, 2147483647, -2147483648] {
        assert_eq!(zigzag_decode(zigzag_encode(v)), v);
    }
}

#[test]
fn command_words() {
    assert!(matches!(command_of(9), GeoCommand::MoveTo));
    assert!(matches!(command_of(18), GeoCommand::LineTo));
    assert!(matches!(command_of(15), GeoCommand::ClosePath));
    assert!(matches!(command_of(0), GeoCommand::Unknown));
    let w = command_word(GeoCommand::LineTo, 3);
    assert_eq!(w, 26);
    assert!(matches!(command_of(w), GeoCommand::LineTo));
}

// Decoding the encoding of a delta sequence reproduces the cumulative
// positions exactly.
#[test]
fn delta_roundtrip_cumulative_positions() {
    let points = vec![pt(10, 20), pt(5, -3), pt(5000, 4096), pt(-100, -100)];
    let encoded = encode_line_string(&points);
    let events = PathDecoder::decode_all(DecodeMode::LineString, encoded.as_slice());
    assert_eq!(events.len(), 5);
    assert!(matches!(events[0], PathEvent::Begin { at } if at == pt(10, 20)));
    assert!(
        matches!(events[1], PathEvent::Line { from, to } if from == pt(10, 20) && to == pt(5, -3))
    );
    assert!(
        matches!(events[2], PathEvent::Line { from, to } if from == pt(5, -3) && to == pt(5000, 4096))
    );
    assert!(
        matches!(events[3], PathEvent::Line { from, to } if from == pt(5000, 4096) && to == pt(-100, -100))
    );
    assert!(
        matches!(events[4], PathEvent::End { last, first, close }
            if last == pt(-100, -100) && first == pt(10, 20) && !close)
    );
}

// A line-string stream with MoveTo; LineTo; MoveTo; LineTo yields two
// independent subpaths, the first ended un-closed before the second begins.
#[test]
fn line_string_reopening() {
    let stream = vec![
        9u32, // MoveTo, count 1
        zigzag_encode(0),
        zigzag_encode(0),
        10u32, // LineTo, count 1
        zigzag_encode(5),
        zigzag_encode(5),
        9u32, // MoveTo again while open
        zigzag_encode(10),
        zigzag_encode(10),
        10u32,
        zigzag_encode(1),
        zigzag_encode(1),
    ];
    let events = PathDecoder::decode_all(DecodeMode::LineString, stream.as_slice());
    assert_eq!(events.len(), 6);
    assert!(matches!(events[0], PathEvent::Begin { at } if at == pt(0, 0)));
    assert!(matches!(events[1], PathEvent::Line { from, to } if from == pt(0, 0) && to == pt(5, 5)));
    assert!(
        matches!(events[2], PathEvent::End { last, first, close }
            if last == pt(5, 5) && first == pt(0, 0) && !close)
    );
    assert!(matches!(events[3], PathEvent::Begin { at } if at == pt(15, 15)));
    assert!(
        matches!(events[4], PathEvent::Line { from, to } if from == pt(15, 15) && to == pt(16, 16))
    );
    assert!(
        matches!(events[5], PathEvent::End { last, first, close }
            if last == pt(16, 16) && first == pt(15, 15) && !close)
    );
}

// Polygon mode closes rings: via ClosePath and, for an unterminated ring, at
// the end of the stream.
#[test]
fn polygon_close_paths() {
    let stream = vec![
        9u32,
        zigzag_encode(0),
        zigzag_encode(0),
        18u32, // LineTo, count 2
        zigzag_encode(4),
        zigzag_encode(0),
        zigzag_encode(0),
        zigzag_encode(4),
        15u32, // ClosePath
    ];
    let events = PathDecoder::decode_all(DecodeMode::Polygon, stream.as_slice());
    assert_eq!(events.len(), 4);
    assert!(
        matches!(events[3], PathEvent::End { last, first, close }
            if last == pt(4, 4) && first == pt(0, 0) && close)
    );

    // Without the ClosePath word the ring still force-closes at end of stream.
    let stream2 = &stream[..stream.len() - 1];
    let events2 = PathDecoder::decode_all(DecodeMode::Polygon, stream2);
    assert_eq!(events2.len(), 4);
    assert!(matches!(events2[3], PathEvent::End { close, .. } if close));
}

// Point mode yields one point per MoveTo pair and ignores other commands.
#[test]
fn point_mode_points() {
    let stream = vec![
        17u32, // MoveTo, count 2
        zigzag_encode(3),
        zigzag_encode(4),
        zigzag_encode(1),
        zigzag_encode(1),
        15u32, // ClosePath is ignored
    ];
    let events = PathDecoder::decode_all(DecodeMode::Point, stream.as_slice());
    assert_eq!(events.len(), 2);
    assert!(matches!(events[0], PathEvent::Begin { at } if at == pt(3, 4)));
    assert!(matches!(events[1], PathEvent::Begin { at } if at == pt(4, 5)));
}

// A truncated coordinate pair ends the feature's path silently.
#[test]
fn truncated_stream_ends_silently() {
    let stream = vec![9u32, zigzag_encode(7)];
    let events = PathDecoder::decode_all(DecodeMode::LineString, stream.as_slice());
    assert_eq!(events.len(), 0);

    let stream2 = vec![
        9u32,
        zigzag_encode(1),
        zigzag_encode(1),
        10u32,
        zigzag_encode(9),
    ];
    let events2 = PathDecoder::decode_all(DecodeMode::LineString, stream2.as_slice());
    // The open subpath still force-ends un-closed.
    assert_eq!(events2.len(), 2);
    assert!(matches!(events2[0], PathEvent::Begin { at } if at == pt(1, 1)));
    assert!(matches!(events2[1], PathEvent::End { close, .. } if !close));
}

#[test]
fn stepwise_decoder_matches_decode_all() {
    let points = vec![pt(0, 0), pt(100, 50)];
    let data = encode_line_string(&points);
    let all = PathDecoder::decode_all(DecodeMode::LineString, data.as_slice());
    let mut dec = PathDecoder::new(DecodeMode::LineString);
    let mut collected = Vec::new();
    while let Some(e) = dec.next(data.as_slice()) {
        collected.push(e);
    }
    assert_eq!(collected.len(), all.len());
    for (a, b) in collected.iter().zip(all.iter()) {
        assert_eq!(a, b);
    }
}
