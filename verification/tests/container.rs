use std::io::Write;

use slipmap::cache::GpuTileCache;
use slipmap::tile::TileId;
use slipmap::versatiles::{
    block_lookup, decode_blob, flip_row, parse_block_index, tile_entry_locate, BlockId,
    BlockIdxEntry, PrecompressionFormat, RawHeader, TileFormat, VersatilesError,
};

fn sample_header() -> Vec<u8> {
    let mut h = Vec::new();
    h.extend_from_slice(b"versatiles_v02");
    h.push(0x20); // pbf tiles
    h.push(0x02); // brotli
    h.push(0); // min zoom
    h.push(14); // max zoom
    h.extend_from_slice(&(-1800000000i32).to_be_bytes());
    h.extend_from_slice(&(-850000000i32).to_be_bytes());
    h.extend_from_slice(&1800000000i32.to_be_bytes());
    h.extend_from_slice(&850000000i32.to_be_bytes());
    h.extend_from_slice(&66u64.to_be_bytes()); // metadata offset
    h.extend_from_slice(&10u64.to_be_bytes()); // metadata len
    h.extend_from_slice(&76u64.to_be_bytes()); // block index offset
    h.extend_from_slice(&33u64.to_be_bytes()); // block index len
    h
}

#[test]
fn header_reads_and_validates() {
    let bytes = sample_header();
    let raw = RawHeader::read(bytes.as_slice()).unwrap();
    assert_eq!(raw.tile_format, 0x20);
    assert_eq!(raw.bbox_min_x, -1800000000);
    assert_eq!(raw.bbox_max_y, 850000000);
    assert_eq!(raw.metadata_offset, 66);
    assert_eq!(raw.block_idx_len, 33);
    let header = raw.validate().unwrap();
    assert_eq!(header.tile_format, TileFormat::Pbf);
    assert_eq!(header.precompression_format, PrecompressionFormat::Brotli);
    assert_eq!(header.max_zoom, 14);
}

#[test]
fn header_rejects_short_input_and_bad_fields() {
    assert!(RawHeader::read(&[0u8; 65]).is_none());

    let mut bad_magic = sample_header();
    bad_magic[0] = b'x';
    let raw = RawHeader::read(bad_magic.as_slice()).unwrap();
    assert_eq!(raw.validate().unwrap_err(), VersatilesError::BadIdent);

    let mut bad_format = sample_header();
    bad_format[14] = 0x99;
    let raw = RawHeader::read(bad_format.as_slice()).unwrap();
    assert_eq!(raw.validate().unwrap_err(), VersatilesError::BadTileFormat(0x99));

    let mut bad_comp = sample_header();
    bad_comp[15] = 7;
    let raw = RawHeader::read(bad_comp.as_slice()).unwrap();
    assert_eq!(raw.validate().unwrap_err(), VersatilesError::BadPrecompression(7));
}

fn record(level: u8, column_base: u32, row_base: u32, offset: u64) -> Vec<u8> {
    let mut r = Vec::new();
    r.push(level);
    r.extend_from_slice(&column_base.to_be_bytes());
    r.extend_from_slice(&row_base.to_be_bytes());
    r.push(1); // col_min
    r.push(2); // row_min
    r.push(5); // col_max
    r.push(6); // row_max
    r.extend_from_slice(&offset.to_be_bytes());
    r.extend_from_slice(&4096u64.to_be_bytes()); // tile blob len
    r.extend_from_slice(&120u32.to_be_bytes()); // tile index len
    r
}

#[test]
fn block_index_parses_and_looks_up() {
    let mut data = record(3, 0, 0, 1000);
    data.extend_from_slice(&record(5, 1, 2, 2000));
    data.extend_from_slice(&record(5, 1, 2, 3000)); // duplicate key: last wins
    let index = parse_block_index(data.as_slice()).unwrap();
    assert_eq!(index.len(), 3);
    assert_eq!(index[0].0, BlockId { level: 3, column_base: 0, row_base: 0 });
    assert_eq!(index[0].1.block_offset, 1000);
    assert_eq!(index[0].1.tile_idx_len, 120);

    let hit = block_lookup(&index, BlockId { level: 5, column_base: 1, row_base: 2 }).unwrap();
    assert_eq!(hit.block_offset, 3000);
    assert!(block_lookup(&index, BlockId { level: 9, column_base: 0, row_base: 0 }).is_none());

    // Trailing bytes reject the whole index.
    let mut bad = data.clone();
    bad.push(0);
    assert!(parse_block_index(bad.as_slice()).is_none());
}

#[test]
fn block_of_tile_and_row_flip() {
    let tile = TileId { zoom: 9, column: 300, row: 257 };
    assert_eq!(
        BlockId::of_tile(tile),
        BlockId { level: 9, column_base: 1, row_base: 1 }
    );
    let flipped = flip_row(TileId { zoom: 3, column: 2, row: 1 });
    assert_eq!(flipped, TileId { zoom: 3, column: 2, row: 6 });
}

#[test]
fn tile_entry_location() {
    let entry = BlockIdxEntry {
        col_min: 1,
        row_min: 2,
        col_max: 5,
        row_max: 6,
        block_offset: 0,
        tile_blob_len: 0,
        tile_idx_len: 0,
    };
    // Tile (col 3, row 4) inside a 5-wide block: index (4-2)*5 + (3-1) = 12.
    let mut index_bytes = vec![0u8; 13 * 12];
    index_bytes[12 * 12..12 * 12 + 8].copy_from_slice(&777u64.to_be_bytes());
    index_bytes[12 * 12 + 8..12 * 12 + 12].copy_from_slice(&55u32.to_be_bytes());
    let tile = TileId { zoom: 9, column: 3, row: 4 };
    assert_eq!(tile_entry_locate(&entry, tile, index_bytes.as_slice()), Some((777, 55)));

    // A zero-length blob is an absent tile.
    index_bytes[12 * 12 + 8..12 * 12 + 12].copy_from_slice(&0u32.to_be_bytes());
    assert_eq!(tile_entry_locate(&entry, tile, index_bytes.as_slice()), None);

    // Outside the covered extent is absent.
    let outside = TileId { zoom: 9, column: 0, row: 4 };
    assert_eq!(tile_entry_locate(&entry, outside, index_bytes.as_slice()), None);
}

// The decoders undo real compression: handing the input through unchanged
// would fail these.
#[test]
fn decode_blob_gzip_roundtrip() {
    let payload = b"a tile worth of protobuf bytes, repeated repeated repeated".to_vec();
    let mut encoder = libflate::gzip::Encoder::new(Vec::new()).unwrap();
    encoder.write_all(&payload).unwrap();
    let compressed = encoder.finish().into_result().unwrap();
    assert_ne!(compressed, payload);
    let decoded = decode_blob(PrecompressionFormat::Gzip, compressed.as_slice()).unwrap();
    assert_eq!(decoded, payload);
    // Garbage is rejected, not passed through.
    assert!(decode_blob(PrecompressionFormat::Gzip, b"not gzip").is_none());
}

#[test]
fn decode_blob_brotli_roundtrip() {
    let payload = vec![42u8; 2048];
    let mut compressed = Vec::new();
    {
        let mut w = brotli::CompressorWriter::new(&mut compressed, 4096, 5, 22);
        w.write_all(&payload).unwrap();
    }
    assert_ne!(compressed, payload);
    let decoded = decode_blob(PrecompressionFormat::Brotli, compressed.as_slice()).unwrap();
    assert_eq!(decoded, payload);
}

#[test]
fn decode_blob_uncompressed_passthrough() {
    let payload = b"plain".to_vec();
    let decoded = decode_blob(PrecompressionFormat::Uncompressed, payload.as_slice()).unwrap();
    assert_eq!(decoded, payload);
}

#[test]
fn tile_cache_generations() {
    let mut cache: GpuTileCache<u32> = GpuTileCache::new();
    let t1 = TileId { zoom: 4, column: 1, row: 2 };
    let t2 = TileId { zoom: 4, column: 2, row: 2 };
    assert!(!cache.contains(t1));
    cache.insert(t1, 11);
    assert!(cache.contains(t1));
    assert_eq!(cache.get(t1), Some(&11));
    assert_eq!(cache.get(t2), None);

    // Overflowing the primary generation keeps recent entries reachable in
    // the secondary, and a second overflow evicts them.
    for i in 0..1001u32 {
        cache.insert(TileId { zoom: 12, column: i, row: 0 }, i);
    }
    cache.clean();
    assert!(cache.contains(t1), "one sweep keeps the entry in generation two");
    for i in 0..1001u32 {
        cache.insert(TileId { zoom: 13, column: i, row: 0 }, i);
    }
    cache.clean();
    assert!(!cache.contains(t1), "two sweeps evict the entry");
}
