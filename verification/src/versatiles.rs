//! The block-indexed tile container format.
//!
//! A container starts with a 66-byte header: a 14-byte magic, four single-byte
//! fields (tile format, precompression, zoom range), four big-endian signed
//! 32-bit bounding-box fields, and four big-endian 64-bit offsets and lengths
//! locating the metadata and the block index. The block index is a run of
//! 33-byte records, each keyed by zoom level and 256-tile block coordinates.
//! Inside a block, a 12-byte-per-tile index of offset and length locates each
//! tile's blob.
//!
//! This module parses those structures from bytes and decodes the declared
//! precompression; reading the bytes from storage is the caller's side.

use vstd::prelude::*;

use crate::bytes::{bytes_eq, bytes_of};
use crate::tile::TileId;

verus! {

/// The big-endian 32-bit unsigned value at `s[i..i+4)`.
pub open spec fn be_u32(s: Seq<u8>, i: int) -> int {
    s[i] * 0x100_0000 + s[i + 1] * 0x1_0000 + s[i + 2] * 0x100 + s[i + 3]
}

/// The big-endian 64-bit unsigned value at `s[i..i+8)`.
pub open spec fn be_u64(s: Seq<u8>, i: int) -> int {
    be_u32(s, i) * 0x1_0000_0000 + be_u32(s, i + 4)
}

/// The big-endian 32-bit two's-complement value at `s[i..i+4)`.
pub open spec fn be_i32(s: Seq<u8>, i: int) -> int {
    if be_u32(s, i) >= 0x8000_0000 {
        be_u32(s, i) - 0x1_0000_0000
    } else {
        be_u32(s, i)
    }
}

fn read_be_u32(s: &[u8], i: usize) -> (r: u32)
    requires
        i + 4 <= s@.len(),
    ensures
        r == be_u32(s@, i as int),
{
    (s[i] as u32) * 0x100_0000 + (s[i + 1] as u32) * 0x1_0000 + (s[i + 2] as u32) * 0x100 + (s[i
        + 3] as u32)
}

fn read_be_u64(s: &[u8], i: usize) -> (r: u64)
    requires
        i + 8 <= s@.len(),
    ensures
        r == be_u64(s@, i as int),
{
    let total: usize = s.len();
    assert(i + 8 <= total);
    (read_be_u32(s, i) as u64) * 0x1_0000_0000 + (read_be_u32(s, i + 4) as u64)
}

fn read_be_i32(s: &[u8], i: usize) -> (r: i32)
    requires
        i + 4 <= s@.len(),
    ensures
        r == be_i32(s@, i as int),
{
    let v = read_be_u32(s, i);
    if v >= 0x8000_0000 {
        proof {
            assert(v - 0x1_0000_0000 >= i32::MIN);
        }
        (-((0x1_0000_0000u64 - v as u64) as i64)) as i32
    } else {
        v as i32
    }
}

/// The container header, as read, before validation.
#[derive(Debug)]
pub struct RawHeader {
    pub file_ident: Vec<u8>,
    pub tile_format: u8,
    pub precompression_format: u8,
    pub min_zoom: u8,
    pub max_zoom: u8,
    pub bbox_min_x: i32,
    pub bbox_min_y: i32,
    pub bbox_max_x: i32,
    pub bbox_max_y: i32,
    pub metadata_offset: u64,
    pub metadata_len: u64,
    pub block_idx_offset: u64,
    pub block_idx_len: u64,
}

/// The expected magic at the start of a container.
pub open spec fn spec_magic() -> Seq<u8> {
    seq![
        118u8,
        101u8,
        114u8,
        115u8,
        97u8,
        116u8,
        105u8,
        108u8,
        101u8,
        115u8,
        95u8,
        118u8,
        48u8,
        50u8,
    ]
}

impl RawHeader {
    /// Reads the 66-byte header; fails on shorter input.
    pub fn read(data: &[u8]) -> (r: Option<RawHeader>)
        ensures
            match r {
                Some(h) => {
                    &&& data@.len() >= 66
                    &&& h.file_ident@ == data@.subrange(0, 14)
                    &&& h.tile_format == data@[14]
                    &&& h.precompression_format == data@[15]
                    &&& h.min_zoom == data@[16]
                    &&& h.max_zoom == data@[17]
                    &&& h.bbox_min_x == be_i32(data@, 18)
                    &&& h.bbox_min_y == be_i32(data@, 22)
                    &&& h.bbox_max_x == be_i32(data@, 26)
                    &&& h.bbox_max_y == be_i32(data@, 30)
                    &&& h.metadata_offset == be_u64(data@, 34)
                    &&& h.metadata_len == be_u64(data@, 42)
                    &&& h.block_idx_offset == be_u64(data@, 50)
                    &&& h.block_idx_len == be_u64(data@, 58)
                },
                None => data@.len() < 66,
            },
    {
        if data.len() < 66 {
            return None;
        }
        Some(
            RawHeader {
                file_ident: crate::bytes::bytes_range(data, 0, 14),
                tile_format: data[14],
                precompression_format: data[15],
                min_zoom: data[16],
                max_zoom: data[17],
                bbox_min_x: read_be_i32(data, 18),
                bbox_min_y: read_be_i32(data, 22),
                bbox_max_x: read_be_i32(data, 26),
                bbox_max_y: read_be_i32(data, 30),
                metadata_offset: read_be_u64(data, 34),
                metadata_len: read_be_u64(data, 42),
                block_idx_offset: read_be_u64(data, 50),
                block_idx_len: read_be_u64(data, 58),
            },
        )
    }

    /// Checks the magic and the two format bytes, yielding the validated
    /// header; reports which check failed otherwise.
    pub fn validate(self) -> (r: Result<Header, VersatilesError>)
        ensures
            match r {
                Ok(h) => {
                    &&& self.file_ident@ == spec_magic()
                    &&& spec_tile_format(self.tile_format) == Some(h.tile_format)
                    &&& spec_precompression(self.precompression_format) == Some(
                        h.precompression_format,
                    )
                    &&& h.min_zoom == self.min_zoom && h.max_zoom == self.max_zoom
                    &&& h.bbox_min_x == self.bbox_min_x && h.bbox_min_y == self.bbox_min_y
                    &&& h.bbox_max_x == self.bbox_max_x && h.bbox_max_y == self.bbox_max_y
                    &&& h.metadata_offset == self.metadata_offset && h.metadata_len
                        == self.metadata_len
                    &&& h.block_idx_offset == self.block_idx_offset && h.block_idx_len
                        == self.block_idx_len
                },
                Err(VersatilesError::BadIdent) => self.file_ident@ != spec_magic(),
                Err(VersatilesError::BadTileFormat(v)) => self.file_ident@ == spec_magic() && v
                    == self.tile_format && spec_tile_format(v) is None,
                Err(VersatilesError::BadPrecompression(v)) => self.file_ident@ == spec_magic()
                    && spec_tile_format(self.tile_format) is Some && v
                    == self.precompression_format && spec_precompression(v) is None,
            },
    {
        let magic: [u8; 14] = [
            118u8,
            101u8,
            114u8,
            115u8,
            97u8,
            116u8,
            105u8,
            108u8,
            101u8,
            115u8,
            95u8,
            118u8,
            48u8,
            50u8,
        ];
        assert(magic@ =~= spec_magic());
        if !bytes_eq(self.file_ident.as_slice(), magic.as_slice()) {
            return Err(VersatilesError::BadIdent);
        }
        let tile_format = match tile_format_of(self.tile_format) {
            Some(f) => f,
            None => {
                return Err(VersatilesError::BadTileFormat(self.tile_format));
            },
        };
        let precompression_format = match precompression_of(self.precompression_format) {
            Some(f) => f,
            None => {
                return Err(VersatilesError::BadPrecompression(self.precompression_format));
            },
        };
        Ok(
            Header {
                tile_format,
                precompression_format,
                min_zoom: self.min_zoom,
                max_zoom: self.max_zoom,
                bbox_min_x: self.bbox_min_x,
                bbox_min_y: self.bbox_min_y,
                bbox_max_x: self.bbox_max_x,
                bbox_max_y: self.bbox_max_y,
                metadata_offset: self.metadata_offset,
                metadata_len: self.metadata_len,
                block_idx_offset: self.block_idx_offset,
                block_idx_len: self.block_idx_len,
            },
        )
    }
}

/// Why a container header was rejected.
#[derive(Debug, Copy, Clone, PartialEq, Eq, Structural)]
pub enum VersatilesError {
    BadIdent,
    BadTileFormat(u8),
    BadPrecompression(u8),
}

/// A validated container header.
#[derive(Debug, Copy, Clone, PartialEq, Eq, Structural)]
pub struct Header {
    pub tile_format: TileFormat,
    pub precompression_format: PrecompressionFormat,
    pub min_zoom: u8,
    pub max_zoom: u8,
    pub bbox_min_x: i32,
    pub bbox_min_y: i32,
    pub bbox_max_x: i32,
    pub bbox_max_y: i32,
    pub metadata_offset: u64,
    pub metadata_len: u64,
    pub block_idx_offset: u64,
    pub block_idx_len: u64,
}

/// What a container's tiles hold.
#[derive(Debug, Copy, Clone, PartialEq, Eq, Structural)]
pub enum TileFormat {
    Bin,
    Png,
    Jpg,
    Webp,
    Avif,
    Svg,
    Pbf,
    GeoJson,
    TopoJson,
    Json,
}

/// The tile format a header byte declares.
pub open spec fn spec_tile_format(v: u8) -> Option<TileFormat> {
    if v == 0x00 {
        Some(TileFormat::Bin)
    } else if v == 0x10 {
        Some(TileFormat::Png)
    } else if v == 0x11 {
        Some(TileFormat::Jpg)
    } else if v == 0x12 {
        Some(TileFormat::Webp)
    } else if v == 0x13 {
        Some(TileFormat::Avif)
    } else if v == 0x14 {
        Some(TileFormat::Svg)
    } else if v == 0x20 {
        Some(TileFormat::Pbf)
    } else if v == 0x21 {
        Some(TileFormat::GeoJson)
    } else if v == 0x22 {
        Some(TileFormat::TopoJson)
    } else if v == 0x23 {
        Some(TileFormat::Json)
    } else {
        None
    }
}

pub fn tile_format_of(v: u8) -> (r: Option<TileFormat>)
    ensures
        r == spec_tile_format(v),
{
    match v {
        0x00 => Some(TileFormat::Bin),
        0x10 => Some(TileFormat::Png),
        0x11 => Some(TileFormat::Jpg),
        0x12 => Some(TileFormat::Webp),
        0x13 => Some(TileFormat::Avif),
        0x14 => Some(TileFormat::Svg),
        0x20 => Some(TileFormat::Pbf),
        0x21 => Some(TileFormat::GeoJson),
        0x22 => Some(TileFormat::TopoJson),
        0x23 => Some(TileFormat::Json),
        _ => None,
    }
}

/// How a container's blobs are compressed.
#[derive(Debug, Copy, Clone, PartialEq, Eq, Structural)]
pub enum PrecompressionFormat {
    Uncompressed,
    Gzip,
    Brotli,
}

/// The precompression a header byte declares.
pub open spec fn spec_precompression(v: u8) -> Option<PrecompressionFormat> {
    if v == 0 {
        Some(PrecompressionFormat::Uncompressed)
    } else if v == 1 {
        Some(PrecompressionFormat::Gzip)
    } else if v == 2 {
        Some(PrecompressionFormat::Brotli)
    } else {
        None
    }
}

pub fn precompression_of(v: u8) -> (r: Option<PrecompressionFormat>)
    ensures
        r == spec_precompression(v),
{
    match v {
        0 => Some(PrecompressionFormat::Uncompressed),
        1 => Some(PrecompressionFormat::Gzip),
        2 => Some(PrecompressionFormat::Brotli),
        _ => None,
    }
}

/// The block a tile belongs to: its zoom level and its 256-tile block
/// coordinates.
#[derive(Debug, Copy, Clone, PartialEq, Eq, Structural)]
pub struct BlockId {
    pub level: u8,
    pub row_base: u32,
    pub column_base: u32,
}

impl BlockId {
    /// The block of a tile.
    pub fn of_tile(tile: TileId) -> (r: BlockId)
        requires
            tile.zoom <= 255,
        ensures
            r == (BlockId {
                level: tile.zoom as u8,
                row_base: (tile.row / 256) as u32,
                column_base: (tile.column / 256) as u32,
            }),
    {
        BlockId { level: tile.zoom as u8, row_base: tile.row / 256, column_base: tile.column / 256 }
    }
}

/// One block-index record: the tile-coordinate extent the block covers inside
/// its 256-tile grid, and where its blob run and tile index sit in the file.
#[derive(Debug, Copy, Clone, PartialEq, Eq, Structural)]
pub struct BlockIdxEntry {
    pub col_min: u8,
    pub row_min: u8,
    pub col_max: u8,
    pub row_max: u8,
    pub block_offset: u64,
    pub tile_blob_len: u64,
    pub tile_idx_len: u32,
}

/// The block record parsed from the 33 bytes at `s[i..i+33)`, with its key.
pub open spec fn spec_block_record(s: Seq<u8>, i: int) -> (BlockId, BlockIdxEntry) {
    (
        BlockId {
            level: s[i],
            column_base: be_u32(s, i + 1) as u32,
            row_base: be_u32(s, i + 5) as u32,
        },
        BlockIdxEntry {
            col_min: s[i + 9],
            row_min: s[i + 10],
            col_max: s[i + 11],
            row_max: s[i + 12],
            block_offset: be_u64(s, i + 13) as u64,
            tile_blob_len: be_u64(s, i + 21) as u64,
            tile_idx_len: be_u32(s, i + 29) as u32,
        },
    )
}

/// Parses the decompressed block index: a whole number of 33-byte records;
/// trailing bytes reject the index.
#[verifier::loop_isolation(false)]
pub fn parse_block_index(data: &[u8]) -> (r: Option<Vec<(BlockId, BlockIdxEntry)>>)
    ensures
        match r {
            Some(v) => {
                &&& data@.len() % 33 == 0
                &&& v@.len() == data@.len() / 33
                &&& forall|k: int|
                    0 <= k < v@.len() ==> #[trigger] v@[k] == spec_block_record(data@, 33 * k)
            },
            None => data@.len() % 33 != 0,
        },
{
    let n = data.len();
    if n % 33 != 0 {
        return None;
    }
    let count = n / 33;
    let mut out: Vec<(BlockId, BlockIdxEntry)> = Vec::new();
    let mut k: usize = 0;
    while k < count
        invariant
            0 <= k <= count,
            count == data@.len() / 33,
            n == data@.len(),
            n % 33 == 0,
            out@.len() == k,
            forall|j: int| 0 <= j < k ==> #[trigger] out@[j] == spec_block_record(data@, 33 * j),
        decreases count - k,
    {
        let i = 33 * k;
        assert(i + 33 <= n) by (nonlinear_arith)
            requires
                i == 33 * k,
                k < count,
                count == n / 33,
                n % 33 == 0,
        ;
        let key = BlockId {
            level: data[i],
            column_base: read_be_u32(data, i + 1),
            row_base: read_be_u32(data, i + 5),
        };
        let entry = BlockIdxEntry {
            col_min: data[i + 9],
            row_min: data[i + 10],
            col_max: data[i + 11],
            row_max: data[i + 12],
            block_offset: read_be_u64(data, i + 13),
            tile_blob_len: read_be_u64(data, i + 21),
            tile_idx_len: read_be_u32(data, i + 29),
        };
        out.push((key, entry));
        k += 1;
    }
    Some(out)
}

/// Looks a block up in the index: the last record with the key wins, as in a
/// map filled front to back.
#[verifier::loop_isolation(false)]
pub fn block_lookup(index: &Vec<(BlockId, BlockIdxEntry)>, key: BlockId) -> (r: Option<
    BlockIdxEntry,
>)
    ensures
        match r {
            Some(e) => exists|i: int|
                0 <= i < index@.len() && (#[trigger] index@[i]).0 == key && index@[i].1 == e
                    && forall|j: int| i < j < index@.len() ==> (#[trigger] index@[j]).0 != key,
            None => forall|i: int| 0 <= i < index@.len() ==> (#[trigger] index@[i]).0 != key,
        },
{
    let n = index.len();
    let mut k: usize = n;
    while k > 0
        invariant
            0 <= k <= n,
            n == index@.len(),
            forall|j: int| k <= j < n ==> (#[trigger] index@[j]).0 != key,
        decreases k,
    {
        k = k - 1;
        let (id, entry) = index[k];
        if id.level == key.level && id.row_base == key.row_base && id.column_base
            == key.column_base {
            assert(index@[k as int].0 == key);
            return Some(entry);
        }
    }
    None
}

/// Locates one tile's blob inside a block: the block's tile index holds a
/// 12-byte record (big-endian offset and length) per covered tile, rows
/// before columns. A tile outside the block's covered extent, a record past
/// the index's end, and a zero-length blob all mean the tile is absent.
pub fn tile_entry_locate(entry: &BlockIdxEntry, tile: TileId, index_bytes: &[u8]) -> (r: Option<
    (u64, u32),
>)
    ensures
        ({
            let col = tile.column as int % 256;
            let row = tile.row as int % 256;
            let inside = entry.col_min <= col <= entry.col_max && entry.row_min <= row;
            let idx = (row - entry.row_min) * (entry.col_max - entry.col_min + 1) + (col
                - entry.col_min);
            match r {
                Some((off, len)) => {
                    &&& inside
                    &&& 12 * idx + 12 <= index_bytes@.len()
                    &&& off == be_u64(index_bytes@, 12 * idx)
                    &&& len == be_u32(index_bytes@, 12 * idx + 8)
                    &&& len != 0
                },
                None => !inside || 12 * idx + 12 > index_bytes@.len() || be_u32(
                    index_bytes@,
                    12 * idx + 8,
                ) == 0,
            }
        }),
{
    let col = (tile.column % 256) as u64;
    let row = (tile.row % 256) as u64;
    if !(entry.col_min as u64 <= col && col <= entry.col_max as u64 && entry.row_min as u64
        <= row) {
        return None;
    }
    let span = entry.col_max as u64 - entry.col_min as u64 + 1;
    let drow = row - entry.row_min as u64;
    let dcol = col - entry.col_min as u64;
    assert(drow * span <= 255 * 256) by (nonlinear_arith)
        requires
            0 <= drow < 256,
            0 <= span <= 256,
    ;
    let idx = drow * span + dcol;
    let pos = (12 * idx) as usize;
    if pos + 12 > index_bytes.len() {
        return None;
    }
    let off = read_be_u64(index_bytes, pos);
    let len = read_be_u32(index_bytes, pos + 8);
    if len == 0 {
        return None;
    }
    Some((off, len))
}

/// The row flip between the request grid and the container grid: containers
/// count rows from the opposite edge.
pub fn flip_row(tile: TileId) -> (r: TileId)
    requires
        tile.zoom < 32,
        tile.spec_is_valid(),
    ensures
        r.zoom == tile.zoom,
        r.column == tile.column,
        r.row == tile.spec_limit() - tile.row - 1,
{
    let limit = tile.limit();
    TileId { zoom: tile.zoom, column: tile.column, row: (limit - tile.row) - 1 }
}

/// What gzip decompression yields on given bytes, when it succeeds. The
/// result depends on the bytes alone.
pub uninterp spec fn gunzip_of(data: Seq<u8>) -> Option<Seq<u8>>;

/// Relies on libflate's gzip decoder: reading it to the end yields the
/// decompressed stream, a function of the input bytes alone; a malformed
/// stream fails.
#[verifier::external_body]
fn gunzip(data: &[u8]) -> (r: Option<Vec<u8>>)
    ensures
        match r {
            Some(v) => gunzip_of(data@) == Some(v@),
            None => gunzip_of(data@) is None,
        },
{
    let mut decoder = match libflate::gzip::Decoder::new(data) {
        Ok(d) => d,
        Err(_) => return None,
    };
    let mut out = Vec::new();
    match std::io::Read::read_to_end(&mut decoder, &mut out) {
        Ok(_) => Some(out),
        Err(_) => None,
    }
}

/// What brotli decompression yields on given bytes, when it succeeds. The
/// result depends on the bytes alone.
pub uninterp spec fn unbrotli_of(data: Seq<u8>) -> Option<Seq<u8>>;

/// Relies on the brotli crate's whole-stream decompression: it writes the
/// decompressed stream, a function of the input bytes alone; a malformed
/// stream fails.
#[verifier::external_body]
fn unbrotli(data: &[u8]) -> (r: Option<Vec<u8>>)
    ensures
        match r {
            Some(v) => unbrotli_of(data@) == Some(v@),
            None => unbrotli_of(data@) is None,
        },
{
    let mut input = data;
    let mut out = Vec::new();
    match brotli::BrotliDecompress(&mut input, &mut out) {
        Ok(()) => Some(out),
        Err(_) => None,
    }
}

/// Decodes a blob according to the container's declared precompression:
/// uncompressed blobs pass through, gzip and brotli blobs decompress, and a
/// malformed blob yields nothing.
pub fn decode_blob(format: PrecompressionFormat, data: &[u8]) -> (r: Option<Vec<u8>>)
    ensures
        match format {
            PrecompressionFormat::Uncompressed => match r {
                Some(v) => v@ == data@,
                None => false,
            },
            PrecompressionFormat::Gzip => match r {
                Some(v) => gunzip_of(data@) == Some(v@),
                None => gunzip_of(data@) is None,
            },
            PrecompressionFormat::Brotli => match r {
                Some(v) => unbrotli_of(data@) == Some(v@),
                None => unbrotli_of(data@) is None,
            },
        },
{
    match format {
        PrecompressionFormat::Uncompressed => Some(bytes_of(data)),
        PrecompressionFormat::Gzip => gunzip(data),
        PrecompressionFormat::Brotli => unbrotli(data),
    }
}

} // verus!
