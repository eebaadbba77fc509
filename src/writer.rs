//! Parquet writer settings for a run: the codec chosen by the configuration,
//! dictionary encoding on, and row groups of at most 100 000 rows.

use parquet::basic::{BrotliLevel, Compression, GzipLevel, ZstdLevel};
use parquet::file::properties::{WriterProperties, WriterPropertiesBuilder};
use vstd::prelude::*;

use crate::config::{CompressionType, Config};

verus! {

/// Upper bound on the rows of one Parquet row group.
pub const MAX_ROW_GROUP_ROWS: usize = 100_000;

#[verifier::external_type_specification]
#[verifier::external_body]
pub struct ExGzipLevel(GzipLevel);

#[verifier::external_type_specification]
#[verifier::external_body]
pub struct ExBrotliLevel(BrotliLevel);

#[verifier::external_type_specification]
#[verifier::external_body]
pub struct ExZstdLevel(ZstdLevel);

#[verifier::external_type_specification]
pub struct ExCompression(Compression);

#[verifier::external_type_specification]
#[verifier::external_body]
pub struct ExWriterProperties(WriterProperties);

#[verifier::external_type_specification]
#[verifier::external_body]
pub struct ExWriterPropertiesBuilder(WriterPropertiesBuilder);

/// parquet's default gzip level.
pub assume_specification[ <GzipLevel as core::default::Default>::default ]() -> GzipLevel;

/// parquet's default zstd level.
pub assume_specification[ <ZstdLevel as core::default::Default>::default ]() -> ZstdLevel;

/// A builder holding parquet's default writer settings.
pub assume_specification[ WriterProperties::builder ]() -> WriterPropertiesBuilder;

/// Sets the codec of every column.
pub assume_specification[ WriterPropertiesBuilder::set_compression ](
    builder: WriterPropertiesBuilder,
    value: Compression,
) -> WriterPropertiesBuilder;

/// Turns dictionary encoding on or off for every column.
pub assume_specification[ WriterPropertiesBuilder::set_dictionary_enabled ](
    builder: WriterPropertiesBuilder,
    value: bool,
) -> WriterPropertiesBuilder;

/// Caps the rows of a row group; the builder panics on `Some(0)`.
pub assume_specification[ WriterPropertiesBuilder::set_max_row_group_row_count ](
    builder: WriterPropertiesBuilder,
    value: Option<usize>,
) -> WriterPropertiesBuilder
    requires
        value != Some(0usize),
;

/// The settings collected by the builder.
pub assume_specification[ WriterPropertiesBuilder::build ](
    builder: WriterPropertiesBuilder,
) -> WriterProperties;

/// The Parquet codec that stands for `c` (gzip and zstd at their default levels).
pub open spec fn codec_for(c: CompressionType, codec: Compression) -> bool {
    match c {
        CompressionType::Snappy => codec is SNAPPY,
        CompressionType::Gzip => codec is GZIP,
        CompressionType::Lz4 => codec is LZ4,
        CompressionType::Zstd => codec is ZSTD,
        CompressionType::Uncompressed => codec is UNCOMPRESSED,
    }
}

/// The Parquet codec for a compression choice.
pub fn parquet_codec(c: CompressionType) -> (r: Compression)
    ensures
        codec_for(c, r),
{
    match c {
        CompressionType::Snappy => Compression::SNAPPY,
        CompressionType::Gzip => Compression::GZIP(GzipLevel::default()),
        CompressionType::Lz4 => Compression::LZ4,
        CompressionType::Zstd => Compression::ZSTD(ZstdLevel::default()),
        CompressionType::Uncompressed => Compression::UNCOMPRESSED,
    }
}

/// Writer settings for one run's table files.
pub struct ParquetWriter {
    pub config: Config,
    pub writer_props: WriterProperties,
}

impl ParquetWriter {
    /// Settings for `config`: its codec, dictionary encoding on, row groups
    /// of at most [`MAX_ROW_GROUP_ROWS`] rows.
    pub fn new(config: Config) -> (r: Self)
        ensures
            r.config == config,
    {
        let builder = WriterProperties::builder();
        let builder = builder.set_compression(parquet_codec(config.compression));
        let builder = builder.set_dictionary_enabled(true);
        let builder = builder.set_max_row_group_row_count(Some(MAX_ROW_GROUP_ROWS));
        ParquetWriter { config, writer_props: builder.build() }
    }
}

} // verus!
