//! Run configuration and the per-file row estimate.

use bytesize::ByteSize;
use std::str::FromStr;
use vstd::prelude::*;

verus! {

/// Bytes of length bookkeeping assumed for the binary vector column, per row.
pub const BINARY_OVERHEAD: usize = 8;

/// Bytes of offset bookkeeping assumed for the string column, per row.
pub const STRING_OVERHEAD: usize = 8;

/// Codec applied to the table files.
#[derive(Debug, Clone, Copy, PartialEq, Eq, Structural)]
pub enum CompressionType {
    Snappy,
    Gzip,
    Lz4,
    Zstd,
    Uncompressed,
}

/// Shape and seed of one generation run.
#[derive(Debug, Clone, Copy, PartialEq, Eq, Structural)]
pub struct Config {
    /// Number of f32 elements in each vector.
    pub vector_dim: usize,
    /// Length in bytes of each scalar string.
    pub scalar_len: usize,
    /// Soft upper bound on each file's size, in bytes.
    pub target_file_size: u64,
    /// Codec for the table files.
    pub compression: CompressionType,
    /// Base seed; file `i` is generated from `seed + i`.
    pub seed: u64,
}

/// Why a configuration cannot start a run.
#[derive(Debug, Clone, Copy, PartialEq, Eq, Structural)]
pub enum ConfigError {
    ZeroVectorDim,
    ZeroScalarLen,
    ZeroTargetFileSize,
    /// One row's estimated cost, or the byte budget, does not fit in a machine word.
    RowTooWide,
}

/// Estimated pre-compression cost of one row, in bytes.
pub open spec fn bytes_per_row(vector_dim: nat, scalar_len: nat) -> nat {
    ((vector_dim * 4 + BINARY_OVERHEAD) + (scalar_len + STRING_OVERHEAD)) as nat
}

/// Rows that fit in the byte budget under the row-cost estimate, never fewer than one.
pub open spec fn rows_per_file(config: Config) -> nat {
    let per_row = bytes_per_row(config.vector_dim as nat, config.scalar_len as nat);
    let fit = config.target_file_size as nat / per_row;
    if fit >= 1 { fit } else { 1 }
}

impl Config {
    /// The row cost and the byte budget of this configuration fit in a `usize`.
    pub open spec fn row_cost_fits(self) -> bool {
        &&& bytes_per_row(self.vector_dim as nat, self.scalar_len as nat) <= usize::MAX
        &&& self.target_file_size <= usize::MAX
    }

    /// Every field a run depends on is positive and the row cost is representable.
    pub open spec fn valid(self) -> bool {
        &&& self.vector_dim > 0
        &&& self.scalar_len > 0
        &&& self.target_file_size > 0
        &&& self.row_cost_fits()
    }

    /// Creates a configuration from its fields.
    pub fn new(
        vector_dim: usize,
        scalar_len: usize,
        target_file_size: u64,
        compression: CompressionType,
        seed: u64,
    ) -> (r: Self)
        ensures
            r.vector_dim == vector_dim,
            r.scalar_len == scalar_len,
            r.target_file_size == target_file_size,
            r.compression == compression,
            r.seed == seed,
    {
        Config { vector_dim, scalar_len, target_file_size, compression, seed }
    }

    /// Checks the configuration before a run, reporting the first field at fault.
    pub fn validate(&self) -> (r: Result<(), ConfigError>)
        ensures
            r is Ok <==> self.valid(),
            r == Err::<(), _>(ConfigError::ZeroVectorDim) <==> self.vector_dim == 0,
            r == Err::<(), _>(ConfigError::ZeroScalarLen) <==> (self.vector_dim > 0
                && self.scalar_len == 0),
            r == Err::<(), _>(ConfigError::ZeroTargetFileSize) <==> (self.vector_dim > 0
                && self.scalar_len > 0 && self.target_file_size == 0),
            r == Err::<(), _>(ConfigError::RowTooWide) <==> (self.vector_dim > 0
                && self.scalar_len > 0 && self.target_file_size > 0 && !self.row_cost_fits()),
    {
        if self.vector_dim == 0 {
            return Err(ConfigError::ZeroVectorDim);
        }
        if self.scalar_len == 0 {
            return Err(ConfigError::ZeroScalarLen);
        }
        if self.target_file_size == 0 {
            return Err(ConfigError::ZeroTargetFileSize);
        }
        let limit: usize = usize::MAX - BINARY_OVERHEAD - STRING_OVERHEAD;
        if self.vector_dim > limit / 4 || self.scalar_len > limit - self.vector_dim * 4
            || self.target_file_size > usize::MAX as u64 {
            return Err(ConfigError::RowTooWide);
        }
        Ok(())
    }

    /// Estimated number of rows per file: the target size divided by the
    /// estimated row cost, at least one. The cost is an approximation made
    /// before compression; it is not measured against the written file.
    pub fn estimate_rows_per_file(&self) -> (r: usize)
        requires
            self.row_cost_fits(),
        ensures
            r as nat == rows_per_file(*self),
            r >= 1,
    {
        let per_row: usize = (self.vector_dim * 4 + BINARY_OVERHEAD) + (self.scalar_len
            + STRING_OVERHEAD);
        let fit: usize = (self.target_file_size as usize) / per_row;
        if fit >= 1 {
            fit
        } else {
            1
        }
    }
}

/// The byte count that bytesize reads from a size string such as `512MB`
/// (decimal units; binary ones such as `1GiB` too), if it reads one.
pub uninterp spec fn parsed_byte_size(s: Seq<char>) -> Option<u64>;

/// Relies on bytesize's `ByteSize::from_str` and `ByteSize::as_u64`: the byte
/// count written in `s`, or bytesize's message on why it cannot read it.
#[verifier::external_body]
fn byte_size_from_str(s: &str) -> (r: Result<u64, String>)
    ensures
        r is Ok <==> parsed_byte_size(s@) is Some,
        r matches Ok(v) ==> parsed_byte_size(s@) == Some(v),
{
    ByteSize::from_str(s).map(|b| b.as_u64())
}

/// Reads a human-readable file size (`512MB`, `1GB`, `100KB`, a plain byte
/// count) into bytes; an unreadable string gives an error message.
pub fn parse_file_size(size_str: &str) -> (r: Result<u64, String>)
    ensures
        r is Ok <==> parsed_byte_size(size_str@) is Some,
        r matches Ok(v) ==> parsed_byte_size(size_str@) == Some(v),
{
    byte_size_from_str(size_str)
}

impl Default for Config {
    /// 1024-dimensional vectors, 32-byte scalars, 512 MiB files, Snappy, seed 42.
    fn default() -> (r: Self)
        ensures
            r.vector_dim == 1024,
            r.scalar_len == 32,
            r.target_file_size == 512 * 1024 * 1024,
            r.compression == CompressionType::Snappy,
            r.seed == 42,
    {
        Config {
            vector_dim: 1024,
            scalar_len: 32,
            target_file_size: 512 * 1024 * 1024,
            compression: CompressionType::Snappy,
            seed: 42,
        }
    }
}

} // verus!
