use std::sync::Arc;

use arrow::array::{ArrayRef, BinaryArray, StringArray};
use arrow::datatypes::{DataType, Field, Schema};
use arrow::record_batch::RecordBatch;
use parquet::basic::{Compression, GzipLevel, ZstdLevel};
use parquet::schema::types::ColumnPath;
use rand::distributions::{Distribution, Uniform};
use vector_data_gen::config::{parse_file_size, CompressionType, Config, ConfigError};
use vector_data_gen::generator::{vector_bytes, DataGenerator};
use vector_data_gen::naming::file_name;
use vector_data_gen::split::{split_rows, FileJob, FileSplitWriter};
use vector_data_gen::writer::{parquet_codec, ParquetWriter};

fn draw_vector(generator: &mut DataGenerator) -> Vec<u8> {
    let uniform = Uniform::new(-1.0f32, 1.0f32);
    let bits: Vec<u32> = (0..generator.config.vector_dim)
        .map(|_| uniform.sample(&mut generator.rng).to_bits())
        .collect();
    vector_bytes(&bits)
}

fn draw_rows(generator: &mut DataGenerator, n: usize) -> Vec<(Vec<u8>, String)> {
    (0..n)
        .map(|_| {
            let v = draw_vector(generator);
            let s = generator.generate_scalar();
            (v, s)
        })
        .collect()
}

fn small_config(seed: u64) -> Config {
    Config::new(4, 8, 1000, CompressionType::Snappy, seed)
}

fn run_plan(total: usize, rows_per_file: usize, cap: usize, seed: u64) -> Vec<FileJob> {
    let mut writer = FileSplitWriter::new(total, rows_per_file, cap, seed);
    let mut jobs = Vec::new();
    while let Some(job) = writer.next_file() {
        assert!(writer.file_open);
        assert_eq!(writer.open_rows, job.rows);
        assert_eq!(writer.close_file(), job.rows);
        jobs.push(job);
    }
    assert_eq!(writer.remaining, 0);
    assert_eq!(writer.total_rows_written, total);
    assert_eq!(writer.files_written, jobs.len());
    jobs
}

#[test]
fn test_data_generation() {
    let config = Config::default();
    let mut generator = DataGenerator::new(config);

    let vector = draw_vector(&mut generator);
    assert_eq!(vector.len(), 1024 * 4);

    let scalar = generator.generate_scalar();
    assert_eq!(scalar.len(), 32);

    let rows = draw_rows(&mut generator, 10);
    let vector_array = BinaryArray::from_iter_values(rows.iter().map(|r| r.0.as_slice()));
    let scalar_array = StringArray::from(rows.iter().map(|r| r.1.clone()).collect::<Vec<_>>());
    let schema = Schema::new(vec![
        Field::new("vector", DataType::Binary, false),
        Field::new("scalar", DataType::Utf8, false),
    ]);
    let batch = RecordBatch::try_new(
        Arc::new(schema),
        vec![Arc::new(vector_array) as ArrayRef, Arc::new(scalar_array) as ArrayRef],
    )
    .unwrap();
    assert_eq!(batch.num_rows(), 10);
    assert_eq!(batch.num_columns(), 2);
}

#[test]
fn test_estimate_rows() {
    let config = Config::default();
    let generator = DataGenerator::new(config);

    let estimated = generator.estimate_rows_per_file();
    assert!(estimated > 0);
}

#[test]
fn test_parse_file_size() {
    assert_eq!(parse_file_size("512MB").unwrap(), 512_000_000);
    assert_eq!(parse_file_size("1GB").unwrap(), 1_000_000_000);
    assert_eq!(parse_file_size("100KB").unwrap(), 100_000);
}

#[test]
fn test_parse_invalid_file_size() {
    assert!(parse_file_size("invalid").is_err());
    assert!(parse_file_size("123XYZ").is_err());
}

#[test]
fn parse_plain_byte_count() {
    assert_eq!(parse_file_size("4096").unwrap(), 4096);
}

#[test]
fn same_seed_same_rows() {
    let mut a = DataGenerator::new(small_config(7));
    let mut b = DataGenerator::new(small_config(7));
    assert_eq!(draw_rows(&mut a, 20), draw_rows(&mut b, 20));
}

#[test]
fn other_seed_other_rows() {
    let mut a = DataGenerator::new(small_config(7));
    let mut b = DataGenerator::new(small_config(8));
    assert_ne!(draw_rows(&mut a, 5), draw_rows(&mut b, 5));
}

#[test]
fn vector_floats_in_unit_range() {
    let mut g = DataGenerator::new(Config::new(64, 8, 1000, CompressionType::Zstd, 3));
    for _ in 0..20 {
        let bytes = draw_vector(&mut g);
        assert_eq!(bytes.len(), 4 * 64);
        for chunk in bytes.chunks(4) {
            let f = f32::from_le_bytes([chunk[0], chunk[1], chunk[2], chunk[3]]);
            assert!((-1.0..1.0).contains(&f));
        }
    }
}

#[test]
fn vector_bytes_little_endian() {
    let bits = vec![0x0403_0201u32, 0xAABB_CCDD];
    assert_eq!(vector_bytes(&bits), vec![1, 2, 3, 4, 0xDD, 0xCC, 0xBB, 0xAA]);
    assert_eq!(vector_bytes(&vec![(-0.5f32).to_bits()]), (-0.5f32).to_le_bytes().to_vec());
    assert!(vector_bytes(&Vec::new()).is_empty());
}

#[test]
fn scalar_alphanumeric_of_configured_length() {
    let mut g = DataGenerator::new(Config::new(4, 57, 1000, CompressionType::Gzip, 11));
    for _ in 0..20 {
        let s = g.generate_scalar();
        assert_eq!(s.len(), 57);
        assert!(s.chars().all(|c| c.is_ascii_alphanumeric()));
    }
}

#[test]
fn estimate_exact_values() {
    assert_eq!(small_config(1).estimate_rows_per_file(), 25);
    assert_eq!(Config::default().estimate_rows_per_file(), 129_553);
    let tiny = Config::new(1024, 32, 10, CompressionType::Lz4, 1);
    assert_eq!(tiny.estimate_rows_per_file(), 1);
    let gen = DataGenerator::new(tiny);
    assert_eq!(gen.estimate_rows_per_file(), 1);
}

#[test]
fn validate_reports_each_fault() {
    assert_eq!(small_config(1).validate(), Ok(()));
    let c = Config::new(0, 8, 1000, CompressionType::Snappy, 1);
    assert_eq!(c.validate(), Err(ConfigError::ZeroVectorDim));
    let c = Config::new(4, 0, 1000, CompressionType::Snappy, 1);
    assert_eq!(c.validate(), Err(ConfigError::ZeroScalarLen));
    let c = Config::new(4, 8, 0, CompressionType::Snappy, 1);
    assert_eq!(c.validate(), Err(ConfigError::ZeroTargetFileSize));
    let c = Config::new(usize::MAX / 2, 8, 1000, CompressionType::Snappy, 1);
    assert_eq!(c.validate(), Err(ConfigError::RowTooWide));
}

#[test]
fn default_config_fields() {
    let c = Config::default();
    assert_eq!(c.vector_dim, 1024);
    assert_eq!(c.scalar_len, 32);
    assert_eq!(c.target_file_size, 512 * 1024 * 1024);
    assert_eq!(c.compression, CompressionType::Snappy);
    assert_eq!(c.seed, 42);
}

#[test]
fn split_rows_pieces() {
    assert_eq!(split_rows(5, 2), vec![2, 2, 1]);
    assert_eq!(split_rows(6, 3), vec![3, 3]);
    assert_eq!(split_rows(1, 10), vec![1]);
    assert!(split_rows(0, 4).is_empty());
}

#[test]
fn single_small_file_in_three_batches() {
    let config = small_config(1);
    let rows_per_file = config.estimate_rows_per_file();
    assert_eq!(rows_per_file, 25);
    let jobs = run_plan(5, rows_per_file, 2, config.seed);
    assert_eq!(
        jobs,
        vec![FileJob { index: 0, seed: 1, rows: 5, batches: vec![2, 2, 1] }]
    );
}

#[test]
fn sixty_rows_split_by_estimate() {
    let config = small_config(1);
    let jobs = run_plan(60, config.estimate_rows_per_file(), 2, config.seed);
    let rows: Vec<usize> = jobs.iter().map(|j| j.rows).collect();
    assert_eq!(rows, vec![25, 25, 10]);
    let seeds: Vec<u64> = jobs.iter().map(|j| j.seed).collect();
    assert_eq!(seeds, vec![1, 2, 3]);
    assert_eq!(jobs[0].batches.iter().sum::<usize>(), 25);
    assert_eq!(jobs[2].batches, vec![2, 2, 2, 2, 2]);

    let mut per_file = DataGenerator::new(Config { seed: jobs[0].seed, ..config });
    let mut file_rows = Vec::new();
    for &n in &jobs[0].batches {
        file_rows.extend(draw_rows(&mut per_file, n));
    }
    let mut standalone = DataGenerator::new(small_config(1));
    assert_eq!(file_rows, draw_rows(&mut standalone, 25));
}

#[test]
fn plan_sums_to_target() {
    for total in [0usize, 1, 24, 25, 26, 99, 1000] {
        for per_file in [1usize, 7, 25, 2000] {
            let jobs = run_plan(total, per_file, 3, 9);
            assert_eq!(jobs.iter().map(|j| j.rows).sum::<usize>(), total);
            for (i, job) in jobs.iter().enumerate() {
                assert_eq!(job.index, i);
                assert!(job.rows >= 1 && job.rows <= per_file);
                if i + 1 < jobs.len() {
                    assert_eq!(job.rows, per_file);
                }
                assert_eq!(job.batches.iter().sum::<usize>(), job.rows);
            }
        }
    }
}

#[test]
fn no_file_for_zero_rows() {
    let mut writer = FileSplitWriter::new(0, 25, 2, 1);
    assert_eq!(writer.next_file(), None);
    assert_eq!(writer.files_written, 0);
}

#[test]
fn no_extra_file_after_exact_fill() {
    let mut writer = FileSplitWriter::new(50, 25, 10, 1);
    assert!(writer.next_file().is_some());
    assert_eq!(writer.files_written, 0);
    assert_eq!(writer.close_file(), 25);
    assert_eq!(writer.files_written, 1);
    assert!(writer.next_file().is_some());
    assert_eq!(writer.remaining, 0);
    assert_eq!(writer.total_rows_written, 25);
    assert_eq!(writer.close_file(), 25);
    assert_eq!(writer.next_file(), None);
    assert_eq!(writer.files_written, 2);
    assert_eq!(writer.total_rows_written, 50);
}

#[test]
fn file_seed_wraps() {
    let jobs = run_plan(3, 1, 1, u64::MAX);
    let seeds: Vec<u64> = jobs.iter().map(|j| j.seed).collect();
    assert_eq!(seeds, vec![u64::MAX, 0, 1]);
}

#[test]
fn rerun_gives_identical_content() {
    let run = || {
        let config = small_config(5);
        let jobs = run_plan(40, config.estimate_rows_per_file(), 4, config.seed);
        let mut out = Vec::new();
        for job in &jobs {
            let mut g = DataGenerator::new(Config { seed: job.seed, ..config });
            for &n in &job.batches {
                out.push(draw_rows(&mut g, n));
            }
        }
        (jobs, out)
    };
    assert_eq!(run(), run());
}

#[test]
fn file_names_are_zero_padded() {
    assert_eq!(file_name("data", 0, "parquet"), "data-00000000.parquet");
    assert_eq!(file_name("data", 7, "parquet"), "data-00000007.parquet");
    assert_eq!(file_name("run", 12345678, "pq"), "run-12345678.pq");
    assert_eq!(file_name("x", 123456789, "parquet"), "x-123456789.parquet");
}

#[test]
fn codec_per_compression_choice() {
    assert_eq!(parquet_codec(CompressionType::Snappy), Compression::SNAPPY);
    assert_eq!(parquet_codec(CompressionType::Gzip), Compression::GZIP(GzipLevel::default()));
    assert_eq!(parquet_codec(CompressionType::Lz4), Compression::LZ4);
    assert_eq!(parquet_codec(CompressionType::Zstd), Compression::ZSTD(ZstdLevel::default()));
    assert_eq!(parquet_codec(CompressionType::Uncompressed), Compression::UNCOMPRESSED);
}

#[test]
fn writer_settings_follow_config() {
    let config = Config::new(4, 8, 1000, CompressionType::Zstd, 1);
    let writer = ParquetWriter::new(config);
    assert_eq!(writer.config, config);
    let col = ColumnPath::from("vector");
    assert_eq!(writer.writer_props.compression(&col), Compression::ZSTD(ZstdLevel::default()));
    assert!(writer.writer_props.dictionary_enabled(&col));
    assert_eq!(writer.writer_props.max_row_group_row_count(), Some(100_000));
}
