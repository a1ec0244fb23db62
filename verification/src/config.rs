use vstd::prelude::*;
use ahash::AHashMap;
use std::collections::HashSet;

verus! {

/// The chunk sizes of a settings map, keyed by the text of the table name.
pub uninterp spec fn chunk_size_entries(m: AHashMap<String, usize>) -> Map<Seq<char>, usize>;

/// No chunk sizes at all.
pub open spec fn no_entries() -> Map<Seq<char>, usize> {
    Map::empty()
}

/// `AHashMap::new`: a map without entries.
#[verifier::external_body]
fn no_chunk_sizes() -> (r: AHashMap<String, usize>)
    ensures
        chunk_size_entries(r) == no_entries(),
{
    AHashMap::new()
}

/// Settings of a processor that writes rows.
#[derive(Debug)]
pub struct DefaultProcessorConfig {
    /// Rows to insert per chunk, by table.
    pub per_table_chunk_sizes: AHashMap<String, usize>,
    /// Size of the channel between two steps.
    pub channel_size: usize,
    /// Tables to write; all of them where the set is empty.
    pub tables_to_write: HashSet<String>,
}

impl DefaultProcessorConfig {
    pub open spec fn spec_default_channel_size() -> usize {
        10
    }

    #[verifier::when_used_as_spec(spec_default_channel_size)]
    pub fn default_channel_size() -> (r: usize)
        ensures
            r == 10,
    {
        10
    }
}

impl Default for DefaultProcessorConfig {
    fn default() -> (r: Self)
        ensures
            chunk_size_entries(r.per_table_chunk_sizes) == no_entries(),
            r.channel_size == DefaultProcessorConfig::default_channel_size(),
            r.tables_to_write@ == Set::<String>::empty(),
    {
        DefaultProcessorConfig {
            per_table_chunk_sizes: no_chunk_sizes(),
            channel_size: Self::default_channel_size(),
            tables_to_write: HashSet::new(),
        }
    }
}

/// Settings of a processor that writes columnar files.
#[derive(Debug)]
pub struct ParquetDefaultProcessorConfig {
    /// Size of the channel between two steps.
    pub channel_size: usize,
    /// Largest size of a file buffer, in bytes.
    pub max_buffer_size: usize,
    /// Seconds between two uploads.
    pub upload_interval: u64,
    /// Tables to backfill; none where the set is empty.
    pub backfill_table: HashSet<String>,
}

impl ParquetDefaultProcessorConfig {
    pub open spec fn spec_default_channel_size() -> usize {
        100_000
    }

    pub open spec fn spec_default_max_buffer_size() -> usize {
        104_857_600
    }

    pub open spec fn spec_default_parquet_upload_interval() -> u64 {
        1800
    }

    /// Large on purpose, so that by default nothing is chunked.
    #[verifier::when_used_as_spec(spec_default_channel_size)]
    pub fn default_channel_size() -> (r: usize)
        ensures
            r == 100_000,
    {
        100_000
    }

    /// One hundred mebibytes.
    #[verifier::when_used_as_spec(spec_default_max_buffer_size)]
    pub fn default_max_buffer_size() -> (r: usize)
        ensures
            r == 1024 * 1024 * 100,
    {
        1024 * 1024 * 100
    }

    /// Thirty minutes.
    #[verifier::when_used_as_spec(spec_default_parquet_upload_interval)]
    pub fn default_parquet_upload_interval() -> (r: u64)
        ensures
            r == 30 * 60,
    {
        1800
    }
}

impl Default for ParquetDefaultProcessorConfig {
    fn default() -> (r: Self)
        ensures
            r.channel_size == 0,
            r.max_buffer_size == 0,
            r.upload_interval == 0,
            r.backfill_table@ == Set::<String>::empty(),
    {
        ParquetDefaultProcessorConfig {
            channel_size: 0,
            max_buffer_size: 0,
            upload_interval: 0,
            backfill_table: HashSet::new(),
        }
    }
}

} // verus!
