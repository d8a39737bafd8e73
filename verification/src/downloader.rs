//! URL construction and the download-and-decode pipeline.
//!
//! A fetch consults the cache under the URL's key; on a miss it performs one
//! blocking HTTP GET (no retries), decodes the payload as Parquet or CSV, and
//! populates the cache. The network call and the polars decoders are trusted;
//! everything around them — key derivation, cache consultation and
//! population, and URL construction — is verified.

use vstd::prelude::*;
use vstd::string::StringExecFns;
use crate::cache::{
    cache_get, cache_set, make_cache_key, spec_cache_get, spec_cache_key, Cache, CacheEntry,
};
use crate::config::{CacheMode, Config};
use crate::error::NflReadError;
use crate::frame::clone_df;
use crate::text::{ends_with, str_ends_with};
use polars::prelude::DataFrame;
use polars::prelude::PolarsError;
use polars::prelude::SerReader;
use std::io::Write;

verus! {

/// The two encodings a dataset is published in.
#[derive(Debug, Clone, Copy, PartialEq, Eq, Structural)]
pub enum DataFormat {
    Parquet,
    Csv,
}

/// The four fixed upstream data providers.
#[derive(Debug, Clone, Copy, PartialEq, Eq, Structural)]
pub enum Repository {
    NflverseData,
    Espnscraper,
    Dynastyprocess,
    Ffopportunity,
}

pub open spec fn spec_base_url(r: Repository) -> Seq<char> {
    match r {
        Repository::NflverseData => "https://github.com/nflverse/nflverse-data/releases/download/"@,
        Repository::Espnscraper => "https://github.com/nflverse/espnscrapeR-data/raw/master/data/"@,
        Repository::Dynastyprocess => "https://github.com/dynastyprocess/data/raw/master/files/"@,
        Repository::Ffopportunity => "https://github.com/ffverse/ffopportunity/releases/download/"@,
    }
}

impl Repository {
    /// The repository's fixed base URL.
    pub fn base_url(&self) -> (r: &'static str)
        ensures
            r@ == spec_base_url(*self),
    {
        match self {
            Repository::NflverseData => {
                "https://github.com/nflverse/nflverse-data/releases/download/"
            },
            Repository::Espnscraper => {
                "https://github.com/nflverse/espnscrapeR-data/raw/master/data/"
            },
            Repository::Dynastyprocess => {
                "https://github.com/dynastyprocess/data/raw/master/files/"
            },
            Repository::Ffopportunity => {
                "https://github.com/ffverse/ffopportunity/releases/download/"
            },
        }
    }
}

/// The canonical file extension of a format.
pub open spec fn spec_ext(f: DataFormat) -> Seq<char> {
    match f {
        DataFormat::Parquet => ".parquet"@,
        DataFormat::Csv => ".csv"@,
    }
}

/// The URL of a dataset path in a repository: the base URL, the path, and
/// the format's extension unless the path already ends in either known one.
pub open spec fn spec_build_url(repo: Repository, path: Seq<char>, format: DataFormat) -> Seq<
    char,
> {
    if ends_with(path, ".parquet"@) || ends_with(path, ".csv"@) {
        spec_base_url(repo) + path
    } else {
        spec_base_url(repo) + path + spec_ext(format)
    }
}

/// Concatenate a repository's base URL with a path, appending the format's
/// canonical extension unless the path is already suffixed.
pub fn build_url(repo: Repository, path: &str, format: DataFormat) -> (url: String)
    ensures
        url@ == spec_build_url(repo, path@, format),
{
    let mut url = String::from_str(repo.base_url());
    url.append(path);
    if !(str_ends_with(path, ".parquet") || str_ends_with(path, ".csv")) {
        match format {
            DataFormat::Parquet => url.append(".parquet"),
            DataFormat::Csv => url.append(".csv"),
        }
    }
    url
}

/// Law: suffixing is idempotent — building a URL from a path with the
/// format's extension already appended gives the same URL as building it
/// from the bare path.
pub proof fn lemma_build_url_idempotent(repo: Repository, path: Seq<char>, format: DataFormat)
    requires
        !ends_with(path, ".parquet"@),
        !ends_with(path, ".csv"@),
    ensures
        spec_build_url(repo, path + spec_ext(format), format) == spec_build_url(
            repo,
            path,
            format,
        ),
{
    let ext = spec_ext(format);
    let suffixed = path + ext;
    assert(suffixed.subrange(suffixed.len() - ext.len(), suffixed.len() as int) =~= ext);
    assert(ends_with(suffixed, ext));
    assert(spec_base_url(repo) + suffixed =~= spec_base_url(repo) + path + ext);
}

/// Relies on reqwest's blocking client: one HTTP GET with the given timeout
/// (seconds) and user agent; `Ok` only for a 2xx status, carrying the
/// response body's bytes. What comes back depends on the network, so nothing
/// is promised of it.
#[verifier::external_body]
fn http_get_bytes(url: &str, timeout_secs: u64, user_agent: &str) -> (r: Result<
    Vec<u8>,
    reqwest::Error,
>) {
    let client = reqwest::blocking::Client::builder()
        .timeout(std::time::Duration::from_secs(timeout_secs))
        .user_agent(user_agent)
        .build()?;
    let response = client.get(url).send()?.error_for_status()?;
    let bytes = response.bytes()?;
    Ok(bytes.to_vec())
}

/// Relies on polars `ParquetReader`: decode a Parquet payload into a table.
/// Success and the table depend on the bytes alone; callers state how they
/// use whatever comes back.
#[verifier::external_body]
fn decode_parquet(bytes: &[u8]) -> (r: Result<DataFrame, PolarsError>) {
    polars::prelude::ParquetReader::new(std::io::Cursor::new(bytes)).finish()
}

/// Relies on polars' CSV reader: decode a CSV payload that carries a header
/// row, treating each of the given markers as null in every column.
#[verifier::external_body]
fn decode_csv(bytes: &[u8], null_markers: &Vec<String>) -> (r: Result<DataFrame, PolarsError>) {
    let markers: Vec<polars::prelude::PlSmallStr> = null_markers.iter().map(
        |m| polars::prelude::PlSmallStr::from_str(m.as_str()),
    ).collect();
    let parse_options = polars::prelude::CsvParseOptions::default().with_null_values(
        Some(polars::prelude::NullValues::AllColumns(markers)),
    );
    polars::prelude::CsvReadOptions::default().with_has_header(true).with_parse_options(
        parse_options,
    ).into_reader_with_file_handle(std::io::Cursor::new(bytes)).finish()
}

/// The literal tokens treated as null markers in every CSV column.
fn csv_null_markers() -> (v: Vec<String>)
    ensures
        v@.len() == 3,
        v@[0]@ == "NA"@,
        v@[1]@ == "NULL"@,
        v@[2]@ == Seq::<char>::empty(),
{
    let mut v: Vec<String> = Vec::new();
    v.push(String::from_str("NA"));
    v.push(String::from_str("NULL"));
    v.push(String::new());
    v
}

/// Relies on std stderr for the verbose progress note.
#[verifier::external_body]
fn note_download(url: &str) {
    let _ = writeln!(std::io::stderr(), "Downloading: {url}");
}

/// How a fetch relates the cache before and after, the URL, and its result:
/// a fresh hit returns the cached table and leaves the cache untouched; a
/// miss either stores the decoded table under the URL's key at `now` (on the
/// memory tier; the other tiers keep no in-process entries) and returns it,
/// or fails with a transport or decode error and changes nothing.
pub open spec fn download_post(
    pre: Cache,
    post: Cache,
    url: Seq<char>,
    now: u64,
    r: Result<DataFrame, NflReadError>,
) -> bool {
    let key = spec_cache_key(url);
    &&& post.mode == pre.mode
    &&& post.duration == pre.duration
    &&& match spec_cache_get(pre, key, now) {
        Some(t) => r matches Ok(df) && df == t && post.mem@ == pre.mem@,
        None => match r {
            Ok(df) => post.mem@ == (if pre.mode == CacheMode::Memory {
                pre.mem@.insert(key, (CacheEntry { table: df, timestamp: now }))
            } else {
                pre.mem@
            }),
            Err(e) => post.mem@ == pre.mem@ && (e matches NflReadError::Http(_)
                || e matches NflReadError::Polars(_)),
        },
    }
}

/// Fetch a table. The cache is consulted under the URL's key; on a fresh hit
/// the cached table is returned with no network activity. On a miss, one
/// blocking HTTP GET is issued (no retries; a non-2xx status is a hard
/// failure), the body is decoded per `format`, and the table is handed to
/// the cache — which itself enforces the `Off` tier — before being returned.
pub fn download_dataframe(
    cache: &mut Cache,
    config: &Config,
    url: &str,
    format: DataFormat,
    now: u64,
) -> (r: Result<DataFrame, NflReadError>)
    requires
        old(cache).wf(),
    ensures
        final(cache).wf(),
        download_post(*old(cache), *final(cache), url@, now, r),
{
    let key = make_cache_key(url);
    let cached = cache_get(cache, key.as_str(), now);
    match cached {
        Some(df) => Ok(df),
        None => {
            if config.verbose {
                note_download(url);
            }
            let bytes = match http_get_bytes(url, config.timeout, config.user_agent.as_str()) {
                Ok(b) => b,
                Err(e) => {
                    return Err(NflReadError::Http(e));
                },
            };
            let decoded = match format {
                DataFormat::Parquet => decode_parquet(bytes.as_slice()),
                DataFormat::Csv => {
                    let markers = csv_null_markers();
                    decode_csv(bytes.as_slice(), &markers)
                },
            };
            let table = match decoded {
                Ok(t) => t,
                Err(e) => {
                    return Err(NflReadError::Polars(e));
                },
            };
            let out = clone_df(&table);
            cache_set(cache, key.as_str(), table, now);
            Ok(out)
        },
    }
}

/// Fetch a path from the nflverse-data release repository, encoded as
/// Parquet.
pub fn download_nflverse(cache: &mut Cache, config: &Config, path: &str, now: u64) -> (r: Result<
    DataFrame,
    NflReadError,
>)
    requires
        old(cache).wf(),
    ensures
        final(cache).wf(),
        download_post(
            *old(cache),
            *final(cache),
            spec_build_url(Repository::NflverseData, path@, DataFormat::Parquet),
            now,
            r,
        ),
{
    let url = build_url(Repository::NflverseData, path, DataFormat::Parquet);
    download_dataframe(cache, config, url.as_str(), DataFormat::Parquet, now)
}

/// Law: on the memory tier, a fetch that missed and stored its table is
/// answered from the cache by any second fetch of the same URL within the
/// TTL: that call returns the identical table and leaves the cache unchanged
/// — no second download.
pub proof fn lemma_second_fetch_hits(
    pre: Cache,
    mid: Cache,
    url: Seq<char>,
    now: u64,
    later: u64,
    df: DataFrame,
)
    requires
        pre.mode == CacheMode::Memory,
        later - now < pre.duration,
        spec_cache_get(pre, spec_cache_key(url), now) is None,
        download_post(pre, mid, url, now, Ok(df)),
    ensures
        spec_cache_get(mid, spec_cache_key(url), later) == Some(df),
{
}

} // verus!
