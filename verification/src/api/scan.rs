//! The report of a directory scan: one entry per media file, with the result
//! of parsing the file and of reading its supplementary JSON.
use crate::api::error::Error;
use crate::engine::scan::ScanError;
use crate::engine::EngineError;
use crate::parser::{MediaMeta, ParseError};
use vstd::prelude::*;

verus! {

/// Information about one media file found by a scan: its path, the result
/// of parsing its metadata, and the result of reading its supplementary
/// JSON, whose decoded form is `J`.
#[derive(Debug)]
pub struct FileEntry<J> {
    /// Path of the media file.
    pub path: String,
    /// Metadata from the media file.
    pub meta: Result<MediaMeta, Error>,
    /// The related JSON metadata, or why it is missing.
    pub json: Result<J, Error>,
}

/// Aggregated statistics about a scan.
#[derive(Debug, Default)]
pub struct ScanStats {
    /// Total number of media files found.
    pub total: usize,
}

/// The complete result of a directory scan.
#[derive(Debug)]
pub struct ScanReport<J> {
    /// All media files found.
    pub files: Vec<FileEntry<J>>,
    /// Aggregated statistics for the scan.
    pub stats: ScanStats,
    /// Warnings and non-fatal errors met.
    pub warnings: Vec<String>,
}

impl<J> ScanReport<J> {
    /// Whether the statistics count exactly the files recorded.
    pub open spec fn counts_files(&self) -> bool {
        self.stats.total == self.files@.len()
    }

    /// An empty report.
    pub fn new() -> (r: ScanReport<J>)
        ensures
            r.files@.len() == 0,
            r.stats.total == 0,
            r.warnings@.len() == 0,
            r.counts_files(),
    {
        ScanReport { files: Vec::new(), stats: ScanStats { total: 0 }, warnings: Vec::new() }
    }

    /// Appends the entry of one media file and counts it.
    ///
    /// A report whose statistics counted its files still does afterwards.
    pub fn add_file(&mut self, path: String, meta: Result<MediaMeta, Error>, json: Result<J, Error>)
        requires
            old(self).counts_files() || old(self).stats.total < usize::MAX,
        ensures
            final(self).files@ == old(self).files@.push(FileEntry { path, meta, json }),
            final(self).stats.total == old(self).stats.total + 1,
            final(self).warnings@ == old(self).warnings@,
            old(self).counts_files() ==> final(self).counts_files(),
    {
        self.files.push(FileEntry { path, meta, json });
        let _n = self.files.len();
        self.stats.total = self.stats.total + 1;
    }

    /// Records the results of handling one media file: its parse result and
    /// its supplementary JSON, each failure wrapped as a scan error of the
    /// engine.
    pub fn record_media_file(
        &mut self,
        path: String,
        meta: Result<MediaMeta, ParseError>,
        json: Result<J, ScanError>,
    )
        requires
            old(self).counts_files() || old(self).stats.total < usize::MAX,
        ensures
            final(self).files@ == old(self).files@.push(
                FileEntry { path, meta: scan_meta_result(meta), json: scan_json_result(json) },
            ),
            final(self).stats.total == old(self).stats.total + 1,
            final(self).warnings@ == old(self).warnings@,
            old(self).counts_files() ==> final(self).counts_files(),
    {
        let meta = match meta {
            Ok(m) => Ok(m),
            Err(e) => Err(Error::Engine(EngineError::Scan(ScanError::Parser(e)))),
        };
        let json = match json {
            Ok(j) => Ok(j),
            Err(e) => Err(Error::Engine(EngineError::Scan(e))),
        };
        self.add_file(path, meta, json);
    }
}

/// A media file's parse result as a scan records it: a parse failure becomes
/// a scan error of the engine.
pub open spec fn scan_meta_result(meta: Result<MediaMeta, ParseError>) -> Result<MediaMeta, Error> {
    match meta {
        Ok(m) => Ok(m),
        Err(e) => Err(Error::Engine(EngineError::Scan(ScanError::Parser(e)))),
    }
}

/// A supplementary JSON result as a scan records it: a failure becomes a scan
/// error of the engine.
pub open spec fn scan_json_result<J>(json: Result<J, ScanError>) -> Result<J, Error> {
    match json {
        Ok(j) => Ok(j),
        Err(e) => Err(Error::Engine(EngineError::Scan(e))),
    }
}


/// The report entry that a scan records for one media file, given its path,
/// its parse result and its supplementary JSON result.
pub open spec fn scan_entry<J>(file: (String, Result<MediaMeta, ParseError>, Result<J, ScanError>)) -> FileEntry<J> {
    FileEntry { path: file.0, meta: scan_meta_result(file.1), json: scan_json_result(file.2) }
}

/// Builds the report of a scan from the results of handling each media file,
/// in order: one entry per media file, counted in the statistics, and no
/// warnings.
pub fn build_report<J>(files: Vec<(String, Result<MediaMeta, ParseError>, Result<J, ScanError>)>) -> (r:
    ScanReport<J>)
    ensures
        r.files@.len() == files@.len(),
        forall|i: int| 0 <= i < files@.len() ==> #[trigger] r.files@[i] == scan_entry(files@[i]),
        r.stats.total == files@.len(),
        r.warnings@.len() == 0,
{
    broadcast use vstd::std_specs::vec::axiom_spec_into_iter;

    let ghost all = files@;
    let mut report: ScanReport<J> = ScanReport::new();
    for file in it: files.into_iter()
        invariant
            it.seq() == all,
            report.files@.len() == it.index(),
            report.counts_files(),
            report.warnings@.len() == 0,
            forall|i: int| 0 <= i < it.index() ==> #[trigger] report.files@[i] == scan_entry(all[i]),
    {
        let (path, meta, json) = file;
        report.record_media_file(path, meta, json);
    }
    report
}

} // verus!
