//! The unit of work: one table of one build in one locale.

use vstd::prelude::*;
use vstd::string::*;
use crate::entities::Build;

verus! {

/// The address a table is fetched from: the base address, the table, the
/// literal `csv` resource, and the build and locale as query parameters.
pub open spec fn spec_url(
    base_url: Seq<char>,
    table: Seq<char>,
    full_version: Seq<char>,
    locale: Seq<char>,
) -> Seq<char> {
    base_url + "/"@ + table + "/csv?build="@ + full_version + "&locale="@ + locale
}

/// The directory a build's tables of one locale are written to, relative to
/// the working directory.
pub open spec fn spec_folder_path(full_version: Seq<char>, locale: Seq<char>) -> Seq<char> {
    full_version + "/"@ + locale
}

/// The file a table is written to, relative to the working directory.
pub open spec fn spec_output_path(
    table: Seq<char>,
    full_version: Seq<char>,
    locale: Seq<char>,
) -> Seq<char> {
    spec_folder_path(full_version, locale) + "/"@ + table + ".csv"@
}

/// One (table, build, locale) combination to fetch.
#[derive(Debug, PartialEq, Eq)]
pub struct DownloadTask {
    pub table: String,
    pub build: Build,
    pub locale: String,
}

impl DownloadTask {
    pub fn new(table: String, build: Build, locale: String) -> (task: DownloadTask)
        ensures
            task.table == table,
            task.build == build,
            task.locale == locale,
    {
        DownloadTask { table, build, locale }
    }

    /// The address of the task below `base_url`.
    pub open spec fn url_of(&self, base_url: Seq<char>) -> Seq<char> {
        spec_url(base_url, self.table@, self.build.full_version(), self.locale@)
    }

    /// The directory the task writes into.
    pub open spec fn folder_of(&self) -> Seq<char> {
        spec_folder_path(self.build.full_version(), self.locale@)
    }

    /// The file the task writes.
    pub open spec fn path_of(&self) -> Seq<char> {
        spec_output_path(self.table@, self.build.full_version(), self.locale@)
    }

    /// Derives the address to request. It depends on nothing but the base
    /// address and the task.
    pub fn url(&self, base_url: &str) -> (url: String)
        ensures
            url@ == self.url_of(base_url@),
    {
        let full_version = self.build.format_full_version();
        let mut url = String::from_str(base_url);
        url.append("/");
        url.append(self.table.as_str());
        url.append("/csv?build=");
        url.append(full_version.as_str());
        url.append("&locale=");
        url.append(self.locale.as_str());
        url
    }

    /// Derives the directory that must exist before the file is written.
    pub fn folder_path(&self) -> (path: String)
        ensures
            path@ == self.folder_of(),
    {
        let mut path = self.build.format_full_version();
        path.append("/");
        path.append(self.locale.as_str());
        path
    }

    /// Derives the file the table is written to. It depends on nothing but
    /// the task.
    pub fn output_path(&self) -> (path: String)
        ensures
            path@ == self.path_of(),
    {
        let mut path = self.folder_path();
        path.append("/");
        path.append(self.table.as_str());
        path.append(".csv");
        path
    }
}

impl Clone for DownloadTask {
    fn clone(&self) -> (copy: DownloadTask)
        ensures
            copy == *self,
    {
        DownloadTask {
            table: self.table.clone(),
            build: self.build.clone(),
            locale: self.locale.clone(),
        }
    }
}

} // verus!
