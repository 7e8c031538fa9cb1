//! The on-disk layout of the queue: `{root}/{queue_dir}/pending`, `ok`,
//! `error`, and an artifact directory for the fetched payloads.
//!
//! Only the path texts are computed here; creating the directories is plain
//! I/O and happens outside this crate.

use vstd::prelude::*;

use crate::config::AppConfig;

verus! {

pub open spec fn sep() -> Seq<char> {
    "/"@
}

pub open spec fn dir_pending() -> Seq<char> {
    "pending"@
}

pub open spec fn dir_ok() -> Seq<char> {
    "ok"@
}

pub open spec fn dir_error() -> Seq<char> {
    "error"@
}

pub open spec fn dir_artifacts() -> Seq<char> {
    "pdfs"@
}

/// `{root}/{queue_dir}/{dir}`
pub open spec fn spec_dir_path(root: Seq<char>, wdir: Seq<char>, dir: Seq<char>) -> Seq<char> {
    root + sep() + wdir + sep() + dir
}

/// `{root}/{queue_dir}/{dir}/{file}`
pub open spec fn spec_file_path(
    root: Seq<char>,
    wdir: Seq<char>,
    dir: Seq<char>,
    file: Seq<char>,
) -> Seq<char> {
    spec_dir_path(root, wdir, dir) + sep() + file
}

/// Joins a queue directory path out of its three segments.
pub fn dir_path(root: &str, wdir: &str, dir: &str) -> (r: String)
    ensures
        r@ == spec_dir_path(root@, wdir@, dir@),
{
    let mut r = String::from_str(root);
    r.append("/");
    r.append(wdir);
    r.append("/");
    r.append(dir);
    r
}

/// Joins the path of one file inside a queue directory.
pub fn file_path(root: &str, wdir: &str, dir: &str, file: &str) -> (r: String)
    ensures
        r@ == spec_file_path(root@, wdir@, dir@, file@),
{
    let mut r = dir_path(root, wdir, dir);
    r.append("/");
    r.append(file);
    r
}

/// The queue skeleton.
#[derive(Clone)]
pub struct Dirs;

impl Dirs {
    /// The four directories that make up the working area, in the order
    /// they are provisioned: `pending`, `error`, `ok`, and the artifact
    /// store.
    pub fn working_dir_paths(config: &AppConfig) -> (r: Vec<String>)
        ensures
            r@.len() == 4,
            r@[0]@ == spec_dir_path(config.root_path@, config.work_dir_name@, dir_pending()),
            r@[1]@ == spec_dir_path(config.root_path@, config.work_dir_name@, dir_error()),
            r@[2]@ == spec_dir_path(config.root_path@, config.work_dir_name@, dir_ok()),
            r@[3]@ == spec_dir_path(config.root_path@, config.work_dir_name@, dir_artifacts()),
    {
        let mut r: Vec<String> = Vec::new();
        r.push(dir_path(config.root_path.as_str(), config.work_dir_name.as_str(), "pending"));
        r.push(dir_path(config.root_path.as_str(), config.work_dir_name.as_str(), "error"));
        r.push(dir_path(config.root_path.as_str(), config.work_dir_name.as_str(), "ok"));
        r.push(dir_path(config.root_path.as_str(), config.work_dir_name.as_str(), "pdfs"));
        r
    }
}

} // verus!
