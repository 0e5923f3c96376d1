use vstd::prelude::*;
use vstd::string::*;

use crate::strutil::{last_idx_of, find_last};

verus! {

/// Where launcher descriptors live under a home directory.
pub open spec fn applications_dir_v(home: Seq<char>) -> Seq<char> {
    home + "/.local/share/applications"@
}

/// The path of this application's descriptor file.
pub open spec fn desktop_file_path_v(home: Seq<char>) -> Seq<char> {
    applications_dir_v(home) + "/nextcloud.desktop"@
}

/// The directory the client executable is installed into.
pub open spec fn app_dir_v(home: Seq<char>) -> Seq<char> {
    home + "/.local/bin/nextcloud"@
}

/// The launcher-descriptor directory for the given home directory.
pub fn applications_dir(home: &str) -> (p: String)
    ensures
        p@ == applications_dir_v(home@),
{
    let mut p = String::from_str(home);
    p.append("/.local/share/applications");
    p
}

/// The descriptor-file path for the given home directory.
pub fn nextcloud_desktop_file(home: &str) -> (p: String)
    ensures
        p@ == desktop_file_path_v(home@),
{
    let mut p = applications_dir(home);
    p.append("/nextcloud.desktop");
    p
}

/// The install directory for the given home directory.
pub fn nextcloud_app_dir(home: &str) -> (p: String)
    ensures
        p@ == app_dir_v(home@),
{
    let mut p = String::from_str(home);
    p.append("/.local/bin/nextcloud");
    p
}

/// The directory part of a path: everything before its last `/`; the root
/// itself for a path directly under the root; empty for a bare file name.
/// This matches the platform's parent computation only for paths whose last
/// component is a plain file name; on a path with a trailing `/` the platform
/// would first drop that empty component, this keeps it. The orchestrator
/// applies it to executable paths, which end in the artifact file name.
pub open spec fn parent_dir_v(p: Seq<char>) -> Seq<char> {
    let i = last_idx_of(p, '/');
    if i < 0 {
        Seq::empty()
    } else if i == 0 {
        p.subrange(0, 1)
    } else {
        p.subrange(0, i)
    }
}

pub fn parent_dir(p: &str) -> (r: String)
    ensures
        r@ == parent_dir_v(p@),
{
    match find_last(p, '/') {
        None => String::new(),
        Some(i) => {
            if i == 0 {
                String::from_str(p.substring_char(0, 1))
            } else {
                String::from_str(p.substring_char(0, i))
            }
        },
    }
}

/// A directory path joined with a file name by a single `/`; a name under the
/// root or under the empty directory gets no duplicate separator.
pub open spec fn join_path_v(dir: Seq<char>, file: Seq<char>) -> Seq<char> {
    if dir.len() == 0 {
        file
    } else if dir[dir.len() - 1] == '/' {
        dir + file
    } else {
        dir + seq!['/'] + file
    }
}

pub fn join_path(dir: &str, file: &str) -> (r: String)
    ensures
        r@ == join_path_v(dir@, file@),
{
    let n = dir.unicode_len();
    if n == 0 {
        return String::from_str(file);
    }
    let mut r = String::from_str(dir);
    if dir.get_char(n - 1) == '/' {
        r.append(file);
    } else {
        r.append("/");
        r.append(file);
        proof {
            reveal_strlit("/");
            assert("/"@ =~= seq!['/']);
        }
    }
    r
}

} // verus!
