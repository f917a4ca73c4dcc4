//! Where the C header that declares the entry points is written.
//!
//! The header goes into a directory that the build may configure, under a
//! fixed file name. This module holds the two rules; joining them into a
//! path and writing the file is left to the caller.

use vstd::prelude::*;

verus! {

/// The directory used when none is configured: the current one.
pub open spec fn default_output_dir() -> Seq<char> {
    "."@
}

/// The name of the header file.
pub open spec fn header_file_name_text() -> Seq<char> {
    "libcore2.h"@
}

/// The directory that the header goes to under the given configuration.
pub open spec fn output_dir_of(configured: Option<String>) -> Seq<char> {
    match configured {
        Some(dir) => dir@,
        None => default_output_dir(),
    }
}

/// Returns the directory to write the header to: the configured one where
/// there is one, taken as it is, and the current directory otherwise.
pub fn output_dir(configured: Option<String>) -> (dir: String)
    ensures
        dir@ == output_dir_of(configured),
{
    match configured {
        Some(dir) => dir,
        None => ".".to_owned(),
    }
}

/// Returns the header's file name, which does not depend on the
/// configuration.
pub fn header_file_name() -> (name: &'static str)
    ensures
        name@ == header_file_name_text(),
{
    "libcore2.h"
}

} // verus!
