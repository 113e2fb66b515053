//! The verified text assembly behind fetching the source distribution for
//! a given binding version. The caller performs the network and file
//! work; the functions here fix exactly which directory name and which
//! address belong to a version.

use vstd::prelude::*;
use vstd::string::StringExecFns;

verus! {

/// The directory name the source distribution of a version unpacks to.
pub fn archive_dir_name(version: &str) -> (r: String)
    ensures
        r@ == "bridgestan-"@ + version@,
{
    let mut s = String::from_str("bridgestan-");
    s.append(version);
    s
}

/// The release address of the source distribution of a version.
pub fn download_url(version: &str) -> (r: String)
    ensures
        r@ == "https://github.com/roualdes/bridgestan/releases/download/v"@ + version@
            + "/bridgestan-"@ + version@ + ".tar.gz"@,
{
    let mut s = String::from_str("https://github.com/roualdes/bridgestan/releases/download/v");
    s.append(version);
    s.append("/bridgestan-");
    s.append(version);
    s.append(".tar.gz");
    s
}

} // verus!
