//! The verified text assembly behind compiling a model description into a
//! shared library. The caller resolves paths and runs the build tool; the
//! functions here fix exactly what the file names and argument strings
//! look like.

use crate::text::spec_join_spaces;
use crate::text::str_eq;
use vstd::prelude::*;
use vstd::string::StringExecFns;

verus! {

/// Whether a file extension is the one a model description must carry.
pub fn is_stan_extension(ext: &str) -> (ok: bool)
    ensures
        ok == (ext@ == "stan"@),
{
    str_eq(ext, "stan")
}

/// The file name of the compiled shared library for a model description
/// with file stem `stem`.
pub fn output_file_name(stem: &str) -> (r: String)
    ensures
        r@ == stem@ + "_model.so"@,
{
    let mut s = String::from_str(stem);
    s.append("_model.so");
    s
}

/// The compiler flag that adds the model's own directory to the include
/// path.
pub fn include_paths_flag(dir: &str) -> (r: String)
    ensures
        r@ == "--include-paths="@ + dir@,
{
    let mut s = String::from_str("--include-paths=");
    s.append(dir);
    s
}

/// The build-tool variable that hands the given arguments, joined by
/// single spaces, to the model compiler.
pub fn stancflags_line(args: &Vec<String>) -> (r: String)
    ensures
        r@ == "STANCFLAGS="@ + spec_join_spaces(args.deep_view()),
{
    let mut s = String::from_str("STANCFLAGS=");
    s.append(crate::text::join_spaces(args).as_str());
    s
}

} // verus!
