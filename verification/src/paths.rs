//! Path construction for the artifacts this layer reads and writes: the
//! temporary object and executable files of a link, and the test-support
//! library beside the crate.
//!
//! Paths are treated as plain strings and joined with a `/` separator.
//! Reading the process environment (the temp directory, the working
//! directory) is I/O and happens outside this crate; callers hand the
//! directories in as strings.

use vstd::prelude::*;
use vstd::string::StringSliceAdditionalSpecFns;

verus! {

/// `directory` and `filename` joined with a single `/`.  Directory paths
/// are given without a trailing separator, as the platform reports them.
pub fn path_join(directory: &str, filename: &str) -> (r: String)
    ensures
        r@ == directory@ + "/"@ + filename@,
{
    let mut r = directory.to_owned();
    r.append("/");
    r.append(filename);
    r
}

/// The full path of `filename` inside the temp directory: the collision
/// point of concurrent sessions, so callers name files by artifact.
pub fn get_temp_file_fullpath(temp_dir: &str, filename: &str) -> (r: String)
    ensures
        r@ == temp_dir@ + "/"@ + filename@,
{
    path_join(temp_dir, filename)
}

/// Whether the bytes of `s` end with the bytes of `suffix`.
pub fn str_ends_with(s: &str, suffix: &str) -> (r: bool)
    ensures
        r == (s.spec_bytes().len() >= suffix.spec_bytes().len() && s.spec_bytes().subrange(
            s.spec_bytes().len() - suffix.spec_bytes().len(),
            s.spec_bytes().len() as int,
        ) == suffix.spec_bytes()),
{
    let sb: &[u8] = s.as_bytes();
    let xb: &[u8] = suffix.as_bytes();
    let n: usize = sb.len();
    let m: usize = xb.len();
    if m > n {
        return false;
    }
    let mut i: usize = 0;
    while i < m
        invariant
            m <= n,
            n == s.spec_bytes().len(),
            m == suffix.spec_bytes().len(),
            sb@ == s.spec_bytes(),
            xb@ == suffix.spec_bytes(),
            i <= m,
            forall|k: int| 0 <= k < i ==> sb@[n - m + k] == xb@[k],
        decreases m - i,
    {
        if sb[n - m + i] != xb[i] {
            proof {
                assert(s.spec_bytes().subrange(n - m, n as int)[i as int] != xb@[i as int]);
            }
            return false;
        }
        i = i + 1;
    }
    proof {
        assert(s.spec_bytes().subrange(n - m, n as int) =~= suffix.spec_bytes());
    }
    true
}

/// Whether the path `s` ends in the whole directory component `c`: either
/// `s` is `c` itself, or `c` follows a `/` at the very end of `s`.  A mere
/// byte suffix is not enough — `myassembler` does not end in the component
/// `assembler`.
pub open spec fn ends_with_component(s: &str, c: &str) -> bool {
    &&& s.spec_bytes().len() >= c.spec_bytes().len()
    &&& s.spec_bytes().subrange(
        s.spec_bytes().len() - c.spec_bytes().len(),
        s.spec_bytes().len() as int,
    ) == c.spec_bytes()
    &&& (s.spec_bytes().len() == c.spec_bytes().len() || s.spec_bytes()[s.spec_bytes().len()
        - c.spec_bytes().len() - 1] == 47)
}

/// Whether the path `s` ends in the whole final component `c`, per
/// [`ends_with_component`]; 47 is the byte of the `/` separator.
pub fn str_ends_with_component(s: &str, c: &str) -> (r: bool)
    ensures
        r == ends_with_component(s, c),
{
    if !str_ends_with(s, c) {
        return false;
    }
    let n: usize = s.as_bytes().len();
    let m: usize = c.as_bytes().len();
    if n == m {
        return true;
    }
    let sb: &[u8] = s.as_bytes();
    sb[n - m - 1] == 47
}

/// The folder holding the test-support library: `tests/lib` under the
/// crate's own directory.  `current_dir` is the process working directory;
/// when its final path component is not already `crate_dir_name`, the
/// crate is reached through the workspace's `crates` folder first.
pub fn get_tests_lib_folder_path(current_dir: &str, crate_dir_name: &str) -> (r: String)
    ensures
        ends_with_component(current_dir, crate_dir_name) ==> r@ == current_dir@ + "/tests/lib"@,
        !ends_with_component(current_dir, crate_dir_name) ==> r@ == current_dir@ + "/crates/"@
            + crate_dir_name@ + "/tests/lib"@,
{
    let mut r = current_dir.to_owned();
    if !str_ends_with_component(current_dir, crate_dir_name) {
        r.append("/crates/");
        r.append(crate_dir_name);
    }
    r.append("/tests/lib");
    r
}

/// The full path of one file of the test-support library, resolved from
/// the process working directory as [`get_tests_lib_folder_path`] does.
pub fn get_tests_lib_file_path(current_dir: &str, crate_dir_name: &str, filename: &str) -> (r:
    String)
    ensures
        ends_with_component(current_dir, crate_dir_name) ==> r@ == current_dir@ + "/tests/lib"@
            + "/"@ + filename@,
        !ends_with_component(current_dir, crate_dir_name) ==> r@ == current_dir@ + "/crates/"@
            + crate_dir_name@ + "/tests/lib"@ + "/"@ + filename@,
{
    let folder = get_tests_lib_folder_path(current_dir, crate_dir_name);
    path_join(folder.as_str(), filename)
}

} // verus!
