//! Build-time configuration of the application.

use vstd::prelude::*;
use vstd::string::StrSliceExecFns;

verus! {

/// The application identifier; development builds carry a `.Devel` suffix.
pub const APP_ID: &'static str = "de.swsnr.keepmeawake";

/// Whether `s` ends in `suffix`, character by character.
fn str_ends_with(s: &str, suffix: &str) -> (r: bool)
    ensures
        r == (s@.len() >= suffix@.len() && s@.skip(s@.len() - suffix@.len()) == suffix@),
{
    let n: usize = s.unicode_len();
    let m: usize = suffix.unicode_len();
    if n < m {
        return false;
    }
    let start: usize = n - m;
    let mut i: usize = 0;
    while i < m
        invariant
            m <= n,
            start == n - m,
            n == s@.len(),
            m == suffix@.len(),
            i <= m,
            forall|j: int| 0 <= j < i ==> s@[start + j] == suffix@[j],
        decreases m - i,
    {
        if s.get_char(start + i) != suffix.get_char(i) {
            assert(s@.skip(s@.len() - suffix@.len())[i as int] != suffix@[i as int]);
            return false;
        }
        i += 1;
    }
    proof {
        assert(s@.skip(s@.len() - suffix@.len()) =~= suffix@);
    }
    true
}

/// The locale directory: the flatpak location inside a flatpak sandbox,
/// the system location otherwise.  Whether the process runs in a flatpak
/// sandbox is read from the file system by the caller.
pub fn locale_directory(running_in_flatpak: bool) -> (r: &'static str)
    ensures
        running_in_flatpak ==> r@ == "/app/share/locale"@,
        !running_in_flatpak ==> r@ == "/usr/share/locale"@,
{
    if running_in_flatpak {
        "/app/share/locale"
    } else {
        "/usr/share/locale"
    }
}

/// Whether this is a development or nightly build.
pub fn is_development() -> (r: bool)
    ensures
        r == (APP_ID@.len() >= ".Devel"@.len()
            && APP_ID@.skip(APP_ID@.len() - ".Devel"@.len()) == ".Devel"@),
{
    str_ends_with(APP_ID, ".Devel")
}

} // verus!
