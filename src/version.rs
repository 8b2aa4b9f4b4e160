use vstd::prelude::*;

verus! {

/// The release version of this build, in `major.minor.patch` form.
pub const APP_VERSION: &'static str = "0.1.0";

/// The characters of the release version that `app_version` reports.
pub open spec fn version_text() -> Seq<char> {
    seq!['0', '.', '1', '.', '0']
}

/// Whether every character of `s` is a decimal digit, and there is at least one.
pub open spec fn is_number(s: Seq<char>) -> bool {
    s.len() > 0 && forall|k: int| 0 <= k < s.len() ==> '0' <= #[trigger] s[k] <= '9'
}

/// Whether `s` is three numbers joined by dots: `major.minor.patch`.
pub open spec fn is_release_version(s: Seq<char>) -> bool {
    exists|i: int, j: int|
        0 < i < j < s.len() && s[i] == '.' && s[j] == '.' && is_number(#[trigger] s.subrange(0, i))
            && is_number(#[trigger] s.subrange(i + 1, j)) && is_number(#[trigger] s.subrange(j + 1, s.len() as int))
}

/// The version that `app_version` reports is a non-empty `major.minor.patch`.
pub proof fn lemma_version_well_formed()
    ensures
        version_text().len() > 0,
        is_release_version(version_text()),
{
    let s = version_text();
    let (i, j) = (1int, 3int);
    assert(s[i] == '.' && s[j] == '.');
    assert(is_number(s.subrange(0, i)));
    assert(is_number(s.subrange(i + 1, j)));
    assert(is_number(s.subrange(j + 1, s.len() as int)));
}

/// Returns the release version of the running build.
pub fn app_version() -> (r: String)
    ensures
        r@ == version_text(),
        r@.len() > 0,
        is_release_version(r@),
{
    proof {
        reveal_strlit("0.1.0");
        lemma_version_well_formed();
    }
    let r = APP_VERSION.to_owned();
    assert(r@ =~= version_text());
    r
}

} // verus!
