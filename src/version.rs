use vstd::prelude::*;

verus! {

/// The package version this build declares.
pub const APP_VERSION: &'static str = "0.1.0";

/// True when `c` is an ASCII decimal digit.
pub open spec fn is_digit(c: char) -> bool {
    '0' <= c && c <= '9'
}

/// True when `s` is a non-empty run of decimal digits.
pub open spec fn is_numeric_identifier(s: Seq<char>) -> bool {
    s.len() > 0 && forall|i: int| 0 <= i < s.len() ==> #[trigger] is_digit(s[i])
}

/// True when `s` reads `MAJOR.MINOR.PATCH`, each part a run of digits.
pub open spec fn is_release_version(s: Seq<char>) -> bool {
    exists|i: int, j: int|
        #![trigger s[i], s[j]]
        0 < i && i + 1 < j && j + 1 < s.len() && s[i] == '.' && s[j] == '.'
            && is_numeric_identifier(s.subrange(0, i))
            && is_numeric_identifier(s.subrange(i + 1, j))
            && is_numeric_identifier(s.subrange(j + 1, s.len() as int))
}

/// The version string of this build.
///
/// It never fails, touches no state, and every call returns the same
/// non-empty `MAJOR.MINOR.PATCH` string.
pub fn get_app_version() -> (r: String)
    ensures
        r@ == APP_VERSION@,
        r@.len() > 0,
        is_release_version(r@),
{
    let r = String::from_str(APP_VERSION);
    proof {
        reveal_strlit("0.1.0");
        let s = r@;
        assert(is_numeric_identifier(s.subrange(0, 1)));
        assert(is_numeric_identifier(s.subrange(2, 3)));
        assert(is_numeric_identifier(s.subrange(4, 5)));
        assert(s[1] == '.' && s[3] == '.');
    }
    r
}

} // verus!
