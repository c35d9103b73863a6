use crate::cstr::NulTerminated;
use crate::kinds::GlslProfile;
use crate::options::{c_compatible, c_text};
use crate::raw::{int_to_u32, unsigned_of};
use vstd::prelude::*;
use vstd::string::*;

verus! {

/// The version and the revision of SPIR-V that the native library makes,
/// from the two C `int`s in which it reports them.
///
/// The version is a word of four bytes, highest first: zero, the major
/// number, the minor number, zero. Version 1.0 is `0x0001_0000`.
pub fn get_spirv_version(version: i32, revision: i32) -> (pair: (u32, u32))
    ensures
        pair.0 == unsigned_of(version as int),
        pair.1 == unsigned_of(revision as int),
{
    (int_to_u32(version), int_to_u32(revision))
}

/// The text to hand to the parser of the native library for a version and
/// profile such as `450core`. It may not hold a zero byte.
pub fn version_profile_text(string: &str) -> (text: NulTerminated)
    requires
        c_compatible(string),
    ensures
        text@ == string.spec_bytes(),
{
    c_text(string)
}

/// What the answer of the native parser comes to.
pub open spec fn parsed_version_profile(parsed: bool, version: int, profile: int) -> Option<
    (int, GlslProfile),
> {
    if parsed {
        Some((unsigned_of(version), GlslProfile::spec_from_raw(profile)->0))
    } else {
        None
    }
}

/// Reads the answer of the parser of the native library: whether it could
/// parse the text and, if so, the version and the number of the profile.
///
/// Where the text was parsed, the number is that of a profile.
pub fn parse_version_profile(parsed: bool, version: i32, profile: i32) -> (found: Option<
    (u32, GlslProfile),
>)
    requires
        parsed ==> 0 <= profile <= 3,
    ensures
        found is Some <==> parsed,
        found matches Some(pair) ==> parsed_version_profile(parsed, version as int, profile as int)
            == Some((pair.0 as int, pair.1)),
{
    if !parsed {
        None
    } else {
        match GlslProfile::from_raw(profile) {
            Some(p) => Some((int_to_u32(version), p)),
            None => None,
        }
    }
}

} // verus!
