//! Wording of the license section from an SPDX-style identifier and the
//! license files present in the working directory.
use vstd::prelude::*;

verus! {

use vstd::string::StrSliceExecFns;
use vstd::string::StringExecFns;
use crate::text::contains_seq;
use crate::text::contains_substr;
use crate::text::eq_ignore_ascii_case_seq;
use crate::text::eq_ignore_ascii_case_str;
use crate::text::views_of;

/// The conventional license filenames found, in probe order. Each flag says
/// whether the file of that name exists.
pub open spec fn license_filenames_of(has_plain: bool, has_md: bool, has_txt: bool) -> Seq<
    Seq<char>,
> {
    (if has_plain {
        seq!["LICENSE"@]
    } else {
        Seq::<Seq<char>>::empty()
    }) + (if has_md {
        seq!["LICENSE.md"@]
    } else {
        Seq::<Seq<char>>::empty()
    }) + (if has_txt {
        seq!["LICENSE.txt"@]
    } else {
        Seq::<Seq<char>>::empty()
    })
}

/// The names of the general license files present, in the conventional probe
/// order. The caller reports which of `LICENSE`, `LICENSE.md` and
/// `LICENSE.txt` exist in the working directory.
pub fn read_general_license_filenames(has_plain: bool, has_md: bool, has_txt: bool) -> (r: Vec<
    String,
>)
    ensures
        views_of(r@) == license_filenames_of(has_plain, has_md, has_txt),
{
    let mut r: Vec<String> = Vec::new();
    if has_plain {
        r.push(String::from_str("LICENSE"));
    }
    if has_md {
        r.push(String::from_str("LICENSE.md"));
    }
    if has_txt {
        r.push(String::from_str("LICENSE.txt"));
    }
    proof {
        assert(views_of(r@) =~= license_filenames_of(has_plain, has_md, has_txt));
    }
    r
}

/// The prose for a license identifier: compound identifiers point at several
/// license files, an unlicensed marker gets a fixed sentence, and a plain
/// identifier links the single license file when exactly one is present.
pub open spec fn license_body_of(id: Seq<char>, files: Seq<Seq<char>>) -> Seq<char> {
    if contains_seq(id, " AND "@) {
        "The "@ + id + " Licenses. See the license files for details"@
    } else if contains_seq(id, " OR "@) {
        "The "@ + id + " License. See the license files for details"@
    } else if eq_ignore_ascii_case_seq(id, "UNLICENSED"@) {
        "This is unlicensed proprietary software."@
    } else if files.len() == 1 {
        "The "@ + id + " License. See the [license file]("@ + files[0] + ") for details."@
    } else {
        "The "@ + id + " License."@
    }
}

/// The body of the license section for `spdx_identifier`, given the license
/// files found in the working directory.
pub fn get_license_section_body(spdx_identifier: &str, license_files: &Vec<String>) -> (r: String)
    ensures
        r@ == license_body_of(spdx_identifier@, views_of(license_files@)),
{
    if contains_substr(spdx_identifier, " AND ") {
        let mut r = String::from_str("The ");
        r.append(spdx_identifier);
        r.append(" Licenses. See the license files for details");
        return r;
    }
    if contains_substr(spdx_identifier, " OR ") {
        let mut r = String::from_str("The ");
        r.append(spdx_identifier);
        r.append(" License. See the license files for details");
        return r;
    }
    if eq_ignore_ascii_case_str(spdx_identifier, "UNLICENSED") {
        return String::from_str("This is unlicensed proprietary software.");
    }
    if license_files.len() == 1 {
        let mut r = String::from_str("The ");
        r.append(spdx_identifier);
        r.append(" License. See the [license file](");
        r.append(license_files[0].as_str());
        r.append(") for details.");
        return r;
    }
    let mut r = String::from_str("The ");
    r.append(spdx_identifier);
    r.append(" License.");
    r
}

} // verus!
