//! Normalization of the vendor, product-family and product-name strings
//! reported by firmware.
//!
//! The vendor alias table maps raw manufacturer spellings to canonical short
//! names; an alias applies when the trimmed raw vendor string contains the
//! alias's raw form as a substring, not only on exact equality. The family
//! exception table is keyed by canonical vendor name and corrects a few
//! family strings by exact match on the lowercased value.

use crate::strutil::has_substring;
use crate::strutil::lower_of;
use crate::strutil::lower_str;
use crate::strutil::str_contains;
use crate::strutil::str_eq;
use crate::strutil::trim_of;
use crate::strutil::trim_str;
use vstd::prelude::*;

verus! {

/// The canonical vendor name for an already trimmed raw vendor string:
/// the mapped short name when a vendor alias occurs inside the string,
/// otherwise the string lowercased.
pub open spec fn normalize_vendor(trimmed: Seq<char>) -> Seq<char> {
    if has_substring(trimmed, "Hewlett-Packard"@) {
        "hp"@
    } else if has_substring(trimmed, "Hewlett Packard"@) {
        "hp"@
    } else {
        lower_of(trimmed)
    }
}

/// The vendor adopted for a raw vendor file content: trim, then normalize.
pub open spec fn resolved_vendor(raw: Seq<char>) -> Seq<char> {
    normalize_vendor(trim_of(raw))
}

/// The corrected family for an already lowercased family string, given the
/// resolved vendor: the family exception table applies by exact match, and
/// only for vendors that have an entry.
pub open spec fn normalize_family(vendor: Seq<char>, family: Seq<char>) -> Seq<char> {
    if vendor == "framework"@ {
        if family == "13in laptop"@ {
            "13inch"@
        } else if family == "16in laptop"@ {
            "16inch"@
        } else {
            family
        }
    } else {
        family
    }
}

/// The family adopted for a raw family file content: trim, lowercase, then
/// apply the exception table for the resolved vendor.
pub open spec fn resolved_family(vendor: Seq<char>, raw: Seq<char>) -> Seq<char> {
    normalize_family(vendor, lower_of(trim_of(raw)))
}

/// The product name adopted for a raw product-name file content.
pub open spec fn resolved_product_name(raw: Seq<char>) -> Seq<char> {
    lower_of(trim_of(raw))
}

/// Trims the raw vendor string and resolves it against the alias table.
pub fn resolve_vendor(raw: &str) -> (vendor: String)
    ensures
        vendor@ == resolved_vendor(raw@),
{
    let trimmed = trim_str(raw);
    if str_contains(trimmed, "Hewlett-Packard") {
        "hp".to_owned()
    } else if str_contains(trimmed, "Hewlett Packard") {
        "hp".to_owned()
    } else {
        lower_str(trimmed)
    }
}

/// Trims and lowercases the raw family string, then applies the family
/// exception table for the given resolved vendor.
pub fn resolve_product_family(vendor: &str, raw: &str) -> (family: String)
    ensures
        family@ == resolved_family(vendor@, raw@),
{
    let lowered = lower_str(trim_str(raw));
    if str_eq(vendor, "framework") {
        if str_eq(lowered.as_str(), "13in laptop") {
            return "13inch".to_owned();
        }
        if str_eq(lowered.as_str(), "16in laptop") {
            return "16inch".to_owned();
        }
    }
    lowered
}

/// Trims and lowercases the raw product-name string.
pub fn resolve_product_name(raw: &str) -> (name: String)
    ensures
        name@ == resolved_product_name(raw@),
{
    lower_str(trim_str(raw))
}

/// Law: a trimmed vendor string that contains either configured raw alias
/// form resolves to the canonical vendor name `hp`.
pub proof fn lemma_vendor_alias_canonical(trimmed: Seq<char>)
    requires
        has_substring(trimmed, "Hewlett-Packard"@) || has_substring(trimmed, "Hewlett Packard"@),
    ensures
        normalize_vendor(trimmed) == "hp"@,
{
}

/// Law: for the vendor `framework`, the family `13in laptop` is corrected to
/// `13inch`, the family `16in laptop` is corrected to `16inch`, and every
/// other lowercased family string passes through unchanged.
pub proof fn lemma_framework_family_exceptions(family: Seq<char>)
    ensures
        normalize_family("framework"@, "13in laptop"@) == "13inch"@,
        normalize_family("framework"@, "16in laptop"@) == "16inch"@,
        family != "13in laptop"@ && family != "16in laptop"@ ==> normalize_family(
            "framework"@,
            family,
        ) == family,
{
    reveal_strlit("13in laptop");
    reveal_strlit("16in laptop");
    assert("13in laptop"@[1] == '3');
    assert("16in laptop"@[1] == '6');
}

/// Law: a vendor with no entry in the family exception table leaves every
/// lowercased family string unchanged.
pub proof fn lemma_family_passthrough(vendor: Seq<char>, family: Seq<char>)
    requires
        vendor != "framework"@,
    ensures
        normalize_family(vendor, family) == family,
{
}

} // verus!
