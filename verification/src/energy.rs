//! Energy classification: an explicit override is parsed case-insensitively;
//! otherwise the level is inferred from the content text. Short content or a
//! quick-keyword gives Quick (checked first), long content or a deep-work
//! keyword gives Deep, anything else Medium.
use vstd::prelude::*;
use crate::text::{chars_eq, chars_of, contains_chars, lower_chars, spec_contains, spec_lower};
use crate::types::{Atom, EnergyLevel};

verus! {

/// Parse an explicit energy override: "quick" and "deep" (in any case) map
/// to their levels, anything else to Medium.
pub open spec fn spec_parse_energy(s: Seq<char>) -> EnergyLevel {
    if spec_lower(s) == "quick"@ {
        EnergyLevel::Quick
    } else if spec_lower(s) == "deep"@ {
        EnergyLevel::Deep
    } else {
        EnergyLevel::Medium
    }
}

/// Infer an energy level from content: Quick for short content (under 50
/// characters) or a quick-keyword; else Deep for long content (over 200
/// characters) or a deep-work keyword; else Medium. The Quick check wins
/// when both would apply.
pub open spec fn spec_infer_energy(content: Seq<char>) -> EnergyLevel {
    let l = spec_lower(content);
    if content.len() < 50 || spec_contains(l, "quick"@) || spec_contains(l, "5 min"@)
        || spec_contains(l, "brief"@) {
        EnergyLevel::Quick
    } else if content.len() > 200 || spec_contains(l, "research"@) || spec_contains(l, "write"@)
        || spec_contains(l, "design"@) || spec_contains(l, "plan"@) || spec_contains(
        l,
        "review all"@,
    ) {
        EnergyLevel::Deep
    } else {
        EnergyLevel::Medium
    }
}

/// The energy level of `a`: the explicit override when present, else
/// inference from the content.
pub open spec fn spec_energy(a: Atom) -> EnergyLevel {
    match a.energy {
        Some(e) => spec_parse_energy(e@),
        None => spec_infer_energy(a.content@),
    }
}

/// Parse an explicit energy override.
pub fn parse_energy(s: &String) -> (e: EnergyLevel)
    ensures
        e == spec_parse_energy(s@),
{
    let l = lower_chars(s.as_str());
    let quick = chars_of("quick");
    let deep = chars_of("deep");
    if chars_eq(&l, &quick) {
        EnergyLevel::Quick
    } else if chars_eq(&l, &deep) {
        EnergyLevel::Deep
    } else {
        EnergyLevel::Medium
    }
}

/// Infer an energy level from content.
pub fn infer_energy(content: &String) -> (e: EnergyLevel)
    ensures
        e == spec_infer_energy(content@),
{
    let n = content.as_str().unicode_len();
    let l = lower_chars(content.as_str());
    let kw_quick = chars_of("quick");
    let kw_5min = chars_of("5 min");
    let kw_brief = chars_of("brief");
    if n < 50 || contains_chars(&l, &kw_quick) || contains_chars(&l, &kw_5min) || contains_chars(
        &l,
        &kw_brief,
    ) {
        return EnergyLevel::Quick;
    }
    let kw_research = chars_of("research");
    let kw_write = chars_of("write");
    let kw_design = chars_of("design");
    let kw_plan = chars_of("plan");
    let kw_review_all = chars_of("review all");
    if n > 200 || contains_chars(&l, &kw_research) || contains_chars(&l, &kw_write)
        || contains_chars(&l, &kw_design) || contains_chars(&l, &kw_plan) || contains_chars(
        &l,
        &kw_review_all,
    ) {
        return EnergyLevel::Deep;
    }
    EnergyLevel::Medium
}

/// The energy level of `a`.
pub fn energy_of(a: &Atom) -> (e: EnergyLevel)
    ensures
        e == spec_energy(*a),
{
    match &a.energy {
        Some(s) => parse_energy(s),
        None => infer_energy(&a.content),
    }
}

} // verus!
