//! The compiler-flag environment value that carries enabled features.

use vstd::prelude::*;
use crate::flags::string_views;

verus! {

/// One `--cfg feature="<name>" ` token group per feature, in order.
pub open spec fn feature_tokens(features: Seq<Seq<char>>) -> Seq<char>
    decreases features.len(),
{
    if features.len() == 0 {
        seq![]
    } else {
        feature_tokens(features.drop_last()) + "--cfg feature=\""@ + features.last() + "\" "@
    }
}

/// The text that a pre-existing value of the variable contributes: itself and
/// one separating space, or nothing when it is absent or empty.
pub open spec fn baseline(existing: Option<Seq<char>>) -> Seq<char> {
    match existing {
        Some(s) => if s.len() == 0 { seq![] } else { s + " "@ },
        None => seq![],
    }
}

pub open spec fn merged_flags(existing: Option<Seq<char>>, features: Seq<Seq<char>>) -> Seq<char> {
    baseline(existing) + feature_tokens(features)
}

pub open spec fn option_view(o: Option<String>) -> Option<Seq<char>> {
    match o {
        Some(s) => Some(s@),
        None => None,
    }
}

/// Append the feature flags to the variable's existing content, which is kept
/// as a prefix and never overwritten.
pub fn merge_feature_flags_with_rustflags_env_var(
    existing: Option<String>,
    feature_flags: &Vec<String>,
) -> (r: String)
    ensures
        r@ == merged_flags(option_view(existing), string_views(feature_flags@)),
{
    let mut output: String = match existing {
        Some(s) => s,
        None => String::new(),
    };
    if !output.as_str().is_empty() {
        output.append(" ");
    }
    let ghost base = output@;
    assert(base == baseline(option_view(existing)));
    let mut i: usize = 0;
    while i < feature_flags.len()
        invariant
            i <= feature_flags@.len(),
            output@ == base + feature_tokens(string_views(feature_flags@).subrange(0, i as int)),
        decreases feature_flags@.len() - i,
    {
        assert(string_views(feature_flags@).subrange(0, i + 1).drop_last()
            =~= string_views(feature_flags@).subrange(0, i as int));
        output.append("--cfg feature=\"");
        output.append(feature_flags[i].as_str());
        output.append("\" ");
        assert(output@ =~= base + feature_tokens(string_views(feature_flags@).subrange(0, i + 1)));
        i += 1;
    }
    assert(string_views(feature_flags@).subrange(0, feature_flags@.len() as int)
        =~= string_views(feature_flags@));
    output
}

/// Merging onto a non-empty existing value gives that value, one space, and
/// then exactly what merging onto nothing gives; an empty value counts as
/// nothing.
pub proof fn lemma_merge_baseline_prefix(existing: Seq<char>, features: Seq<Seq<char>>)
    ensures
        existing.len() > 0 ==> merged_flags(Some(existing), features)
            == existing + " "@ + merged_flags(None, features),
        existing.len() == 0 ==> merged_flags(Some(existing), features)
            == merged_flags(None, features),
{
    assert(merged_flags(None, features) =~= feature_tokens(features));
    if existing.len() > 0 {
        assert(merged_flags(Some(existing), features)
            =~= existing + " "@ + merged_flags(None, features));
    } else {
        assert(merged_flags(Some(existing), features) =~= merged_flags(None, features));
    }
}

} // verus!
