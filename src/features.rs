//! Reconstruction of the features enabled on the package being built, from
//! the mangled names that the build environment surfaces.

use vstd::prelude::*;
use vstd::string::*;
use crate::text::{mangle, mangle_name, has_at, same_text};

verus! {

/// The characters of each string, in order.
pub open spec fn views(v: Seq<String>) -> Seq<Seq<char>> {
    v.map_values(|s: String| s@)
}

/// Whether one of the tokens reads `m`.
pub open spec fn has_token(tokens: Seq<String>, m: Seq<char>) -> bool {
    exists|i: int| 0 <= i < tokens.len() && tokens[i]@ == m
}

/// A declared feature counts as enabled when its mangled name is among the tokens.
pub open spec fn enabled_pred(tokens: Seq<String>) -> spec_fn(String) -> bool {
    |c: String| has_token(tokens, mangle(c@))
}

/// The declared features whose mangled name is among the tokens, in declaration order.
pub open spec fn enabled_in(declared: Seq<String>, tokens: Seq<String>) -> Seq<String> {
    declared.filter(enabled_pred(tokens))
}

/// The name of the feature that the build environment adds on its own.
pub open spec fn default_name() -> Seq<char> {
    "default"@
}

/// Every feature but `default`.
pub open spec fn not_default() -> spec_fn(String) -> bool {
    |c: String| c@ != default_name()
}

/// The enabled features that are handed to the resolver by name.
pub open spec fn selected_in(declared: Seq<String>, tokens: Seq<String>) -> Seq<String> {
    enabled_in(declared, tokens).filter(not_default())
}

/// Whether the resolver must be told not to enable the default features.
pub open spec fn disables_defaults(tokens: Seq<String>) -> bool {
    !has_token(tokens, mangle(default_name()))
}

/// Whether some token equals `m`.
pub fn contains_token(tokens: &Vec<String>, m: &String) -> (r: bool)
    ensures
        r == has_token(tokens@, m@),
{
    let mut j: usize = 0;
    while j < tokens.len()
        invariant
            j <= tokens@.len(),
            forall|k: int| 0 <= k < j ==> tokens@[k]@ != m@,
        decreases tokens.len() - j,
    {
        if tokens[j] == *m {
            return true;
        }
        j = j + 1;
    }
    false
}

/// The declared features of the root package that the tokens show to be enabled.
///
/// A feature is enabled exactly when its mangled form (upper case, `-` as `_`)
/// is one of the tokens. Two features with the same mangled form are enabled together.
pub fn enabled_features(declared: &Vec<String>, tokens: &Vec<String>) -> (r: Vec<String>)
    ensures
        r@ == enabled_in(declared@, tokens@),
{
    let mut out: Vec<String> = Vec::new();
    let mut i: usize = 0;
    while i < declared.len()
        invariant
            i <= declared@.len(),
            out@ == enabled_in(declared@.subrange(0, i as int), tokens@),
        decreases declared.len() - i,
    {
        let m = mangle_name(declared[i].as_str());
        let hit = contains_token(tokens, &m);
        proof {
            reveal(Seq::filter);
            assert(declared@.subrange(0, i + 1).drop_last() =~= declared@.subrange(0, i as int));
        }
        if hit {
            out.push(declared[i].clone());
        }
        i = i + 1;
    }
    assert(declared@.subrange(0, declared@.len() as int) =~= declared@);
    out
}

/// The features to request from the resolver, and whether to switch its default features off.
pub struct FeatureSelection {
    pub features: Vec<String>,
    pub no_default_features: bool,
}

/// Splits the enabled features into those named to the resolver and the
/// `default` switch: `default` itself is never named, and the default
/// features are switched off exactly when the mangled `default` is not a token.
pub fn select_features(declared: &Vec<String>, tokens: &Vec<String>) -> (r: FeatureSelection)
    ensures
        r.features@ == selected_in(declared@, tokens@),
        r.no_default_features == disables_defaults(tokens@),
{
    let enabled = enabled_features(declared, tokens);
    let mut out: Vec<String> = Vec::new();
    let mut i: usize = 0;
    while i < enabled.len()
        invariant
            i <= enabled@.len(),
            out@ == enabled@.subrange(0, i as int).filter(not_default()),
        decreases enabled.len() - i,
    {
        let keep = !same_text(enabled[i].as_str(), "default");
        proof {
            reveal(Seq::filter);
            assert(enabled@.subrange(0, i + 1).drop_last() =~= enabled@.subrange(0, i as int));
        }
        if keep {
            out.push(enabled[i].clone());
        }
        i = i + 1;
    }
    assert(enabled@.subrange(0, enabled@.len() as int) =~= enabled@);
    let default_token = mangle_name("default");
    let has_default = contains_token(tokens, &default_token);
    FeatureSelection { features: out, no_default_features: !has_default }
}

/// The prefix of the environment variables that name enabled features.
pub open spec fn feature_var_prefix() -> Seq<char> {
    "CARGO_FEATURE_"@
}

/// Whether `s` begins with the feature variable prefix.
pub open spec fn starts_with_prefix(s: Seq<char>) -> bool {
    s.len() >= feature_var_prefix().len() && s.subrange(0, feature_var_prefix().len() as int)
        == feature_var_prefix()
}

/// Whether an environment variable names an enabled feature: the prefix, then at least one more character.
pub open spec fn is_feature_var(name: Seq<char>) -> bool {
    name.len() > feature_var_prefix().len() && starts_with_prefix(name)
}

/// The tokens named by a list of environment variable names, in order.
pub open spec fn tokens_of(names: Seq<String>) -> Seq<Seq<char>>
    decreases names.len(),
{
    if names.len() == 0 {
        Seq::empty()
    } else {
        let rest = tokens_of(names.drop_last());
        if is_feature_var(names.last()@) {
            rest.push(names.last()@.subrange(feature_var_prefix().len() as int, names.last()@.len() as int))
        } else {
            rest
        }
    }
}

/// The feature tokens among the names of the environment variables: each name
/// that is the prefix `CARGO_FEATURE_` followed by at least one character
/// gives one token: the rest of the name after that prefix.
pub fn feature_tokens(var_names: &Vec<String>) -> (r: Vec<String>)
    ensures
        views(r@) == tokens_of(var_names@),
{
    let prefix = "CARGO_FEATURE_";
    proof {
        reveal_strlit("CARGO_FEATURE_");
    }
    let mut out: Vec<String> = Vec::new();
    let mut i: usize = 0;
    while i < var_names.len()
        invariant
            i <= var_names@.len(),
            prefix@ == feature_var_prefix(),
            views(out@) == tokens_of(var_names@.subrange(0, i as int)),
        decreases var_names.len() - i,
    {
        let name = var_names[i].as_str();
        let is_var = name.unicode_len() > prefix.unicode_len() && has_at(name, 0, prefix);
        let ghost before = out@;
        proof {
            let pre = var_names@.subrange(0, i + 1);
            assert(pre.drop_last() =~= var_names@.subrange(0, i as int));
            assert(pre.last() == var_names@[i as int]);
            assert(is_var == is_feature_var(name@));
        }
        if is_var {
            let t = name.substring_char(prefix.unicode_len(), name.unicode_len()).to_owned();
            out.push(t);
            assert(views(out@) =~= views(before).push(t@));
        }
        i = i + 1;
    }
    assert(var_names@.subrange(0, var_names@.len() as int) =~= var_names@);
    out
}

/// A feature is reconstructed as enabled exactly when it is declared and its
/// mangled form is one of the tokens; apart from `default`, the same holds of
/// the features handed to the resolver.
pub proof fn lemma_enabled_iff_token(declared: Seq<String>, tokens: Seq<String>, c: String)
    ensures
        enabled_in(declared, tokens).contains(c) <==> (declared.contains(c) && has_token(
            tokens,
            mangle(c@),
        )),
        c@ != default_name() ==> (selected_in(declared, tokens).contains(c) <==> (
        declared.contains(c) && has_token(tokens, mangle(c@)))),
{
    broadcast use Seq::lemma_filter_contains_rev, Seq::lemma_filter_pred, Seq::lemma_filter_contains;

    let e = enabled_in(declared, tokens);
    if e.contains(c) {
        let i = choose|i: int| 0 <= i < e.len() && e[i] == c;
        assert(enabled_pred(tokens)(e[i]));
    }
    if declared.contains(c) && has_token(tokens, mangle(c@)) {
        let i = choose|i: int| 0 <= i < declared.len() && declared[i] == c;
        assert(e.contains(declared[i]));
    }
    if c@ != default_name() {
        let f = selected_in(declared, tokens);
        if f.contains(c) {
            assert(e.contains(c));
        }
        if e.contains(c) {
            let i = choose|i: int| 0 <= i < e.len() && e[i] == c;
            assert(f.contains(e[i]));
        }
    }
}

/// `default` is never handed to the resolver by name, and the default
/// features are switched off exactly when no token reads `DEFAULT`.
pub proof fn lemma_default_handling(declared: Seq<String>, tokens: Seq<String>, c: String)
    ensures
        c@ == default_name() ==> !selected_in(declared, tokens).contains(c),
        disables_defaults(tokens) <==> !has_token(tokens, "DEFAULT"@),
{
    broadcast use Seq::lemma_filter_pred;

    let f = selected_in(declared, tokens);
    if f.contains(c) {
        let i = choose|i: int| 0 <= i < f.len() && f[i] == c;
        assert(not_default()(f[i]));
    }
    reveal_strlit("default");
    reveal_strlit("DEFAULT");
    assert(mangle(default_name()) =~= "DEFAULT"@);
}

/// Two declared features with the same mangled form are reconstructed
/// together: when that form is a token, both are enabled.
pub proof fn lemma_collision_enables_both(
    declared: Seq<String>,
    tokens: Seq<String>,
    a: String,
    b: String,
)
    requires
        declared.contains(a),
        declared.contains(b),
        mangle(a@) == mangle(b@),
        has_token(tokens, mangle(a@)) || has_token(tokens, mangle(b@)),
    ensures
        enabled_in(declared, tokens).contains(a),
        enabled_in(declared, tokens).contains(b),
{
    lemma_enabled_iff_token(declared, tokens, a);
    lemma_enabled_iff_token(declared, tokens, b);
}

} // verus!
