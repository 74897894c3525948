//! Conditional rule evaluation: each rule matches the platform and feature
//! context or not, and an ordered rule list aggregates to one verdict where
//! a later rule always overrides an earlier one.

use vstd::prelude::*;
use crate::error::{
    entry, field, prefix1, schema1, schema2, schema_at, spec_prefix_schema, Error, ErrorV,
    PointerPart, PointerPartV,
};
use crate::installer::Installer;
use crate::json::{obj_get, spec_get, spec_get_entries, Json};
use crate::strutil::str_eq;

verus! {

/// Outcome of one rule: matched with an action, or not applicable.
#[derive(Debug, Clone, Copy, PartialEq, Eq, Structural)]
pub enum RuleAction {
    /// The rule's condition did not match; it is ignored.
    Ignore,
    /// The rule matched and allows.
    Allow,
    /// The rule matched and disallows.
    Disallow,
}

/// Value of a feature flag in the context; a missing feature counts as off.
pub open spec fn spec_feature_enabled(features: Seq<(String, bool)>, name: Seq<char>) -> bool
    decreases features.len(),
{
    if features.len() == 0 {
        false
    } else if features[0].0@ == name {
        features[0].1
    } else {
        spec_feature_enabled(features.skip(1), name)
    }
}

/// Verdict of the `os` condition object: `Ok(true)` when every present
/// field matches the platform, an error for a malformed field, and a
/// not-supported error when a `version` pattern is present.
pub open spec fn spec_rule_os(fields: Seq<(String, Json)>, inst: Installer) -> Result<
    bool,
    ErrorV,
> {
    match spec_get_entries(fields, "name"@) {
        None => spec_rule_os_arch(fields, inst, true),
        Some(Json::Str(name)) => spec_rule_os_arch(fields, inst, name@ == inst.meta_os_name@),
        Some(_) => Err(schema_at(seq![PointerPartV::Field("name"@)], "string"@)),
    }
}

pub open spec fn spec_rule_os_arch(
    fields: Seq<(String, Json)>,
    inst: Installer,
    valid: bool,
) -> Result<bool, ErrorV> {
    match spec_get_entries(fields, "arch"@) {
        None => spec_rule_os_version(fields, valid),
        Some(Json::Str(arch)) => spec_rule_os_version(
            fields,
            valid && arch@ == inst.meta_os_arch@,
        ),
        Some(_) => Err(schema_at(seq![PointerPartV::Field("arch"@)], "string"@)),
    }
}

pub open spec fn spec_rule_os_version(fields: Seq<(String, Json)>, valid: bool) -> Result<
    bool,
    ErrorV,
> {
    match spec_get_entries(fields, "version"@) {
        None => Ok(valid),
        Some(Json::Str(_)) => Err(
            ErrorV::NotSupported { operation: "os version rule matching"@ },
        ),
        Some(_) => Err(
            schema_at(seq![PointerPartV::Field("version"@)], "string (version pattern)"@),
        ),
    }
}

/// Verdict of a rule's `features` condition entries, in declaration order:
/// every entry must be a boolean and must equal the context's value.
pub open spec fn spec_rule_features(
    entries: Seq<(String, Json)>,
    features: Seq<(String, bool)>,
    valid: bool,
) -> Result<bool, ErrorV>
    decreases entries.len(),
{
    if entries.len() == 0 {
        Ok(valid)
    } else {
        match entries[0].1 {
            Json::Bool(expected) => spec_rule_features(
                entries.skip(1),
                features,
                valid && (spec_feature_enabled(features, entries[0].0@) == expected),
            ),
            _ => Err(
                schema_at(
                    seq![PointerPartV::Field("features"@), PointerPartV::Field(entries[0].0@)],
                    "bool"@,
                ),
            ),
        }
    }
}

/// The `os` part of one rule.
pub open spec fn spec_rule_os_part(fields: Seq<(String, Json)>, inst: Installer) -> Result<
    bool,
    ErrorV,
> {
    match spec_get_entries(fields, "os"@) {
        None => Ok(true),
        Some(Json::Obj(os_fields)) => match spec_rule_os(os_fields@, inst) {
            Ok(b) => Ok(b),
            Err(e) => Err(spec_prefix_schema(seq![PointerPartV::Field("os"@)], e)),
        },
        Some(_) => Err(schema_at(seq![PointerPartV::Field("os"@)], "object"@)),
    }
}

/// Whether one rule's whole condition matches.
pub open spec fn spec_rule_valid(
    fields: Seq<(String, Json)>,
    inst: Installer,
    features: Seq<(String, bool)>,
) -> Result<bool, ErrorV> {
    match spec_rule_os_part(fields, inst) {
        Err(e) => Err(e),
        Ok(valid) => match spec_get_entries(fields, "features"@) {
            None => Ok(valid),
            Some(Json::Obj(entries)) => spec_rule_features(entries@, features, valid),
            Some(_) => Err(schema_at(seq![PointerPartV::Field("features"@)], "object"@)),
        },
    }
}

/// The action a matched rule takes; a malformed or missing action is an
/// error whether or not the condition matched.
pub open spec fn spec_rule_action(fields: Seq<(String, Json)>, valid: bool) -> Result<
    RuleAction,
    ErrorV,
> {
    match spec_get_entries(fields, "action"@) {
        Some(Json::Str(a)) => if a@ == "allow"@ {
            Ok(if valid { RuleAction::Allow } else { RuleAction::Ignore })
        } else if a@ == "disallow"@ {
            Ok(if valid { RuleAction::Disallow } else { RuleAction::Ignore })
        } else {
            Err(
                schema_at(
                    seq![PointerPartV::Field("action"@)],
                    "string ('allow', 'disallow')"@,
                ),
            )
        },
        _ => Err(
            schema_at(seq![PointerPartV::Field("action"@)], "string ('allow', 'disallow')"@),
        ),
    }
}

/// Outcome of one whole rule object.
pub open spec fn spec_rule_fields(
    fields: Seq<(String, Json)>,
    inst: Installer,
    features: Seq<(String, bool)>,
) -> Result<RuleAction, ErrorV> {
    match spec_rule_valid(fields, inst, features) {
        Err(e) => Err(e),
        Ok(valid) => spec_rule_action(fields, valid),
    }
}

/// Outcome of rule `i` of a list, before index prefixing.
pub open spec fn spec_rule_of(
    rules: Seq<Json>,
    i: int,
    inst: Installer,
    features: Seq<(String, bool)>,
) -> Result<RuleAction, ErrorV> {
    match rules[i] {
        Json::Obj(fields) => spec_rule_fields(fields@, inst, features),
        _ => Err(schema_at(Seq::empty(), "object"@)),
    }
}

/// Aggregated verdict of the rules from index `i` on, starting from the
/// accumulated verdict `allowed`: an allow sets it, a disallow clears it,
/// an ignored rule leaves it.
pub open spec fn spec_rules_from(
    rules: Seq<Json>,
    i: int,
    allowed: bool,
    inst: Installer,
    features: Seq<(String, bool)>,
) -> Result<bool, ErrorV>
    decreases rules.len() - i when 0 <= i
{
    if i >= rules.len() {
        Ok(allowed)
    } else {
        match rules[i] {
            Json::Obj(fields) => match spec_rule_fields(fields@, inst, features) {
                Err(e) => Err(spec_prefix_schema(seq![PointerPartV::Entry(i)], e)),
                Ok(action) => spec_rules_from(
                    rules,
                    i + 1,
                    match action {
                        RuleAction::Allow => true,
                        RuleAction::Disallow => false,
                        RuleAction::Ignore => allowed,
                    },
                    inst,
                    features,
                ),
            },
            _ => Err(schema_at(seq![PointerPartV::Entry(i)], "object"@)),
        }
    }
}

/// Verdict of a whole ordered rule list, initially disallowed.
pub open spec fn spec_rules(
    rules: Seq<Json>,
    inst: Installer,
    features: Seq<(String, bool)>,
) -> Result<bool, ErrorV> {
    spec_rules_from(rules, 0, false, inst, features)
}

proof fn lemma_rules_from_all_ignored(
    rules: Seq<Json>,
    i: int,
    allowed: bool,
    inst: Installer,
    features: Seq<(String, bool)>,
)
    requires
        0 <= i <= rules.len(),
        forall|j: int|
            i <= j < rules.len() ==> (#[trigger] spec_rule_of(rules, j, inst, features)) == Ok::<
                RuleAction,
                ErrorV,
            >(RuleAction::Ignore),
    ensures
        spec_rules_from(rules, i, allowed, inst, features) == Ok::<bool, ErrorV>(allowed),
    decreases rules.len() - i,
{
    if i < rules.len() {
        assert(spec_rule_of(rules, i, inst, features) == Ok::<RuleAction, ErrorV>(
            RuleAction::Ignore,
        ));
        lemma_rules_from_all_ignored(rules, i + 1, allowed, inst, features);
    }
}

proof fn lemma_rules_from_decided(
    rules: Seq<Json>,
    i: int,
    allowed: bool,
    k: int,
    inst: Installer,
    features: Seq<(String, bool)>,
)
    requires
        0 <= i <= k < rules.len(),
        forall|j: int|
            0 <= j < rules.len() ==> (#[trigger] spec_rule_of(rules, j, inst, features)) is Ok,
        spec_rule_of(rules, k, inst, features) != Ok::<RuleAction, ErrorV>(RuleAction::Ignore),
        forall|j: int|
            k < j < rules.len() ==> (#[trigger] spec_rule_of(rules, j, inst, features)) == Ok::<
                RuleAction,
                ErrorV,
            >(RuleAction::Ignore),
    ensures
        spec_rules_from(rules, i, allowed, inst, features) == Ok::<bool, ErrorV>(
            spec_rule_of(rules, k, inst, features) == Ok::<RuleAction, ErrorV>(RuleAction::Allow),
        ),
    decreases k - i,
{
    assert(spec_rule_of(rules, i, inst, features) is Ok);
    if i == k {
        let action = match spec_rule_of(rules, k, inst, features) {
            Ok(a) => a,
            Err(_) => RuleAction::Ignore,
        };
        let next = if action is Allow {
            true
        } else {
            false
        };
        lemma_rules_from_all_ignored(rules, k + 1, next, inst, features);
    } else {
        let action = match spec_rule_of(rules, i, inst, features) {
            Ok(a) => a,
            Err(_) => RuleAction::Ignore,
        };
        let next = match action {
            RuleAction::Allow => true,
            RuleAction::Disallow => false,
            RuleAction::Ignore => allowed,
        };
        lemma_rules_from_decided(rules, i + 1, next, k, inst, features);
    }
}

/// Law: in an ordered rule list whose rules all evaluate without error, the
/// verdict is decided by the last rule whose condition matched — a later
/// allow or disallow always overrides everything before it, and the rules
/// after it that do not match change nothing.
pub proof fn lemma_later_rule_overrides(
    rules: Seq<Json>,
    k: int,
    inst: Installer,
    features: Seq<(String, bool)>,
)
    requires
        0 <= k < rules.len(),
        forall|j: int|
            0 <= j < rules.len() ==> (#[trigger] spec_rule_of(rules, j, inst, features)) is Ok,
        spec_rule_of(rules, k, inst, features) != Ok::<RuleAction, ErrorV>(RuleAction::Ignore),
        forall|j: int|
            k < j < rules.len() ==> (#[trigger] spec_rule_of(rules, j, inst, features)) == Ok::<
                RuleAction,
                ErrorV,
            >(RuleAction::Ignore),
    ensures
        spec_rules(rules, inst, features) == Ok::<bool, ErrorV>(
            spec_rule_of(rules, k, inst, features) == Ok::<RuleAction, ErrorV>(RuleAction::Allow),
        ),
{
    lemma_rules_from_decided(rules, 0, false, k, inst, features);
}

/// Look a feature flag up in the context; missing features are off.
pub fn feature_enabled(features: &Vec<(String, bool)>, name: &str) -> (r: bool)
    ensures
        r == spec_feature_enabled(features@, name@),
{
    let n = features.len();
    let mut idx: usize = 0;
    proof {
        assert(features@.skip(0) =~= features@);
    }
    while idx < n
        invariant
            n == features@.len(),
            idx <= n,
            spec_feature_enabled(features@.skip(idx as int), name@) == spec_feature_enabled(
                features@,
                name@,
            ),
        decreases n - idx,
    {
        if str_eq(features[idx].0.as_str(), name) {
            proof {
                assert(features@.skip(idx as int)[0] == features@[idx as int]);
            }
            return features[idx].1;
        }
        proof {
            assert(features@.skip(idx as int).skip(1) =~= features@.skip(idx as int + 1));
        }
        idx += 1;
    }
    false
}

/// Check a rule's `features` condition entries against the context.
fn rule_features_check(
    entries: &Vec<(String, Json)>,
    features: &Vec<(String, bool)>,
    valid0: bool,
) -> (r: Result<bool, Error>)
    ensures
        match r {
            Ok(b) => spec_rule_features(entries@, features@, valid0) == Ok::<bool, ErrorV>(b),
            Err(e) => spec_rule_features(entries@, features@, valid0) == Err::<bool, ErrorV>(e@),
        },
{
    let n = entries.len();
    let mut idx: usize = 0;
    let mut valid = valid0;
    proof {
        assert(entries@.skip(0) =~= entries@);
    }
    while idx < n
        invariant
            n == entries@.len(),
            idx <= n,
            spec_rule_features(entries@.skip(idx as int), features@, valid) == spec_rule_features(
                entries@,
                features@,
                valid0,
            ),
        decreases n - idx,
    {
        proof {
            assert(entries@.skip(idx as int)[0] == entries@[idx as int]);
        }
        match &entries[idx].1 {
            Json::Bool(expected) => {
                let enabled = feature_enabled(features, entries[idx].0.as_str());
                valid = valid && (enabled == *expected);
            },
            _ => {
                return Err(
                    schema2(
                        field("features"),
                        PointerPart::Field(entries[idx].0.clone()),
                        "bool",
                    ),
                );
            },
        }
        proof {
            assert(entries@.skip(idx as int).skip(1) =~= entries@.skip(idx as int + 1));
        }
        idx += 1;
    }
    Ok(valid)
}

/// Evaluate the `os` condition object of one rule.
pub fn resolve_rule_os(os_fields: &Vec<(String, Json)>, inst: &Installer) -> (r: Result<
    bool,
    Error,
>)
    ensures
        match r {
            Ok(b) => spec_rule_os(os_fields@, *inst) == Ok::<bool, ErrorV>(b),
            Err(e) => spec_rule_os(os_fields@, *inst) == Err::<bool, ErrorV>(e@),
        },
{
    let mut valid = true;
    match obj_get(os_fields, "name") {
        None => {},
        Some(Json::Str(name)) => {
            if !str_eq(name.as_str(), inst.meta_os_name.as_str()) {
                valid = false;
            }
        },
        Some(_) => {
            return Err(schema1(field("name"), "string"));
        },
    }
    match obj_get(os_fields, "arch") {
        None => {},
        Some(Json::Str(arch)) => {
            if !str_eq(arch.as_str(), inst.meta_os_arch.as_str()) {
                valid = false;
            }
        },
        Some(_) => {
            return Err(schema1(field("arch"), "string"));
        },
    }
    match obj_get(os_fields, "version") {
        None => {},
        Some(Json::Str(_)) => {
            return Err(
                Error::NotSupported { operation: "os version rule matching".to_owned() },
            );
        },
        Some(_) => {
            return Err(schema1(field("version"), "string (version pattern)"));
        },
    }
    Ok(valid)
}

/// Evaluate one rule object: whether its condition matches and which action
/// it then takes.
pub fn resolve_rule(
    rule_fields: &Vec<(String, Json)>,
    inst: &Installer,
    features: &Vec<(String, bool)>,
) -> (r: Result<RuleAction, Error>)
    ensures
        match r {
            Ok(a) => spec_rule_fields(rule_fields@, *inst, features@) == Ok::<
                RuleAction,
                ErrorV,
            >(a),
            Err(e) => spec_rule_fields(rule_fields@, *inst, features@) == Err::<
                RuleAction,
                ErrorV,
            >(e@),
        },
{
    let mut valid = true;
    match obj_get(rule_fields, "os") {
        None => {},
        Some(Json::Obj(os_fields)) => {
            match resolve_rule_os(os_fields, inst) {
                Ok(b) => {
                    valid = b;
                },
                Err(e) => {
                    return Err(prefix1(field("os"), e));
                },
            }
        },
        Some(_) => {
            return Err(schema1(field("os"), "object"));
        },
    }
    match obj_get(rule_fields, "features") {
        None => {},
        Some(Json::Obj(entries)) => {
            match rule_features_check(entries, features, valid) {
                Ok(b) => {
                    valid = b;
                },
                Err(e) => {
                    return Err(e);
                },
            }
        },
        Some(_) => {
            return Err(schema1(field("features"), "object"));
        },
    }
    match obj_get(rule_fields, "action") {
        Some(Json::Str(a)) => {
            if str_eq(a.as_str(), "allow") {
                Ok(if valid {
                    RuleAction::Allow
                } else {
                    RuleAction::Ignore
                })
            } else if str_eq(a.as_str(), "disallow") {
                Ok(if valid {
                    RuleAction::Disallow
                } else {
                    RuleAction::Ignore
                })
            } else {
                Err(schema1(field("action"), "string ('allow', 'disallow')"))
            }
        },
        _ => {
            Err(schema1(field("action"), "string ('allow', 'disallow')"))
        },
    }
}

/// Whether a name is already among the recorded feature names.
pub open spec fn spec_contains_name(out: Seq<String>, name: Seq<char>) -> bool {
    exists|i: int| 0 <= i < out.len() && #[trigger] out[i]@ == name
}

/// The recorded names after walking one `features` object's entries in
/// order, adding each name not yet present.
pub open spec fn spec_add_names(entries: Seq<(String, Json)>, acc: Seq<String>) -> Seq<String>
    decreases entries.len(),
{
    if entries.len() == 0 {
        acc
    } else if spec_contains_name(acc, entries[0].0@) {
        spec_add_names(entries.skip(1), acc)
    } else {
        spec_add_names(entries.skip(1), acc.push(entries[0].0))
    }
}

/// The recorded names after one rule: its `features` object's names when
/// it has one, in declaration order.
pub open spec fn spec_rule_feature_names(rule: Json, acc: Seq<String>) -> Seq<String> {
    match spec_get(rule, "features"@) {
        Some(Json::Obj(entries)) => spec_add_names(entries@, acc),
        _ => acc,
    }
}

/// The recorded names over the rules from index `i` on.
pub open spec fn spec_rules_feature_names_from(rules: Seq<Json>, i: int, acc: Seq<String>) -> Seq<
    String,
>
    decreases rules.len() - i when 0 <= i
{
    if i >= rules.len() {
        acc
    } else {
        spec_rules_feature_names_from(rules, i + 1, spec_rule_feature_names(rules[i], acc))
    }
}

/// Whether the name is already recorded.
fn contains_name(out: &Vec<String>, name: &String) -> (r: bool)
    ensures
        r == spec_contains_name(out@, name@),
{
    let n = out.len();
    let mut i: usize = 0;
    while i < n
        invariant
            n == out@.len(),
            i <= n,
            forall|k: int| 0 <= k < i ==> #[trigger] out@[k]@ != name@,
        decreases n - i,
    {
        if str_eq(out[i].as_str(), name.as_str()) {
            proof {
                assert(out@[i as int]@ == name@);
            }
            return true;
        }
        i += 1;
    }
    false
}

/// Record one `features` object's names.
fn add_names(entries: &Vec<(String, Json)>, out: &mut Vec<String>)
    ensures
        final(out)@ == spec_add_names(entries@, old(out)@),
{
    let n = entries.len();
    let mut idx: usize = 0;
    proof {
        assert(entries@.skip(0) =~= entries@);
    }
    while idx < n
        invariant
            n == entries@.len(),
            idx <= n,
            spec_add_names(entries@.skip(idx as int), out@) == spec_add_names(entries@, old(out)@),
        decreases n - idx,
    {
        proof {
            assert(entries@.skip(idx as int)[0] == entries@[idx as int]);
        }
        if !contains_name(out, &entries[idx].0) {
            out.push(entries[idx].0.clone());
        }
        proof {
            assert(entries@.skip(idx as int).skip(1) =~= entries@.skip(idx as int + 1));
        }
        idx += 1;
    }
}

/// Record every feature name an ordered rule list refers to, whether or
/// not the rule matched: each name once, in first-reference order,
/// appended to `out`. Rules and `features` values of the wrong shape
/// contribute nothing here; evaluation reports them.
pub fn referenced_features(rules: &Vec<Json>, out: &mut Vec<String>)
    ensures
        final(out)@ == spec_rules_feature_names_from(rules@, 0, old(out)@),
{
    let n = rules.len();
    let mut idx: usize = 0;
    while idx < n
        invariant
            n == rules@.len(),
            idx <= n,
            spec_rules_feature_names_from(rules@, idx as int, out@)
                == spec_rules_feature_names_from(rules@, 0, old(out)@),
        decreases n - idx,
    {
        match rules[idx].get("features") {
            Some(Json::Obj(entries)) => {
                add_names(entries, out);
            },
            _ => {},
        }
        idx += 1;
    }
}

/// Evaluate a whole ordered rule list: initially disallowed, each matched
/// rule's action overrides the verdict so far, and the last word stands.
pub fn resolve_rules(
    rules: &Vec<Json>,
    inst: &Installer,
    features: &Vec<(String, bool)>,
) -> (r: Result<bool, Error>)
    ensures
        match r {
            Ok(b) => spec_rules(rules@, *inst, features@) == Ok::<bool, ErrorV>(b),
            Err(e) => spec_rules(rules@, *inst, features@) == Err::<bool, ErrorV>(e@),
        },
{
    let n = rules.len();
    let mut idx: usize = 0;
    let mut allowed = false;
    while idx < n
        invariant
            n == rules@.len(),
            idx <= n,
            spec_rules_from(rules@, idx as int, allowed, *inst, features@) == spec_rules(
                rules@,
                *inst,
                features@,
            ),
        decreases n - idx,
    {
        let action = match &rules[idx] {
            Json::Obj(fields) => {
                match resolve_rule(fields, inst, features) {
                    Ok(a) => a,
                    Err(e) => {
                        return Err(prefix1(entry(idx), e));
                    },
                }
            },
            _ => {
                return Err(schema1(entry(idx), "object"));
            },
        };
        match action {
            RuleAction::Allow => {
                allowed = true;
            },
            RuleAction::Disallow => {
                allowed = false;
            },
            RuleAction::Ignore => {},
        }
        idx += 1;
    }
    Ok(allowed)
}

} // verus!
