//! The filter rules that decide which users may belong to a group.
//!
//! A rule set of type `All` starts from the users asked about and drops
//! every user that a rule rejects; a rule set of type `Any` starts empty and
//! takes in every user that a rule admits. A rule on a group, corporation or
//! alliance asks whether the user's record lists that id; a `CEO` or
//! `Executor` rule asks whether one of the user's characters is among the
//! given leaders. `Is` rules reject users without a match and admit users
//! with one, `IsNot` rules the other way round; `GreaterThan` and `LessThan`
//! rules neither reject nor admit. Only users that have a record of the kind
//! a rule reads are rejected or admitted by it.

use vstd::prelude::*;

use crate::auth::model::groups::{
    GroupFilterCriteria, GroupFilterCriteriaType, GroupFilterGroupDto, GroupFilterRuleDto,
    GroupFilterType, GroupFilters, NewGroupDto, UpdateGroupDto, UpdateGroupFilterRuleDto,
};
use crate::auth::model::groups::{
    group_filter_criteria_of, group_filter_criteria_type_of, group_filter_type_of, updated_rules,
};
use crate::auth::model::user::{UserAffiliation, UserGroups};
use crate::entity::auth_group::Model as GroupRow;
use crate::entity::eve_alliance::Model as Alliance;
use crate::entity::eve_corporation::Model as Corporation;
use crate::entity::auth_group_filter_group::Model as FilterGroupRow;
use crate::entity::auth_group_filter_rule::Model as FilterRuleRow;
use crate::ids::{
    contains_id, insert_id, intersect_ids, remove_id, shares_id, union_ids, unique_ids,
};
use crate::text::{parse_i32, same_text, spec_parse_i32};

verus! {

/// What the filter rules read about the users being checked: the groups of
/// each user, the characters, corporations and alliances of each user, the
/// CEOs of those corporations and the executors of those alliances.
pub struct MembershipFacts {
    pub user_groups: Vec<UserGroups>,
    pub user_affiliations: Vec<UserAffiliation>,
    pub ceo_ids: Vec<i32>,
    pub executor_ids: Vec<i32>,
}

/// A rule can be evaluated: a role rule names `CEO` or `Executor`, any
/// other rule holds an id written in decimal.
pub open spec fn rule_value_valid(rule: GroupFilterRuleDto) -> bool {
    match rule.criteria {
        GroupFilterCriteria::Role => rule.criteria_value@ == "CEO"@ || rule.criteria_value@
            == "Executor"@,
        _ => spec_parse_i32(rule.criteria_value@) is Some,
    }
}

/// Every rule of the sequence can be evaluated.
pub open spec fn rules_valid(rules: Seq<GroupFilterRuleDto>) -> bool {
    forall|k: int| 0 <= k < rules.len() ==> rule_value_valid(#[trigger] rules[k])
}

/// Every rule of a group's filters can be evaluated.
pub open spec fn filters_valid(filters: GroupFilters) -> bool {
    &&& rules_valid(filters.filter_rules@)
    &&& forall|g: int|
        0 <= g < filters.filter_groups@.len() ==> rules_valid(
            #[trigger] filters.filter_groups@[g].rules@,
        )
}

/// The id a group, corporation or alliance rule names.
pub open spec fn rule_target(rule: GroupFilterRuleDto) -> i32 {
    spec_parse_i32(rule.criteria_value@)->0
}

/// The characters a role rule looks for.
pub open spec fn rule_leaders(rule: GroupFilterRuleDto, facts: MembershipFacts) -> Seq<i32> {
    if rule.criteria_value@ == "CEO"@ {
        facts.ceo_ids@
    } else {
        facts.executor_ids@
    }
}

/// How many records a rule reads: group records for group rules,
/// affiliation records for the others.
pub open spec fn record_count(rule: GroupFilterRuleDto, facts: MembershipFacts) -> int {
    match rule.criteria {
        GroupFilterCriteria::Group => facts.user_groups@.len() as int,
        _ => facts.user_affiliations@.len() as int,
    }
}

/// The user of the `i`-th record a rule reads.
pub open spec fn record_user(rule: GroupFilterRuleDto, facts: MembershipFacts, i: int) -> i32 {
    match rule.criteria {
        GroupFilterCriteria::Group => facts.user_groups@[i].user_id,
        _ => facts.user_affiliations@[i].user_id,
    }
}

/// Whether the `i`-th record a rule reads matches the rule.
pub open spec fn record_matches(rule: GroupFilterRuleDto, facts: MembershipFacts, i: int) -> bool {
    match rule.criteria {
        GroupFilterCriteria::Group => facts.user_groups@[i].groups@.contains(rule_target(rule)),
        GroupFilterCriteria::Corporation => facts.user_affiliations@[i].corporations@.contains(
            rule_target(rule),
        ),
        GroupFilterCriteria::Alliance => facts.user_affiliations@[i].alliances@.contains(
            rule_target(rule),
        ),
        GroupFilterCriteria::Role => exists|c: int|
            0 <= c < facts.user_affiliations@[i].characters@.len() && rule_leaders(
                rule,
                facts,
            ).contains(#[trigger] facts.user_affiliations@[i].characters@[c]),
    }
}

/// A record with this outcome rejects its user from an `All` rule set.
pub open spec fn outcome_rejects(criteria_type: GroupFilterCriteriaType, matched: bool) -> bool {
    (criteria_type == GroupFilterCriteriaType::Is && !matched) || (criteria_type
        == GroupFilterCriteriaType::IsNot && matched)
}

/// A record with this outcome admits its user to an `Any` rule set.
pub open spec fn outcome_admits(criteria_type: GroupFilterCriteriaType, matched: bool) -> bool {
    (criteria_type == GroupFilterCriteriaType::Is && matched) || (criteria_type
        == GroupFilterCriteriaType::IsNot && !matched)
}

/// One of the first `j` records the rule reads rejects user `u`.
pub open spec fn rule_rejects_upto(
    rule: GroupFilterRuleDto,
    facts: MembershipFacts,
    u: i32,
    j: int,
) -> bool {
    exists|i: int|
        0 <= i < j && #[trigger] record_user(rule, facts, i) == u && outcome_rejects(
            rule.criteria_type,
            record_matches(rule, facts, i),
        )
}

/// One of the first `j` records the rule reads admits user `u`.
pub open spec fn rule_admits_upto(
    rule: GroupFilterRuleDto,
    facts: MembershipFacts,
    u: i32,
    j: int,
) -> bool {
    exists|i: int|
        0 <= i < j && #[trigger] record_user(rule, facts, i) == u && outcome_admits(
            rule.criteria_type,
            record_matches(rule, facts, i),
        )
}

/// The rule rejects user `u`.
pub open spec fn rule_rejects(rule: GroupFilterRuleDto, facts: MembershipFacts, u: i32) -> bool {
    rule_rejects_upto(rule, facts, u, record_count(rule, facts))
}

/// The rule admits user `u`.
pub open spec fn rule_admits(rule: GroupFilterRuleDto, facts: MembershipFacts, u: i32) -> bool {
    rule_admits_upto(rule, facts, u, record_count(rule, facts))
}

/// User `u` passes the first `k` rules of a rule set.
pub open spec fn rule_set_holds_upto(
    filter_type: GroupFilterType,
    rules: Seq<GroupFilterRuleDto>,
    k: int,
    user_ids: Seq<i32>,
    facts: MembershipFacts,
    u: i32,
) -> bool {
    match filter_type {
        GroupFilterType::All => user_ids.contains(u) && forall|q: int|
            0 <= q < k ==> !#[trigger] rule_rejects(rules[q], facts, u),
        GroupFilterType::Any => exists|q: int| 0 <= q < k && #[trigger] rule_admits(rules[q], facts, u),
    }
}

/// User `u` passes a rule set: for `All`, `u` was asked about and no rule
/// rejects it; for `Any`, some rule admits it.
pub open spec fn rule_set_holds(
    filter_type: GroupFilterType,
    rules: Seq<GroupFilterRuleDto>,
    user_ids: Seq<i32>,
    facts: MembershipFacts,
    u: i32,
) -> bool {
    rule_set_holds_upto(filter_type, rules, rules.len() as int, user_ids, facts, u)
}

/// The group has neither rules of its own nor nested rule sets.
pub open spec fn filters_empty(filters: GroupFilters) -> bool {
    filters.filter_rules@.len() == 0 && filters.filter_groups@.len() == 0
}

/// User `u` passes the nested rule set `g` of the group.
pub open spec fn filter_group_holds(
    filters: GroupFilters,
    g: int,
    user_ids: Seq<i32>,
    facts: MembershipFacts,
    u: i32,
) -> bool {
    rule_set_holds(
        filters.filter_groups@[g].filter_type,
        filters.filter_groups@[g].rules@,
        user_ids,
        facts,
        u,
    )
}

/// User `u` passes the group's filters. A group with neither rules of its
/// own nor nested rule sets lets every user asked about through. Otherwise
/// the group's own rule set and each nested rule set are evaluated, an empty
/// `All` set passing every user asked about and an empty `Any` set passing
/// nobody, and the results are intersected (`All`) or joined (`Any`).
pub open spec fn filters_hold(
    filters: GroupFilters,
    user_ids: Seq<i32>,
    facts: MembershipFacts,
    u: i32,
) -> bool {
    let groups = filters.filter_groups@;
    let top = filters.filter_rules@;
    if filters_empty(filters) {
        user_ids.contains(u)
    } else {
        match filters.filter_type {
            GroupFilterType::All => rule_set_holds(filters.filter_type, top, user_ids, facts, u)
                && forall|g: int|
                0 <= g < groups.len() ==> #[trigger] filter_group_holds(
                    filters,
                    g,
                    user_ids,
                    facts,
                    u,
                ),
            GroupFilterType::Any => rule_set_holds(filters.filter_type, top, user_ids, facts, u)
                || exists|g: int|
                0 <= g < groups.len() && #[trigger] filter_group_holds(
                    filters,
                    g,
                    user_ids,
                    facts,
                    u,
                ),
        }
    }
}

/// User `u` may belong to the group: without filters every user asked about
/// may.
pub open spec fn members_hold(
    filters: Option<GroupFilters>,
    user_ids: Seq<i32>,
    facts: MembershipFacts,
    u: i32,
) -> bool {
    match filters {
        None => user_ids.contains(u),
        Some(f) => filters_hold(f, user_ids, facts, u),
    }
}

proof fn lemma_rejects_upto_step(rule: GroupFilterRuleDto, facts: MembershipFacts, u: i32, j: int)
    requires
        0 <= j,
    ensures
        rule_rejects_upto(rule, facts, u, j + 1) <==> (rule_rejects_upto(rule, facts, u, j) || (
        record_user(rule, facts, j) == u && outcome_rejects(
            rule.criteria_type,
            record_matches(rule, facts, j),
        ))),
{
    if rule_rejects_upto(rule, facts, u, j + 1) {
        let i = choose|i: int|
            0 <= i < j + 1 && #[trigger] record_user(rule, facts, i) == u && outcome_rejects(
                rule.criteria_type,
                record_matches(rule, facts, i),
            );
        if i < j {
            assert(rule_rejects_upto(rule, facts, u, j));
        }
    }
    if rule_rejects_upto(rule, facts, u, j) {
        let i = choose|i: int|
            0 <= i < j && #[trigger] record_user(rule, facts, i) == u && outcome_rejects(
                rule.criteria_type,
                record_matches(rule, facts, i),
            );
        assert(record_user(rule, facts, i) == u);
    }
    if record_user(rule, facts, j) == u && outcome_rejects(
        rule.criteria_type,
        record_matches(rule, facts, j),
    ) {
        assert(record_user(rule, facts, j) == u);
    }
}

proof fn lemma_admits_upto_step(rule: GroupFilterRuleDto, facts: MembershipFacts, u: i32, j: int)
    requires
        0 <= j,
    ensures
        rule_admits_upto(rule, facts, u, j + 1) <==> (rule_admits_upto(rule, facts, u, j) || (
        record_user(rule, facts, j) == u && outcome_admits(
            rule.criteria_type,
            record_matches(rule, facts, j),
        ))),
{
    if rule_admits_upto(rule, facts, u, j + 1) {
        let i = choose|i: int|
            0 <= i < j + 1 && #[trigger] record_user(rule, facts, i) == u && outcome_admits(
                rule.criteria_type,
                record_matches(rule, facts, i),
            );
        if i < j {
            assert(rule_admits_upto(rule, facts, u, j));
        }
    }
    if rule_admits_upto(rule, facts, u, j) {
        let i = choose|i: int|
            0 <= i < j && #[trigger] record_user(rule, facts, i) == u && outcome_admits(
                rule.criteria_type,
                record_matches(rule, facts, i),
            );
        assert(record_user(rule, facts, i) == u);
    }
    if record_user(rule, facts, j) == u && outcome_admits(
        rule.criteria_type,
        record_matches(rule, facts, j),
    ) {
        assert(record_user(rule, facts, j) == u);
    }
}

/// Applies one record's outcome to the set of eligible users: in an `All`
/// rule set a rejecting record takes its user out, in an `Any` rule set an
/// admitting record puts its user in.
pub fn apply_rule_outcome(
    eligible: &mut Vec<i32>,
    filter_type: GroupFilterType,
    criteria_type: GroupFilterCriteriaType,
    matched: bool,
    user_id: i32,
)
    requires
        old(eligible)@.no_duplicates(),
    ensures
        final(eligible)@.no_duplicates(),
        forall|y: i32|
            #![trigger final(eligible)@.contains(y)]
            final(eligible)@.contains(y) <==> if filter_type == GroupFilterType::All
                && outcome_rejects(criteria_type, matched) {
                old(eligible)@.contains(y) && y != user_id
            } else if filter_type == GroupFilterType::Any && outcome_admits(
                criteria_type,
                matched,
            ) {
                old(eligible)@.contains(y) || y == user_id
            } else {
                old(eligible)@.contains(y)
            },
{
    let is_is = criteria_type == GroupFilterCriteriaType::Is;
    let is_not = criteria_type == GroupFilterCriteriaType::IsNot;
    match filter_type {
        GroupFilterType::All => {
            if (is_is && !matched) || (is_not && matched) {
                remove_id(eligible, user_id);
            }
        },
        GroupFilterType::Any => {
            if (is_is && matched) || (is_not && !matched) {
                insert_id(eligible, user_id);
            }
        },
    }
}

/// Checks one user against a rule on a group, corporation or alliance:
/// `ids_to_check` are the user's ids of the kind the rule reads and
/// `criteria_id` the id the rule names.
pub fn handle_affiliation_check(
    eligible_users: Vec<i32>,
    filter_type: GroupFilterType,
    filter: &GroupFilterRuleDto,
    ids_to_check: &Vec<i32>,
    criteria_id: i32,
    user_id: i32,
) -> (r: Vec<i32>)
    requires
        eligible_users@.no_duplicates(),
        filter.criteria_type == GroupFilterCriteriaType::Is || filter.criteria_type
            == GroupFilterCriteriaType::IsNot,
    ensures
        r@.no_duplicates(),
        forall|y: i32|
            #![trigger r@.contains(y)]
            r@.contains(y) <==> if filter_type == GroupFilterType::All && outcome_rejects(
                filter.criteria_type,
                ids_to_check@.contains(criteria_id),
            ) {
                eligible_users@.contains(y) && y != user_id
            } else if filter_type == GroupFilterType::Any && outcome_admits(
                filter.criteria_type,
                ids_to_check@.contains(criteria_id),
            ) {
                eligible_users@.contains(y) || y == user_id
            } else {
                eligible_users@.contains(y)
            },
{
    let mut eligible_users = eligible_users;
    let matched = contains_id(ids_to_check, criteria_id);
    apply_rule_outcome(&mut eligible_users, filter_type, filter.criteria_type, matched, user_id);
    eligible_users
}

proof fn lemma_holds_upto_step(
    filter_type: GroupFilterType,
    rules: Seq<GroupFilterRuleDto>,
    k: int,
    user_ids: Seq<i32>,
    facts: MembershipFacts,
    u: i32,
)
    requires
        0 <= k < rules.len(),
    ensures
        filter_type == GroupFilterType::All ==> (rule_set_holds_upto(
            filter_type,
            rules,
            k + 1,
            user_ids,
            facts,
            u,
        ) <==> (rule_set_holds_upto(filter_type, rules, k, user_ids, facts, u) && !rule_rejects(
            rules[k],
            facts,
            u,
        ))),
        filter_type == GroupFilterType::Any ==> (rule_set_holds_upto(
            filter_type,
            rules,
            k + 1,
            user_ids,
            facts,
            u,
        ) <==> (rule_set_holds_upto(filter_type, rules, k, user_ids, facts, u) || rule_admits(
            rules[k],
            facts,
            u,
        ))),
{
    if filter_type == GroupFilterType::Any {
        if rule_set_holds_upto(filter_type, rules, k + 1, user_ids, facts, u) {
            let q = choose|q: int| 0 <= q < k + 1 && #[trigger] rule_admits(rules[q], facts, u);
            if q < k {
                assert(rule_set_holds_upto(filter_type, rules, k, user_ids, facts, u));
            }
        }
        if rule_set_holds_upto(filter_type, rules, k, user_ids, facts, u) {
            let q = choose|q: int| 0 <= q < k && #[trigger] rule_admits(rules[q], facts, u);
            assert(rule_admits(rules[q], facts, u));
        }
        if rule_admits(rules[k], facts, u) {
            assert(rule_admits(rules[k], facts, u));
        }
    }
}

/// The user of record `j` of a rule and whether that record matches it.
fn record_outcome(
    rule: &GroupFilterRuleDto,
    target: i32,
    leaders: &Vec<i32>,
    facts: &MembershipFacts,
    j: usize,
) -> (r: (i32, bool))
    requires
        rule_value_valid(*rule),
        rule.criteria != GroupFilterCriteria::Role ==> target == rule_target(*rule),
        rule.criteria == GroupFilterCriteria::Role ==> leaders@ == rule_leaders(*rule, *facts),
        j < record_count(*rule, *facts),
    ensures
        r.0 == record_user(*rule, *facts, j as int),
        r.1 == record_matches(*rule, *facts, j as int),
{
    match rule.criteria {
        GroupFilterCriteria::Group => {
            let record = &facts.user_groups[j];
            (record.user_id, contains_id(&record.groups, target))
        },
        GroupFilterCriteria::Corporation => {
            let record = &facts.user_affiliations[j];
            (record.user_id, contains_id(&record.corporations, target))
        },
        GroupFilterCriteria::Alliance => {
            let record = &facts.user_affiliations[j];
            (record.user_id, contains_id(&record.alliances, target))
        },
        GroupFilterCriteria::Role => {
            let record = &facts.user_affiliations[j];
            (record.user_id, shares_id(&record.characters, leaders))
        },
    }
}

/// The users asked about that pass one rule set, each once.
pub fn rule_set_members(
    filter_type: GroupFilterType,
    rules: &Vec<GroupFilterRuleDto>,
    user_ids: &Vec<i32>,
    facts: &MembershipFacts,
) -> (r: Vec<i32>)
    requires
        rules_valid(rules@),
    ensures
        r@.no_duplicates(),
        forall|u: i32|
            #![trigger r@.contains(u)]
            r@.contains(u) <==> rule_set_holds(filter_type, rules@, user_ids@, *facts, u),
{
    let mut eligible: Vec<i32> = match filter_type {
        GroupFilterType::All => unique_ids(user_ids),
        GroupFilterType::Any => Vec::new(),
    };
    let mut k: usize = 0;
    while k < rules.len()
        invariant
            k <= rules@.len(),
            rules_valid(rules@),
            eligible@.no_duplicates(),
            forall|u: i32|
                #![trigger eligible@.contains(u)]
                eligible@.contains(u) <==> rule_set_holds_upto(
                    filter_type,
                    rules@,
                    k as int,
                    user_ids@,
                    *facts,
                    u,
                ),
        decreases rules.len() - k,
    {
        let rule = &rules[k];
        assert(rule_value_valid(rules@[k as int]));
        let target: i32 = match parse_i32(rule.criteria_value.as_str()) {
            Some(t) => t,
            None => 0,
        };
        let leaders: &Vec<i32> = if same_text(rule.criteria_value.as_str(), "CEO") {
            &facts.ceo_ids
        } else {
            &facts.executor_ids
        };
        let n: usize = match rule.criteria {
            GroupFilterCriteria::Group => facts.user_groups.len(),
            _ => facts.user_affiliations.len(),
        };
        let mut j: usize = 0;
        while j < n
            invariant
                k < rules@.len(),
                *rule == rules@[k as int],
                rule_value_valid(*rule),
                rule.criteria != GroupFilterCriteria::Role ==> target == rule_target(*rule),
                rule.criteria == GroupFilterCriteria::Role ==> leaders@ == rule_leaders(*rule, *facts),
                n == record_count(*rule, *facts),
                j <= n,
                eligible@.no_duplicates(),
                forall|u: i32|
                    #![trigger eligible@.contains(u)]
                    eligible@.contains(u) <==> match filter_type {
                        GroupFilterType::All => rule_set_holds_upto(
                            filter_type,
                            rules@,
                            k as int,
                            user_ids@,
                            *facts,
                            u,
                        ) && !rule_rejects_upto(*rule, *facts, u, j as int),
                        GroupFilterType::Any => rule_set_holds_upto(
                            filter_type,
                            rules@,
                            k as int,
                            user_ids@,
                            *facts,
                            u,
                        ) || rule_admits_upto(*rule, *facts, u, j as int),
                    },
            decreases n - j,
        {
            let (user, matched) = record_outcome(rule, target, leaders, facts, j);
            let ghost before = eligible@;
            apply_rule_outcome(&mut eligible, filter_type, rule.criteria_type, matched, user);
            proof {
                assert forall|u: i32|
                    #![trigger eligible@.contains(u)]
                    eligible@.contains(u) <==> match filter_type {
                        GroupFilterType::All => rule_set_holds_upto(
                            filter_type,
                            rules@,
                            k as int,
                            user_ids@,
                            *facts,
                            u,
                        ) && !rule_rejects_upto(*rule, *facts, u, j + 1),
                        GroupFilterType::Any => rule_set_holds_upto(
                            filter_type,
                            rules@,
                            k as int,
                            user_ids@,
                            *facts,
                            u,
                        ) || rule_admits_upto(*rule, *facts, u, j + 1),
                    } by {
                    lemma_rejects_upto_step(*rule, *facts, u, j as int);
                    lemma_admits_upto_step(*rule, *facts, u, j as int);
                    assert(before.contains(u) ==> before.contains(u));
                }
            }
            j = j + 1;
        }
        proof {
            assert forall|u: i32|
                #![trigger eligible@.contains(u)]
                eligible@.contains(u) <==> rule_set_holds_upto(
                    filter_type,
                    rules@,
                    k + 1,
                    user_ids@,
                    *facts,
                    u,
                ) by {
                lemma_holds_upto_step(filter_type, rules@, k as int, user_ids@, *facts, u);
            }
        }
        k = k + 1;
    }
    eligible
}

/// The result of the group's own rule set and its first `g` nested rule
/// sets, combined by the group's filter type.
pub open spec fn filter_sets_hold_upto(
    filters: GroupFilters,
    g: int,
    user_ids: Seq<i32>,
    facts: MembershipFacts,
    u: i32,
) -> bool {
    let groups = filters.filter_groups@;
    let top = rule_set_holds(filters.filter_type, filters.filter_rules@, user_ids, facts, u);
    match filters.filter_type {
        GroupFilterType::All => top && forall|q: int|
            0 <= q < g ==> #[trigger] filter_group_holds(filters, q, user_ids, facts, u),
        GroupFilterType::Any => top || exists|q: int|
            0 <= q < g && #[trigger] filter_group_holds(filters, q, user_ids, facts, u),
    }
}

/// Intersects (`All`) or joins (`Any`) two sets of users.
fn combine_members(filter_type: GroupFilterType, a: &Vec<i32>, b: &Vec<i32>) -> (r: Vec<i32>)
    requires
        a@.no_duplicates(),
    ensures
        r@.no_duplicates(),
        forall|y: i32|
            #![trigger r@.contains(y)]
            r@.contains(y) <==> match filter_type {
                GroupFilterType::All => a@.contains(y) && b@.contains(y),
                GroupFilterType::Any => a@.contains(y) || b@.contains(y),
            },
{
    match filter_type {
        GroupFilterType::All => intersect_ids(a, b),
        GroupFilterType::Any => union_ids(a, b),
    }
}

/// The users asked about that may belong to the group, each once: those
/// that pass its filters, or all of them where the group has no filters.
pub fn eligible_members(
    filters: &Option<GroupFilters>,
    user_ids: &Vec<i32>,
    facts: &MembershipFacts,
) -> (r: Vec<i32>)
    requires
        *filters matches Some(f) ==> filters_valid(f),
    ensures
        r@.no_duplicates(),
        forall|u: i32|
            #![trigger r@.contains(u)]
            r@.contains(u) <==> members_hold(*filters, user_ids@, *facts, u),
{
    match filters {
        None => unique_ids(user_ids),
        Some(f) => {
            if f.filter_rules.len() == 0 && f.filter_groups.len() == 0 {
                return unique_ids(user_ids);
            }
            assert(rules_valid(f.filter_rules@));
            let mut acc = rule_set_members(f.filter_type, &f.filter_rules, user_ids, facts);
            let mut g: usize = 0;
            while g < f.filter_groups.len()
                invariant
                    g <= f.filter_groups@.len(),
                    filters_valid(*f),
                    acc@.no_duplicates(),
                    forall|u: i32|
                        #![trigger acc@.contains(u)]
                        acc@.contains(u) <==> filter_sets_hold_upto(
                            *f,
                            g as int,
                            user_ids@,
                            *facts,
                            u,
                        ),
                decreases f.filter_groups.len() - g,
            {
                let group = &f.filter_groups[g];
                assert(rules_valid(f.filter_groups@[g as int].rules@));
                let s = rule_set_members(group.filter_type, &group.rules, user_ids, facts);
                let ghost before = acc@;
                acc = combine_members(f.filter_type, &acc, &s);
                proof {
                    assert forall|u: i32|
                        #![trigger acc@.contains(u)]
                        acc@.contains(u) <==> filter_sets_hold_upto(
                            *f,
                            g + 1,
                            user_ids@,
                            *facts,
                            u,
                        ) by {
                        assert(filter_group_holds(*f, g as int, user_ids@, *facts, u)
                            == rule_set_holds(group.filter_type, group.rules@, user_ids@, *facts, u));
                        if f.filter_type == GroupFilterType::Any {
                            if exists|q: int|
                                0 <= q < g + 1 && #[trigger] filter_group_holds(
                                    *f,
                                    q,
                                    user_ids@,
                                    *facts,
                                    u,
                                ) {
                                let q = choose|q: int|
                                    0 <= q < g + 1 && #[trigger] filter_group_holds(
                                        *f,
                                        q,
                                        user_ids@,
                                        *facts,
                                        u,
                                    );
                                if q < g {
                                    assert(filter_sets_hold_upto(*f, g as int, user_ids@, *facts, u));
                                }
                            }
                            if filter_sets_hold_upto(*f, g as int, user_ids@, *facts, u)
                                && !rule_set_holds(
                                f.filter_type,
                                f.filter_rules@,
                                user_ids@,
                                *facts,
                                u,
                            ) {
                                let q = choose|q: int|
                                    0 <= q < g && #[trigger] filter_group_holds(
                                        *f,
                                        q,
                                        user_ids@,
                                        *facts,
                                        u,
                                    );
                                assert(filter_group_holds(*f, q, user_ids@, *facts, u));
                            }
                        } else {
                            if filter_sets_hold_upto(*f, g + 1, user_ids@, *facts, u) {
                                assert(filter_group_holds(*f, g as int, user_ids@, *facts, u));
                            }
                        }
                    }
                }
                g = g + 1;
            }
            acc
        },
    }
}

/// Every record the rules read belongs to one of the users asked about.
pub open spec fn records_within(facts: MembershipFacts, user_ids: Seq<i32>) -> bool {
    &&& forall|i: int|
        0 <= i < facts.user_groups@.len() ==> user_ids.contains(
            #[trigger] facts.user_groups@[i].user_id,
        )
    &&& forall|i: int|
        0 <= i < facts.user_affiliations@.len() ==> user_ids.contains(
            #[trigger] facts.user_affiliations@[i].user_id,
        )
}

proof fn lemma_admitted_within(
    rule: GroupFilterRuleDto,
    facts: MembershipFacts,
    user_ids: Seq<i32>,
    u: i32,
)
    requires
        records_within(facts, user_ids),
        rule_admits(rule, facts, u),
    ensures
        user_ids.contains(u),
{
    let i = choose|i: int|
        0 <= i < record_count(rule, facts) && #[trigger] record_user(rule, facts, i) == u
            && outcome_admits(rule.criteria_type, record_matches(rule, facts, i));
    match rule.criteria {
        GroupFilterCriteria::Group => assert(user_ids.contains(facts.user_groups@[i].user_id)),
        _ => assert(user_ids.contains(facts.user_affiliations@[i].user_id)),
    }
}

proof fn lemma_rule_set_within(
    filter_type: GroupFilterType,
    rules: Seq<GroupFilterRuleDto>,
    user_ids: Seq<i32>,
    facts: MembershipFacts,
    u: i32,
)
    requires
        records_within(facts, user_ids),
        rule_set_holds(filter_type, rules, user_ids, facts, u),
    ensures
        user_ids.contains(u),
{
    if filter_type == GroupFilterType::Any {
        let q = choose|q: int| 0 <= q < rules.len() && #[trigger] rule_admits(rules[q], facts, u);
        lemma_admitted_within(rules[q], facts, user_ids, u);
    }
}

/// The corporations of the users' characters, user after user.
pub open spec fn users_corporations(affiliations: Seq<UserAffiliation>) -> Seq<i32> {
    affiliations.map_values(|a: UserAffiliation| a.corporations@).flatten()
}

/// The corporations of the users' characters, user after user: where the
/// CEOs and executors that role rules look for are searched.
pub fn affiliation_corporation_ids(affiliations: &Vec<UserAffiliation>) -> (r: Vec<i32>)
    ensures
        r@ == users_corporations(affiliations@),
{
    let mut ids: Vec<i32> = Vec::new();
    let mut i: usize = 0;
    while i < affiliations.len()
        invariant
            i <= affiliations@.len(),
            ids@ == affiliations@.take(i as int).map_values(
                |a: UserAffiliation| a.corporations@,
            ).flatten_alt(),
        decreases affiliations.len() - i,
    {
        let corporations = &affiliations[i].corporations;
        let mut j: usize = 0;
        let ghost before = ids@;
        while j < corporations.len()
            invariant
                j <= corporations@.len(),
                ids@ == before + corporations@.take(j as int),
            decreases corporations.len() - j,
        {
            ids.push(corporations[j]);
            proof {
                assert(corporations@.take(j + 1) =~= corporations@.take(j as int).push(corporations@[j as int]));
            }
            j = j + 1;
        }
        proof {
            assert(corporations@.take(corporations@.len() as int) =~= corporations@);
            let f = |a: UserAffiliation| a.corporations@;
            assert(affiliations@.take(i + 1).map_values(f).drop_last() =~= affiliations@.take(
                i as int,
            ).map_values(f));
        }
        i = i + 1;
    }
    proof {
        let f = |a: UserAffiliation| a.corporations@;
        assert(affiliations@.take(affiliations@.len() as int) =~= affiliations@);
        affiliations@.map_values(f).lemma_flatten_and_flatten_alt_are_equivalent();
    }
    ids
}

/// The CEOs of the corporations, one per corporation.
pub fn corporation_ceo_ids(corporations: &Vec<Corporation>) -> (r: Vec<i32>)
    ensures
        r@ == corporations@.map_values(|c: Corporation| c.ceo),
{
    let mut ids: Vec<i32> = Vec::new();
    let mut i: usize = 0;
    while i < corporations.len()
        invariant
            i <= corporations@.len(),
            ids@ == corporations@.take(i as int).map_values(|c: Corporation| c.ceo),
        decreases corporations.len() - i,
    {
        ids.push(corporations[i].ceo);
        proof {
            assert(corporations@.take(i + 1) =~= corporations@.take(i as int).push(corporations@[i as int]));
        }
        i = i + 1;
    }
    assert(corporations@.take(corporations@.len() as int) =~= corporations@);
    ids
}

/// The executors of the alliances that name one.
pub fn alliance_executor_ids(alliances: &Vec<Alliance>) -> (r: Vec<i32>)
    ensures
        r@ == alliances@.filter_map(|a: Alliance| a.executor),
{
    let mut ids: Vec<i32> = Vec::new();
    let mut i: usize = 0;
    while i < alliances.len()
        invariant
            i <= alliances@.len(),
            ids@ == alliances@.take(i as int).filter_map(|a: Alliance| a.executor),
        decreases alliances.len() - i,
    {
        proof {
            alliances@.lemma_filter_map_take_succ(|a: Alliance| a.executor, i as int);
        }
        if let Some(e) = alliances[i].executor {
            ids.push(e);
        }
        i = i + 1;
    }
    assert(alliances@.take(alliances@.len() as int) =~= alliances@);
    ids
}

/// A stored rule as the filter rule it stands for.
pub open spec fn spec_rule_dto(row: FilterRuleRow) -> GroupFilterRuleDto {
    GroupFilterRuleDto {
        criteria: group_filter_criteria_of(row.criteria),
        criteria_type: group_filter_criteria_type_of(row.criteria_type),
        criteria_value: row.criteria_value,
    }
}

/// The filter rules stored for group `group_id` in the rule set `set`
/// (`None`: the group's own rules), in stored order.
pub open spec fn stored_rules(rows: Seq<FilterRuleRow>, group_id: i32, set: Option<i32>) -> Seq<
    GroupFilterRuleDto,
> {
    rows.filter_map(
        |r: FilterRuleRow|
            if r.group_id == group_id && r.filter_group_id == set {
                Some(spec_rule_dto(r))
            } else {
                None
            },
    )
}

/// The nested rule sets stored for group `group_id`, in stored order.
pub open spec fn stored_sets(rows: Seq<FilterGroupRow>, group_id: i32) -> Seq<FilterGroupRow> {
    rows.filter_map(
        |g: FilterGroupRow|
            if g.group_id == group_id {
                Some(g)
            } else {
                None
            },
    )
}

/// `set` shows the stored rule set `row` of group `group_id` with its rules.
pub open spec fn shows_rule_set(
    set: GroupFilterGroupDto,
    row: FilterGroupRow,
    rules: Seq<FilterRuleRow>,
    group_id: i32,
) -> bool {
    &&& set.filter_type == group_filter_type_of(row.filter_type)
    &&& set.rules@ == stored_rules(rules, group_id, Some(row.id))
}

fn rule_dto(row: &FilterRuleRow) -> (r: GroupFilterRuleDto)
    ensures
        r == spec_rule_dto(*row),
{
    GroupFilterRuleDto {
        criteria: GroupFilterCriteria::from(row.criteria),
        criteria_type: GroupFilterCriteriaType::from(row.criteria_type),
        criteria_value: row.criteria_value.clone(),
    }
}

fn collect_rules(rows: &Vec<FilterRuleRow>, group_id: i32, set: Option<i32>) -> (r: Vec<
    GroupFilterRuleDto,
>)
    ensures
        r@ == stored_rules(rows@, group_id, set),
{
    let mut out: Vec<GroupFilterRuleDto> = Vec::new();
    let mut i: usize = 0;
    while i < rows.len()
        invariant
            i <= rows@.len(),
            out@ == stored_rules(rows@.take(i as int), group_id, set),
        decreases rows.len() - i,
    {
        proof {
            rows@.lemma_filter_map_take_succ(
                |r: FilterRuleRow|
                    if r.group_id == group_id && r.filter_group_id == set {
                        Some(spec_rule_dto(r))
                    } else {
                        None
                    },
                i as int,
            );
        }
        if rows[i].group_id == group_id && rows[i].filter_group_id == set {
            out.push(rule_dto(&rows[i]));
        }
        i = i + 1;
    }
    assert(rows@.take(rows@.len() as int) =~= rows@);
    out
}

/// The filters of a group assembled from its stored rows: the group's own
/// rules, and each of its nested rule sets with the rules stored for it.
/// `None` where the group does not exist.
pub fn get_group_filters(
    group: Option<GroupRow>,
    rules: &Vec<FilterRuleRow>,
    filter_groups: &Vec<FilterGroupRow>,
) -> (r: Option<GroupFilters>)
    ensures
        match group {
            None => r is None,
            Some(g) => r matches Some(f) && f.id == g.id && f.filter_type == group_filter_type_of(
                g.filter_type,
            ) && f.filter_rules@ == stored_rules(rules@, g.id, None) && f.filter_groups@.len()
                == stored_sets(filter_groups@, g.id).len() && forall|k: int|
                0 <= k < f.filter_groups@.len() ==> shows_rule_set(
                    #[trigger] f.filter_groups@[k],
                    stored_sets(filter_groups@, g.id)[k],
                    rules@,
                    g.id,
                ),
        },
{
    let g = match group {
        Some(g) => g,
        None => return None,
    };
    let filter_rules = collect_rules(rules, g.id, None);
    let mut sets: Vec<GroupFilterGroupDto> = Vec::new();
    let mut i: usize = 0;
    while i < filter_groups.len()
        invariant
            i <= filter_groups@.len(),
            sets@.len() == stored_sets(filter_groups@.take(i as int), g.id).len(),
            forall|k: int|
                0 <= k < sets@.len() ==> shows_rule_set(
                    #[trigger] sets@[k],
                    stored_sets(filter_groups@.take(i as int), g.id)[k],
                    rules@,
                    g.id,
                ),
        decreases filter_groups.len() - i,
    {
        proof {
            filter_groups@.lemma_filter_map_take_succ(
                |r: FilterGroupRow|
                    if r.group_id == g.id {
                        Some(r)
                    } else {
                        None
                    },
                i as int,
            );
        }
        let row = &filter_groups[i];
        if row.group_id == g.id {
            let set_rules = collect_rules(rules, g.id, Some(row.id));
            sets.push(
                GroupFilterGroupDto {
                    filter_type: GroupFilterType::from(row.filter_type),
                    rules: set_rules,
                },
            );
        }
        i = i + 1;
    }
    assert(filter_groups@.take(filter_groups@.len() as int) =~= filter_groups@);
    Some(
        GroupFilters {
            id: g.id,
            filter_type: GroupFilterType::from(g.filter_type),
            filter_rules,
            filter_groups: sets,
        },
    )
}

/// Membership is only ever granted to users that were asked about, as long
/// as the records the rules read are those of the users asked about.
pub proof fn lemma_members_within_requested(
    filters: Option<GroupFilters>,
    user_ids: Seq<i32>,
    facts: MembershipFacts,
    u: i32,
)
    requires
        records_within(facts, user_ids),
        members_hold(filters, user_ids, facts, u),
    ensures
        user_ids.contains(u),
{
    if let Some(f) = filters {
        if !filters_empty(f) {
            let top = f.filter_rules@;
            let groups = f.filter_groups@;
            if rule_set_holds(f.filter_type, top, user_ids, facts, u) {
                lemma_rule_set_within(f.filter_type, top, user_ids, facts, u);
            } else {
                let g = choose|g: int|
                    0 <= g < groups.len() && #[trigger] filter_group_holds(f, g, user_ids, facts, u);
                lemma_rule_set_within(groups[g].filter_type, groups[g].rules@, user_ids, facts, u);
            }
        }
    }
}

/// Adding a rule to an `All` rule set never lets more users through, and
/// adding a rule to an `Any` rule set never turns a user away.
pub proof fn lemma_added_rule_monotone(
    rules: Seq<GroupFilterRuleDto>,
    rule: GroupFilterRuleDto,
    user_ids: Seq<i32>,
    facts: MembershipFacts,
    u: i32,
)
    ensures
        rule_set_holds(GroupFilterType::All, rules.push(rule), user_ids, facts, u)
            ==> rule_set_holds(GroupFilterType::All, rules, user_ids, facts, u),
        rule_set_holds(GroupFilterType::Any, rules, user_ids, facts, u) ==> rule_set_holds(
            GroupFilterType::Any,
            rules.push(rule),
            user_ids,
            facts,
            u,
        ),
{
    if rule_set_holds(GroupFilterType::All, rules.push(rule), user_ids, facts, u) {
        assert forall|q: int| 0 <= q < rules.len() implies !#[trigger] rule_rejects(
            rules[q],
            facts,
            u,
        ) by {
            assert(rules.push(rule)[q] == rules[q]);
            assert(!rule_rejects(rules.push(rule)[q], facts, u));
        }
    }
    if rule_set_holds(GroupFilterType::Any, rules, user_ids, facts, u) {
        let q = choose|q: int| 0 <= q < rules.len() && #[trigger] rule_admits(rules[q], facts, u);
        assert(rules.push(rule)[q] == rules[q]);
        assert(rule_admits(rules.push(rule)[q], facts, u));
    }
}

/// A group with neither rules of its own nor nested rule sets accepts
/// exactly the users asked about, whatever its filter type.
pub proof fn lemma_no_rules_accept_everyone(
    filters: GroupFilters,
    user_ids: Seq<i32>,
    facts: MembershipFacts,
    u: i32,
)
    requires
        filters.filter_rules@.len() == 0,
        filters.filter_groups@.len() == 0,
    ensures
        members_hold(Some(filters), user_ids, facts, u) <==> user_ids.contains(u),
{
}

/// A nested rule set without rules passes every user asked about when it is
/// of type `All` and nobody when it is of type `Any`: in a group combined by
/// `Any` an empty `All` set admits every user asked about, and in a group
/// combined by `All` an empty `Any` set admits nobody.
pub proof fn lemma_empty_nested_sets(
    filters: GroupFilters,
    g: int,
    user_ids: Seq<i32>,
    facts: MembershipFacts,
    u: i32,
)
    requires
        0 <= g < filters.filter_groups@.len(),
        filters.filter_groups@[g].rules@.len() == 0,
    ensures
        filters.filter_type == GroupFilterType::Any && filters.filter_groups@[g].filter_type
            == GroupFilterType::All && user_ids.contains(u) ==> filters_hold(
            filters,
            user_ids,
            facts,
            u,
        ),
        filters.filter_type == GroupFilterType::All && filters.filter_groups@[g].filter_type
            == GroupFilterType::Any ==> !filters_hold(filters, user_ids, facts, u),
{
    assert(!filters_empty(filters));
    if filters.filter_groups@[g].filter_type == GroupFilterType::All && user_ids.contains(u) {
        assert(filter_group_holds(filters, g, user_ids, facts, u));
    }
    if filters.filter_groups@[g].filter_type == GroupFilterType::Any {
        assert(!filter_group_holds(filters, g, user_ids, facts, u));
    }
}

/// One of `characters` is among `leaders`.
pub open spec fn has_character_among(characters: Seq<i32>, leaders: Seq<i32>) -> bool {
    exists|c: int| 0 <= c < characters.len() && leaders.contains(#[trigger] characters[c])
}

/// The user's affiliation records all list a character among `leaders`.
pub open spec fn every_record_led_by(facts: MembershipFacts, u: i32, leaders: Seq<i32>) -> bool {
    forall|i: int|
        0 <= i < facts.user_affiliations@.len() && #[trigger] facts.user_affiliations@[i].user_id
            == u ==> has_character_among(facts.user_affiliations@[i].characters@, leaders)
}

/// Some affiliation record of the user lists a character among `leaders`.
pub open spec fn some_record_led_by(facts: MembershipFacts, u: i32, leaders: Seq<i32>) -> bool {
    exists|i: int|
        0 <= i < facts.user_affiliations@.len() && #[trigger] facts.user_affiliations@[i].user_id
            == u && has_character_among(facts.user_affiliations@[i].characters@, leaders)
}

proof fn lemma_role_rule_matches(rule: GroupFilterRuleDto, facts: MembershipFacts, leaders: Seq<i32>, u: i32)
    requires
        rule.criteria == GroupFilterCriteria::Role,
        rule.criteria_type == GroupFilterCriteriaType::Is,
        rule_leaders(rule, facts) == leaders,
    ensures
        rule_set_holds(GroupFilterType::All, seq![rule], Seq::empty().push(u), facts, u)
            <==> every_record_led_by(facts, u, leaders),
        !rule_rejects(rule, facts, u) <==> every_record_led_by(facts, u, leaders),
        rule_admits(rule, facts, u) <==> some_record_led_by(facts, u, leaders),
{
    let affs = facts.user_affiliations@;
    assert forall|i: int| 0 <= i < affs.len() implies record_matches(rule, facts, i)
        == has_character_among(#[trigger] affs[i].characters@, leaders) by {
        if record_matches(rule, facts, i) {
            let c = choose|c: int|
                0 <= c < affs[i].characters@.len() && rule_leaders(rule, facts).contains(
                    #[trigger] affs[i].characters@[c],
                );
            assert(leaders.contains(affs[i].characters@[c]));
        }
        if has_character_among(affs[i].characters@, leaders) {
            let c = choose|c: int|
                0 <= c < affs[i].characters@.len() && leaders.contains(#[trigger] affs[i].characters@[c]);
            assert(rule_leaders(rule, facts).contains(affs[i].characters@[c]));
        }
    }
    if rule_rejects(rule, facts, u) {
        let i = choose|i: int|
            0 <= i < record_count(rule, facts) && #[trigger] record_user(rule, facts, i) == u
                && outcome_rejects(rule.criteria_type, record_matches(rule, facts, i));
        assert(affs[i].user_id == u);
        assert(!has_character_among(affs[i].characters@, leaders));
    }
    if !every_record_led_by(facts, u, leaders) {
        let i = choose|i: int|
            !(0 <= i < affs.len() && #[trigger] affs[i].user_id == u ==> has_character_among(
                affs[i].characters@,
                leaders,
            ));
        assert(record_user(rule, facts, i) == u);
        assert(rule_rejects_upto(rule, facts, u, record_count(rule, facts)));
    }
    if rule_admits(rule, facts, u) {
        let i = choose|i: int|
            0 <= i < record_count(rule, facts) && #[trigger] record_user(rule, facts, i) == u
                && outcome_admits(rule.criteria_type, record_matches(rule, facts, i));
        assert(affs[i].user_id == u);
    }
    if some_record_led_by(facts, u, leaders) {
        let i = choose|i: int|
            0 <= i < affs.len() && #[trigger] affs[i].user_id == u && has_character_among(
                affs[i].characters@,
                leaders,
            );
        assert(record_user(rule, facts, i) == u);
        assert(rule_admits_upto(rule, facts, u, record_count(rule, facts)));
    }
    assert(seq![rule][0] == rule);
    assert(Seq::<i32>::empty().push(u).contains(u)) by {
        assert(Seq::<i32>::empty().push(u)[0] == u);
    }
}

/// Role rules look among the right leaders: a `CEO` rule is met by a
/// record exactly when one of the user's characters is among the CEOs of
/// the corporations, an `Executor` rule exactly when one is among the
/// alliance executors. So a lone `Is` role rule in an `All` set admits a
/// user asked about exactly when each of the user's records lists such a
/// character, and in an `Any` set exactly when some record does.
pub proof fn lemma_role_rules_look_among_leaders(
    rule: GroupFilterRuleDto,
    user_ids: Seq<i32>,
    facts: MembershipFacts,
    u: i32,
)
    requires
        rule.criteria == GroupFilterCriteria::Role,
        rule.criteria_type == GroupFilterCriteriaType::Is,
    ensures
        rule.criteria_value@ == "CEO"@ ==> (rule_set_holds(
            GroupFilterType::All,
            seq![rule],
            user_ids,
            facts,
            u,
        ) <==> user_ids.contains(u) && every_record_led_by(facts, u, facts.ceo_ids@)),
        rule.criteria_value@ == "CEO"@ ==> (rule_set_holds(
            GroupFilterType::Any,
            seq![rule],
            user_ids,
            facts,
            u,
        ) <==> some_record_led_by(facts, u, facts.ceo_ids@)),
        rule.criteria_value@ == "Executor"@ ==> (rule_set_holds(
            GroupFilterType::All,
            seq![rule],
            user_ids,
            facts,
            u,
        ) <==> user_ids.contains(u) && every_record_led_by(facts, u, facts.executor_ids@)),
        rule.criteria_value@ == "Executor"@ ==> (rule_set_holds(
            GroupFilterType::Any,
            seq![rule],
            user_ids,
            facts,
            u,
        ) <==> some_record_led_by(facts, u, facts.executor_ids@)),
{
    reveal_strlit("CEO");
    reveal_strlit("Executor");
    let leaders = rule_leaders(rule, facts);
    lemma_role_rule_matches(rule, facts, leaders, u);
    assert(seq![rule][0] == rule);
    if rule.criteria_value@ == "Executor"@ {
        assert(rule.criteria_value@ != "CEO"@) by {
            assert(rule.criteria_value@[0] != "CEO"@[0]);
        }
    }
}

/// `Is` and `IsNot` split the users asked about that have exactly one
/// record of the kind a rule reads: such a user passes the single-rule
/// `All` rule set of exactly one of the two.
pub proof fn lemma_is_and_is_not_split(
    rule: GroupFilterRuleDto,
    user_ids: Seq<i32>,
    facts: MembershipFacts,
    u: i32,
    i: int,
)
    requires
        rule.criteria_type == GroupFilterCriteriaType::Is,
        0 <= i < record_count(rule, facts),
        record_user(rule, facts, i) == u,
        forall|j: int|
            0 <= j < record_count(rule, facts) && #[trigger] record_user(rule, facts, j) == u ==> j
                == i,
        user_ids.contains(u),
    ensures
        rule_set_holds(GroupFilterType::All, seq![rule], user_ids, facts, u) != rule_set_holds(
            GroupFilterType::All,
            seq![GroupFilterRuleDto { criteria_type: GroupFilterCriteriaType::IsNot, ..rule }],
            user_ids,
            facts,
            u,
        ),
{
    let other = GroupFilterRuleDto { criteria_type: GroupFilterCriteriaType::IsNot, ..rule };
    assert(record_count(other, facts) == record_count(rule, facts));
    assert(record_user(other, facts, i) == u);
    assert(record_matches(other, facts, i) == record_matches(rule, facts, i));
    if rule_rejects(rule, facts, u) {
        let j = choose|j: int|
            0 <= j < record_count(rule, facts) && #[trigger] record_user(rule, facts, j) == u
                && outcome_rejects(rule.criteria_type, record_matches(rule, facts, j));
        assert(j == i);
    }
    if rule_rejects(other, facts, u) {
        let j = choose|j: int|
            0 <= j < record_count(other, facts) && #[trigger] record_user(other, facts, j) == u
                && outcome_rejects(other.criteria_type, record_matches(other, facts, j));
        assert(record_user(rule, facts, j) == u);
        assert(j == i);
    }
    if !rule_rejects(rule, facts, u) {
        assert(!outcome_rejects(rule.criteria_type, record_matches(rule, facts, i)));
        assert(rule_rejects_upto(other, facts, u, record_count(other, facts)));
    }
    assert(seq![rule][0] == rule);
    assert(seq![other][0] == other);
}

/// Whether a rule can be evaluated.
pub fn filter_rule_is_valid(rule: &GroupFilterRuleDto) -> (r: bool)
    ensures
        r == rule_value_valid(*rule),
{
    match rule.criteria {
        GroupFilterCriteria::Role => {
            proof {
                reveal_strlit("CEO");
                reveal_strlit("Executor");
            }
            same_text(rule.criteria_value.as_str(), "CEO") || same_text(
                rule.criteria_value.as_str(),
                "Executor",
            )
        },
        _ => parse_i32(rule.criteria_value.as_str()).is_some(),
    }
}

/// Whether every rule of the sequence can be evaluated.
pub fn filter_rules_are_valid(rules: &Vec<GroupFilterRuleDto>) -> (r: bool)
    ensures
        r == rules_valid(rules@),
{
    let mut k: usize = 0;
    while k < rules.len()
        invariant
            k <= rules@.len(),
            forall|q: int| 0 <= q < k ==> rule_value_valid(#[trigger] rules@[q]),
        decreases rules.len() - k,
    {
        if !filter_rule_is_valid(&rules[k]) {
            return false;
        }
        k = k + 1;
    }
    true
}

/// Why a group's filters were refused.
#[derive(Clone, Copy, Debug, PartialEq, Eq, Structural)]
pub enum FilterRuleError {
    /// A rule of the group's own rules names no valid id or role.
    InvalidRule,
    /// A rule of the nested rule set at this position names no valid id or role.
    InvalidFilterGroupRule(usize),
}

/// Accepts a new group's filters only where every rule can be evaluated.
pub fn validate_group_filters(new_group: &NewGroupDto) -> (r: Result<(), FilterRuleError>)
    ensures
        r is Ok <==> (rules_valid(new_group.filter_rules@) && forall|g: int|
            0 <= g < new_group.filter_groups@.len() ==> rules_valid(
                #[trigger] new_group.filter_groups@[g].rules@,
            )),
        (r matches Err(FilterRuleError::InvalidRule)) <==> !rules_valid(new_group.filter_rules@),
        r matches Err(FilterRuleError::InvalidFilterGroupRule(g)) ==> g
            < new_group.filter_groups@.len() && !rules_valid(
            new_group.filter_groups@[g as int].rules@,
        ) && forall|q: int|
            0 <= q < g ==> rules_valid(#[trigger] new_group.filter_groups@[q].rules@),
{
    if !filter_rules_are_valid(&new_group.filter_rules) {
        return Err(FilterRuleError::InvalidRule);
    }
    let mut g: usize = 0;
    while g < new_group.filter_groups.len()
        invariant
            g <= new_group.filter_groups@.len(),
            rules_valid(new_group.filter_rules@),
            forall|q: int| 0 <= q < g ==> rules_valid(#[trigger] new_group.filter_groups@[q].rules@),
        decreases new_group.filter_groups.len() - g,
    {
        if !filter_rules_are_valid(&new_group.filter_groups[g].rules) {
            return Err(FilterRuleError::InvalidFilterGroupRule(g));
        }
        g = g + 1;
    }
    Ok(())
}

/// Accepts an update of a group's filters only where every rule can be
/// evaluated, as for a new group with the same filters.
pub fn validate_group_update(update: &UpdateGroupDto) -> (r: Result<(), FilterRuleError>)
    ensures
        ({
            let own = updated_rules(update.filter_rules@);
            &&& r is Ok <==> (rules_valid(own) && forall|g: int|
                0 <= g < update.filter_groups@.len() ==> rules_valid(
                    #[trigger] updated_rules(update.filter_groups@[g].rules@),
                ))
            &&& (r matches Err(FilterRuleError::InvalidRule)) <==> !rules_valid(own)
            &&& r matches Err(FilterRuleError::InvalidFilterGroupRule(g)) ==> g
                < update.filter_groups@.len() && !rules_valid(
                updated_rules(update.filter_groups@[g as int].rules@),
            ) && forall|q: int|
                0 <= q < g ==> rules_valid(
                    #[trigger] updated_rules(update.filter_groups@[q].rules@),
                )
        }),
{
    let as_new = update.to_new_group();
    let r = validate_group_filters(&as_new);
    proof {
        assert forall|g: int| 0 <= g < update.filter_groups@.len() implies #[trigger] updated_rules(update.filter_groups@[g].rules@) == as_new.filter_groups@[g].rules@ by {
            assert(as_new.filter_groups@[g].rules@ == updated_rules(update.filter_groups@[g].rules@));
        }
    }
    r
}

} // verus!
