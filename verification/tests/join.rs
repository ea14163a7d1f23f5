use black_rose_auth_api::auth::data::groups::filters::{
    eligible_members, validate_group_filters, FilterRuleError, MembershipFacts,
};
use black_rose_auth_api::auth::data::groups::members::add_group_members;
use black_rose_auth_api::auth::data::groups::GroupError;
use black_rose_auth_api::auth::model::groups::{
    GroupFilterCriteria, GroupFilterCriteriaType, GroupFilterGroupDto, GroupFilterRuleDto,
    GroupFilterType, GroupFilters, GroupType, NewGroupDto,
};
use black_rose_auth_api::auth::model::user::{UserAffiliation, UserGroups};
use black_rose_auth_api::entity::auth_group::Model as Group;
use black_rose_auth_api::entity::sea_orm_active_enums;

const ELIGIBLE_USER: i32 = 1;
const INELIGIBLE_USER: i32 = 2;

/// What the stores know of the two test users: "Elite Drake Pilot"
/// (2118500443) flies for corporation 98755820 in alliance 99012770 and is
/// its CEO and the alliance's executor; "Rytsuki's Proctologist"
/// (2122013871) is in corporation 1000167 without an alliance.
fn pilot_facts(groups_of_eligible: Vec<i32>) -> MembershipFacts {
    MembershipFacts {
        user_groups: vec![
            UserGroups { user_id: ELIGIBLE_USER, groups: groups_of_eligible },
            UserGroups { user_id: INELIGIBLE_USER, groups: vec![] },
        ],
        user_affiliations: vec![
            UserAffiliation {
                user_id: ELIGIBLE_USER,
                characters: vec![2118500443],
                corporations: vec![98755820],
                alliances: vec![99012770],
            },
            UserAffiliation {
                user_id: INELIGIBLE_USER,
                characters: vec![2122013871],
                corporations: vec![1000167],
                alliances: vec![],
            },
        ],
        ceo_ids: vec![2118500443],
        executor_ids: vec![2118500443],
    }
}

fn rule(
    criteria: GroupFilterCriteria,
    criteria_type: GroupFilterCriteriaType,
    value: &str,
) -> GroupFilterRuleDto {
    GroupFilterRuleDto { criteria, criteria_type, criteria_value: value.to_string() }
}

fn new_group(name: &str, description: &str, filter_type: GroupFilterType, rules: Vec<GroupFilterRuleDto>) -> NewGroupDto {
    NewGroupDto {
        name: name.to_string(),
        confidential: false,
        description: Some(description.to_string()),
        leave_applications: false,
        group_type: GroupType::Open,
        filter_type,
        filter_rules: rules,
        filter_groups: vec![],
    }
}

fn stored_group(id: i32, group: &NewGroupDto) -> Group {
    Group {
        id,
        name: group.name.clone(),
        description: group.description.clone(),
        confidential: group.confidential,
        leave_applications: group.leave_applications,
        group_type: group.group_type.into(),
        filter_type: group.filter_type.into(),
    }
}

fn filters_of(id: i32, group: NewGroupDto) -> GroupFilters {
    GroupFilters {
        id,
        filter_type: group.filter_type,
        filter_rules: group.filter_rules,
        filter_groups: group.filter_groups,
    }
}

/// The facts about the given users only, as the stores answer when asked
/// about them.
fn facts_about(facts: &MembershipFacts, user_ids: &[i32]) -> MembershipFacts {
    MembershipFacts {
        user_groups: facts
            .user_groups
            .iter()
            .filter(|g| user_ids.contains(&g.user_id))
            .map(|g| UserGroups { user_id: g.user_id, groups: g.groups.clone() })
            .collect(),
        user_affiliations: facts
            .user_affiliations
            .iter()
            .filter(|a| user_ids.contains(&a.user_id))
            .map(|a| UserAffiliation {
                user_id: a.user_id,
                characters: a.characters.clone(),
                corporations: a.corporations.clone(),
                alliances: a.alliances.clone(),
            })
            .collect(),
        ceo_ids: facts.ceo_ids.clone(),
        executor_ids: facts.executor_ids.clone(),
    }
}

/// Asks for each user alone, as joining does, and reports who was let in.
fn admitted(group: NewGroupDto, facts: &MembershipFacts, user_id: i32) -> Vec<i32> {
    assert_eq!(validate_group_filters(&group), Ok(()));
    let row = stored_group(7, &group);
    let filters = Some(filters_of(7, group));
    add_group_members(&Some(row), &filters, &vec![user_id], &facts_about(facts, &[user_id])).unwrap()
}

fn accepts_one_rejects_other(group: NewGroupDto) {
    let facts = pilot_facts(vec![]);
    let accepted = admitted(copy_group(&group), &facts, ELIGIBLE_USER);
    let rejected = admitted(group, &facts, INELIGIBLE_USER);
    assert_eq!(accepted, vec![ELIGIBLE_USER], "User rejected when they should be accepted");
    assert!(rejected.is_empty(), "User accepted when they should be rejected");
}

fn copy_group(group: &NewGroupDto) -> NewGroupDto {
        NewGroupDto {
            name: group.name.clone(),
            confidential: group.confidential,
            description: group.description.clone(),
            leave_applications: group.leave_applications,
            group_type: group.group_type,
            filter_type: group.filter_type,
            filter_rules: group
                .filter_rules
                .iter()
                .map(|r| rule(r.criteria, r.criteria_type, &r.criteria_value))
                .collect(),
            filter_groups: group
                .filter_groups
                .iter()
                .map(|g| GroupFilterGroupDto {
                    filter_type: g.filter_type,
                    rules: g
                        .rules
                        .iter()
                        .map(|r| rule(r.criteria, r.criteria_type, &r.criteria_value))
                        .collect(),
                })
                .collect(),
        }
}

#[test]
fn group_type_open() {
    let facts = pilot_facts(vec![]);
    let groups = vec![
        new_group(
            "No Requirements All",
            "No requirements group with all filter",
            GroupFilterType::All,
            vec![],
        ),
        new_group(
            "No Requirements Any",
            "No requirements group with any filter",
            GroupFilterType::Any,
            vec![],
        ),
    ];
    for group in groups {
        let result = admitted(group, &facts, ELIGIBLE_USER);
        assert_eq!(result, vec![ELIGIBLE_USER], "User rejected when they should be accepted");
    }
}

#[test]
fn filter_type_any() {
    accepts_one_rejects_other(new_group(
        "Nocturne or Black Rose Group",
        "Must be in either Black Rose. or Nocturne. to join.",
        GroupFilterType::Any,
        vec![
            rule(GroupFilterCriteria::Alliance, GroupFilterCriteriaType::Is, "99012770"),
            rule(GroupFilterCriteria::Alliance, GroupFilterCriteriaType::Is, "99011657"),
        ],
    ));
}

#[test]
fn filter_type_all() {
    accepts_one_rejects_other(new_group(
        "Alliance & Corp Group",
        "Alliance must be Black Rose. & corporation must be Killers of the Flower Moon",
        GroupFilterType::All,
        vec![
            rule(GroupFilterCriteria::Alliance, GroupFilterCriteriaType::Is, "99012770"),
            rule(GroupFilterCriteria::Corporation, GroupFilterCriteriaType::Is, "98755820"),
        ],
    ));
}

#[test]
fn group_filter() {
    // The eligible user joined the first group, which has no requirements.
    let group_1 = new_group("No Requirements", "No requirements group", GroupFilterType::Any, vec![]);
    let joined = admitted(group_1, &pilot_facts(vec![]), ELIGIBLE_USER);
    assert_eq!(joined, vec![ELIGIBLE_USER]);
    let group_1_id = 7;
    let facts = pilot_facts(vec![group_1_id]);
    let group_2 = new_group(
        "No Requirements",
        "No requirements group",
        GroupFilterType::Any,
        vec![rule(GroupFilterCriteria::Group, GroupFilterCriteriaType::Is, &group_1_id.to_string())],
    );
    let accepted = admitted(copy_group(&group_2), &facts, ELIGIBLE_USER);
    let rejected = admitted(group_2, &facts, INELIGIBLE_USER);
    assert_eq!(accepted, vec![ELIGIBLE_USER], "User rejected when they should be accepted");
    assert!(rejected.is_empty(), "User accepted when they should be rejected");
}

#[test]
fn corp_filter() {
    accepts_one_rejects_other(new_group(
        "Corporation Group",
        "Must be in required corporation to join",
        GroupFilterType::All,
        vec![rule(GroupFilterCriteria::Corporation, GroupFilterCriteriaType::Is, "98755820")],
    ));
}

#[test]
fn alliance_filter() {
    accepts_one_rejects_other(new_group(
        "Corporation CEO Group",
        "Must be in required alliance to join",
        GroupFilterType::All,
        vec![rule(GroupFilterCriteria::Alliance, GroupFilterCriteriaType::Is, "99012770")],
    ));
}

#[test]
fn ceo_filter() {
    accepts_one_rejects_other(new_group(
        "Corporation CEO Group",
        "Must be a corporation CEO to join",
        GroupFilterType::All,
        vec![rule(GroupFilterCriteria::Role, GroupFilterCriteriaType::Is, "CEO")],
    ));
}

#[test]
fn executor_filter() {
    let group = new_group(
        "Alliance Executor Group",
        "Must be an alliance executor to join",
        GroupFilterType::Any,
        vec![rule(GroupFilterCriteria::Role, GroupFilterCriteriaType::Is, "Executor")],
    );
    let result = admitted(group, &pilot_facts(vec![]), ELIGIBLE_USER);
    assert_eq!(result, vec![ELIGIBLE_USER], "User rejected when they should be accepted");
}

#[test]
fn join_group() {
    let facts = pilot_facts(vec![]);
    let open = new_group("No requirements group", "No requirements to join", GroupFilterType::All, vec![]);
    assert_eq!(admitted(open, &facts, ELIGIBLE_USER), vec![ELIGIBLE_USER]);
    let black_rose = NewGroupDto {
        filter_groups: vec![GroupFilterGroupDto {
            filter_type: GroupFilterType::Any,
            rules: vec![rule(GroupFilterCriteria::Role, GroupFilterCriteriaType::Is, "Executor")],
        }],
        ..new_group(
            "Black Rose. group",
            "Open group requires you to be in Black Rose to join",
            GroupFilterType::All,
            vec![
                rule(GroupFilterCriteria::Alliance, GroupFilterCriteriaType::Is, "99012770"),
                rule(GroupFilterCriteria::Corporation, GroupFilterCriteriaType::Is, "98755820"),
            ],
        )
    };
    assert_eq!(admitted(copy_group(&black_rose), &facts, ELIGIBLE_USER), vec![ELIGIBLE_USER]);
    assert!(admitted(black_rose, &facts, INELIGIBLE_USER).is_empty());
}

#[test]
fn add_members_to_missing_group_is_refused() {
    let facts = pilot_facts(vec![]);
    let result = add_group_members(&None, &None, &vec![ELIGIBLE_USER], &facts);
    assert_eq!(result.err(), Some(GroupError::GroupDoesNotExist));
}

#[test]
fn is_not_rule_rejects_members_of_the_alliance() {
    let facts = pilot_facts(vec![]);
    let group = new_group(
        "Not Black Rose",
        "Anyone outside Black Rose.",
        GroupFilterType::All,
        vec![rule(GroupFilterCriteria::Alliance, GroupFilterCriteriaType::IsNot, "99012770")],
    );
    let filters = Some(filters_of(3, group));
    let mut both = eligible_members(&filters, &vec![ELIGIBLE_USER, INELIGIBLE_USER], &facts);
    both.sort();
    assert_eq!(both, vec![INELIGIBLE_USER]);
}

#[test]
fn is_and_is_not_split_the_users() {
    // Every user with a record lands on exactly one side of a rule and its
    // negation.
    let facts = pilot_facts(vec![]);
    let users = vec![ELIGIBLE_USER, INELIGIBLE_USER];
    for criteria_type in [GroupFilterCriteriaType::Is, GroupFilterCriteriaType::IsNot] {
        let group = new_group(
            "Corp",
            "Corporation rule",
            GroupFilterType::All,
            vec![rule(GroupFilterCriteria::Corporation, criteria_type, "98755820")],
        );
        let members = eligible_members(&Some(filters_of(4, group)), &users, &facts);
        let expected = if criteria_type == GroupFilterCriteriaType::Is {
            vec![ELIGIBLE_USER]
        } else {
            vec![INELIGIBLE_USER]
        };
        assert_eq!(members, expected);
    }
}

#[test]
fn adding_a_rule_to_an_all_set_never_admits_more() {
    let facts = pilot_facts(vec![]);
    let users = vec![ELIGIBLE_USER, INELIGIBLE_USER];
    let one = new_group(
        "Role",
        "CEOs",
        GroupFilterType::All,
        vec![rule(GroupFilterCriteria::Role, GroupFilterCriteriaType::IsNot, "CEO")],
    );
    let two = new_group(
        "Role",
        "CEOs",
        GroupFilterType::All,
        vec![
            rule(GroupFilterCriteria::Role, GroupFilterCriteriaType::IsNot, "CEO"),
            rule(GroupFilterCriteria::Alliance, GroupFilterCriteriaType::Is, "99012770"),
        ],
    );
    let before = eligible_members(&Some(filters_of(5, one)), &users, &facts);
    let after = eligible_members(&Some(filters_of(5, two)), &users, &facts);
    assert_eq!(before, vec![INELIGIBLE_USER]);
    assert!(after.is_empty());
    assert!(after.iter().all(|u| before.contains(u)));
}

#[test]
fn members_are_among_the_users_asked_about() {
    let facts = pilot_facts(vec![]);
    let group = new_group(
        "Alliance",
        "Alliance",
        GroupFilterType::All,
        vec![rule(GroupFilterCriteria::Alliance, GroupFilterCriteriaType::Is, "99012770")],
    );
    let members = eligible_members(&Some(filters_of(6, group)), &vec![INELIGIBLE_USER], &facts);
    assert!(members.is_empty());
}

#[test]
fn invalid_rule_values_are_refused() {
    let bad_id = new_group(
        "Bad",
        "Bad id",
        GroupFilterType::All,
        vec![rule(GroupFilterCriteria::Corporation, GroupFilterCriteriaType::Is, "9875x")],
    );
    assert_eq!(validate_group_filters(&bad_id), Err(FilterRuleError::InvalidRule));
    let bad_role = NewGroupDto {
        filter_groups: vec![
            GroupFilterGroupDto {
                filter_type: GroupFilterType::Any,
                rules: vec![rule(GroupFilterCriteria::Role, GroupFilterCriteriaType::Is, "CEO")],
            },
            GroupFilterGroupDto {
                filter_type: GroupFilterType::Any,
                rules: vec![rule(GroupFilterCriteria::Role, GroupFilterCriteriaType::Is, "Director")],
            },
        ],
        ..new_group("Bad", "Bad role", GroupFilterType::All, vec![])
    };
    assert_eq!(validate_group_filters(&bad_role), Err(FilterRuleError::InvalidFilterGroupRule(1)));
}

#[test]
fn stored_enums_round_trip() {
    for t in [GroupFilterType::All, GroupFilterType::Any] {
        let stored: sea_orm_active_enums::GroupFilterType = t.into();
        assert_eq!(GroupFilterType::from(stored), t);
    }
    for c in [
        GroupFilterCriteria::Group,
        GroupFilterCriteria::Corporation,
        GroupFilterCriteria::Alliance,
        GroupFilterCriteria::Role,
    ] {
        let stored: sea_orm_active_enums::GroupFilterCriteria = c.into();
        assert_eq!(GroupFilterCriteria::from(stored), c);
    }
}

#[test]
fn an_empty_nested_all_set_admits_everyone_into_an_any_group() {
    // Own rule: be a CEO; nested: an `All` set without rules.
    let facts = pilot_facts(vec![]);
    let group = NewGroupDto {
        filter_groups: vec![GroupFilterGroupDto { filter_type: GroupFilterType::All, rules: vec![] }],
        ..new_group(
            "CEOs or anyone",
            "CEO rule beside an empty nested set",
            GroupFilterType::Any,
            vec![rule(GroupFilterCriteria::Role, GroupFilterCriteriaType::Is, "CEO")],
        )
    };
    assert_eq!(admitted(group, &facts, INELIGIBLE_USER), vec![INELIGIBLE_USER]);
}

#[test]
fn an_empty_nested_any_set_keeps_everyone_out_of_an_all_group() {
    let facts = pilot_facts(vec![]);
    let group = NewGroupDto {
        filter_groups: vec![GroupFilterGroupDto { filter_type: GroupFilterType::Any, rules: vec![] }],
        ..new_group("Nobody", "Empty nested any set", GroupFilterType::All, vec![])
    };
    assert!(admitted(group, &facts, ELIGIBLE_USER).is_empty());
}

#[test]
fn an_existing_group_always_answers_with_its_members() {
    let facts = pilot_facts(vec![]);
    let group = new_group(
        "Alliance",
        "Alliance",
        GroupFilterType::All,
        vec![rule(GroupFilterCriteria::Alliance, GroupFilterCriteriaType::Is, "99012770")],
    );
    let row = stored_group(9, &group);
    let result = add_group_members(&Some(row), &Some(filters_of(9, group)), &vec![INELIGIBLE_USER], &facts_about(&facts, &[INELIGIBLE_USER]));
    assert_eq!(result, Ok(vec![]));
}
