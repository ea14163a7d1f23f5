use black_rose_auth_api::auth::data::groups::filters::{
    affiliation_corporation_ids, alliance_executor_ids, corporation_ceo_ids, get_group_filters,
};
use black_rose_auth_api::auth::data::groups::members::get_group_members;
use black_rose_auth_api::auth::data::groups::{delete_group, update_filter_group_ids, update_filter_rule_ids};
use black_rose_auth_api::auth::data::user::{bulk_get_user_affiliations, bulk_get_user_groups};
use black_rose_auth_api::auth::model::user::UserAffiliation;
use black_rose_auth_api::auth::model::groups::{
    GroupFilterCriteria, GroupFilterCriteriaType, GroupFilterGroupDto, GroupFilterRuleDto,
    GroupFilterType, UpdateGroupFilterGroupDto,
    UpdateGroupFilterRuleDto,
};
use black_rose_auth_api::clock::Timestamp;
use black_rose_auth_api::entity::auth_group::Model as Group;
use black_rose_auth_api::entity::auth_group_filter_group::Model as FilterGroupRow;
use black_rose_auth_api::entity::auth_group_filter_rule::Model as FilterRuleRow;
use black_rose_auth_api::entity::auth_group_user::Model as Membership;
use black_rose_auth_api::entity::auth_user_character_ownership::Model as Ownership;
use black_rose_auth_api::entity::eve_alliance::Model as Alliance;
use black_rose_auth_api::entity::eve_character::Model as Character;
use black_rose_auth_api::entity::eve_corporation::Model as Corporation;
use black_rose_auth_api::entity::sea_orm_active_enums;
use black_rose_auth_api::eve::data::character::{
    affiliations_are_known, bulk_get_character_affiliations, character_corporation_ids,
    corporation_alliance_ids,
};
use black_rose_auth_api::eve::model::character::CharacterAffiliationDto;
use black_rose_auth_api::eve::service::affiliation;
use black_rose_auth_api::eve::service::affiliation::CharacterAffiliation;

fn now() -> Timestamp {
    Timestamp { secs: 1_700_000_000, nanos: 0 }
}

fn character(id: i32, character_id: i32, name: &str, corporation_id: i32) -> Character {
    Character { id, character_id, character_name: name.to_string(), corporation_id, last_updated: now() }
}

fn corporation(corporation_id: i32, name: &str, alliance_id: Option<i32>, ceo: i32) -> Corporation {
    Corporation {
        id: corporation_id % 1000,
        corporation_id,
        corporation_name: name.to_string(),
        alliance_id,
        ceo,
        last_updated: now(),
    }
}

#[test]
fn update_affiliation() {
    // Hyziri moved from Black Rose Inc. to C C P.
    let hyziri = character(1, 2114794365, "Hyziri", 98755360);
    let reported = vec![CharacterAffiliation {
        character_id: 2114794365,
        corporation_id: 109299958,
        alliance_id: None,
        faction_id: None,
    }];
    let updates = affiliation::update_affiliation(&vec![hyziri], &reported);
    assert_eq!(updates, vec![(1, 109299958)]);
    assert_ne!(98755360, updates[0].1);
}

#[test]
fn unreported_characters_keep_their_corporation() {
    let updates = affiliation::update_affiliation(&vec![character(1, 2114794365, "Hyziri", 98755360)], &vec![]);
    assert!(updates.is_empty());
}

#[test]
fn characters_are_joined_with_corporations_and_alliances() {
    let characters = vec![
        character(1, 2118500443, "Elite Drake Pilot", 98755820),
        character(2, 180548812, "CCP Hellmar", 109299958),
    ];
    let corporations = vec![
        corporation(98755820, "Killers of the Flower Moon", Some(99012770), 2118500443),
        corporation(109299958, "C C P", None, 180548812),
    ];
    let alliances = vec![Alliance {
        id: 1,
        alliance_id: 99012770,
        alliance_name: "Black Rose.".to_string(),
        executor: Some(98755820),
    }];
    let mut corp_ids = character_corporation_ids(&characters);
    corp_ids.sort();
    assert_eq!(corp_ids, vec![98755820, 109299958]);
    assert_eq!(corporation_alliance_ids(&corporations), vec![99012770]);
    assert!(affiliations_are_known(&characters, &corporations, &alliances));
    let joined = bulk_get_character_affiliations(&characters, &corporations, &alliances);
    assert_eq!(joined.len(), 2);
    assert_eq!(joined[0].character_name, "Elite Drake Pilot");
    assert_eq!(joined[0].corporation_name, "Killers of the Flower Moon");
    assert_eq!(joined[0].alliance_id, Some(99012770));
    assert_eq!(joined[0].alliance_name.as_deref(), Some("Black Rose."));
    assert_eq!(joined[1].corporation_id, 109299958);
    assert_eq!(joined[1].alliance_id, None);
    let only_first = vec![corporation(98755820, "Killers of the Flower Moon", Some(99012770), 2118500443)];
    assert!(!affiliations_are_known(&characters, &only_first, &alliances));
    assert!(!affiliations_are_known(&characters, &corporations, &vec![]));
}

fn affiliation_dto(character_id: i32, corporation_id: i32, alliance_id: Option<i32>) -> CharacterAffiliationDto {
    CharacterAffiliationDto {
        character_id,
        character_name: format!("pilot {}", character_id),
        corporation_id,
        corporation_name: format!("corp {}", corporation_id),
        alliance_id,
        alliance_name: alliance_id.map(|a| format!("alliance {}", a)),
    }
}

fn owned(id: i32, user_id: i32, character_id: i32, main: bool) -> Ownership {
    Ownership { id, user_id, character_id, ownerhash: format!("h{}", id), main }
}

#[test]
fn affiliations_are_grouped_by_user() {
    let ownerships = vec![owned(1, 7, 100, true), owned(2, 8, 200, true), owned(3, 7, 300, false)];
    let affiliations = vec![
        affiliation_dto(100, 1, Some(10)),
        affiliation_dto(200, 2, None),
        affiliation_dto(300, 3, Some(30)),
    ];
    let users = bulk_get_user_affiliations(&ownerships, &affiliations);
    assert_eq!(users.len(), 2);
    let seven = users.iter().find(|u| u.user_id == 7).unwrap();
    assert_eq!(seven.characters, vec![100, 300]);
    assert_eq!(seven.corporations, vec![1, 3]);
    assert_eq!(seven.alliances, vec![10, 30]);
    let eight = users.iter().find(|u| u.user_id == 8).unwrap();
    assert_eq!(eight.characters, vec![200]);
    assert!(eight.alliances.is_empty());
}

#[test]
fn memberships_are_grouped_by_user() {
    let memberships = vec![
        Membership { id: 1, group_id: 3, user_id: 7 },
        Membership { id: 2, group_id: 4, user_id: 8 },
        Membership { id: 3, group_id: 5, user_id: 7 },
    ];
    let users = bulk_get_user_groups(&memberships);
    assert_eq!(users.len(), 2);
    assert_eq!(users.iter().find(|u| u.user_id == 7).unwrap().groups, vec![3, 5]);
    assert_eq!(users.iter().find(|u| u.user_id == 8).unwrap().groups, vec![4]);
}

#[test]
fn group_members_are_shown_with_their_main_character() {
    let characters = vec![
        character(1, 2118500443, "Elite Drake Pilot", 98755820),
        character(2, 2122013871, "Rytsuki's Proctologist", 1000167),
    ];
    let mains = vec![owned(1, 7, 2118500443, true)];
    let members = get_group_members(&characters, &mains);
    assert_eq!(members.len(), 1);
    assert_eq!(members[0].id, 7);
    assert_eq!(members[0].character_name, "Elite Drake Pilot");
}

#[test]
fn stored_filters_are_assembled() {
    let group = Group {
        id: 3,
        name: "Black Rose.".to_string(),
        description: None,
        confidential: false,
        leave_applications: false,
        group_type: sea_orm_active_enums::GroupType::Open,
        filter_type: sea_orm_active_enums::GroupFilterType::All,
    };
    let rule = |id: i32, group_id: i32, set: Option<i32>, value: &str| FilterRuleRow {
        id,
        group_id,
        filter_group_id: set,
        criteria: sea_orm_active_enums::GroupFilterCriteria::Alliance,
        criteria_type: sea_orm_active_enums::GroupFilterCriteriaType::Is,
        criteria_value: value.to_string(),
    };
    let rules = vec![
        rule(1, 3, None, "99012770"),
        rule(2, 3, Some(20), "99011657"),
        rule(3, 4, None, "1"),
        rule(4, 3, Some(21), "99000001"),
    ];
    let sets = vec![
        FilterGroupRow { id: 20, group_id: 3, filter_type: sea_orm_active_enums::GroupFilterType::Any },
        FilterGroupRow { id: 30, group_id: 4, filter_type: sea_orm_active_enums::GroupFilterType::Any },
        FilterGroupRow { id: 21, group_id: 3, filter_type: sea_orm_active_enums::GroupFilterType::All },
    ];
    assert!(get_group_filters(None, &rules, &sets).is_none());
    let filters = get_group_filters(Some(group), &rules, &sets).unwrap();
    assert_eq!(filters.id, 3);
    assert_eq!(filters.filter_type, GroupFilterType::All);
    assert_eq!(filters.filter_rules.len(), 1);
    assert_eq!(filters.filter_rules[0].criteria, GroupFilterCriteria::Alliance);
    assert_eq!(filters.filter_rules[0].criteria_type, GroupFilterCriteriaType::Is);
    assert_eq!(filters.filter_rules[0].criteria_value, "99012770");
    assert_eq!(filters.filter_groups.len(), 2);
    assert_eq!(filters.filter_groups[0].filter_type, GroupFilterType::Any);
    assert_eq!(filters.filter_groups[0].rules.len(), 1);
    assert_eq!(filters.filter_groups[0].rules[0].criteria_value, "99011657");
    assert_eq!(filters.filter_groups[1].filter_type, GroupFilterType::All);
    assert_eq!(filters.filter_groups[1].rules[0].criteria_value, "99000001");
}

#[test]
fn updates_name_the_stored_rules_they_keep() {
    let rule = |id: Option<i32>| UpdateGroupFilterRuleDto {
        id,
        criteria: GroupFilterCriteria::Corporation,
        criteria_type: GroupFilterCriteriaType::Is,
        criteria_value: "98755820".to_string(),
    };
    assert_eq!(update_filter_rule_ids(&vec![rule(Some(4)), rule(None), rule(Some(9))]), vec![4, 9]);
    let set = |id: Option<i32>| UpdateGroupFilterGroupDto { id, filter_type: GroupFilterType::Any, rules: vec![] };
    assert_eq!(update_filter_group_ids(&vec![set(None), set(Some(2))]), vec![2]);
}

#[test]
fn deleting_a_group_reports_it_once_a_row_went() {
    assert_eq!(delete_group(5, 1), Some(5));
    assert_eq!(delete_group(5, 0), None);
}

#[test]
fn filters_read_back_as_written() {
    let rule = |criteria, criteria_type, value: &str| GroupFilterRuleDto {
        criteria,
        criteria_type,
        criteria_value: value.to_string(),
    };
    let own = vec![rule(GroupFilterCriteria::Alliance, GroupFilterCriteriaType::Is, "99012770")];
    let sets = vec![
        GroupFilterGroupDto {
            filter_type: GroupFilterType::Any,
            rules: vec![
                rule(GroupFilterCriteria::Role, GroupFilterCriteriaType::Is, "CEO"),
                rule(GroupFilterCriteria::Role, GroupFilterCriteriaType::Is, "Executor"),
            ],
        },
        GroupFilterGroupDto {
            filter_type: GroupFilterType::All,
            rules: vec![rule(GroupFilterCriteria::Corporation, GroupFilterCriteriaType::IsNot, "1000167")],
        },
    ];
    // Rows as storing the group writes them: each set and its rules, then
    // the group's own rules.
    let group_id = 12;
    let set_ids = [40, 41];
    let mut rule_rows = vec![];
    let mut set_rows = vec![];
    let mut next_rule_id = 100;
    for (set, set_id) in sets.iter().zip(set_ids) {
        set_rows.push(FilterGroupRow { id: set_id, group_id, filter_type: set.filter_type.into() });
        for r in &set.rules {
            rule_rows.push(FilterRuleRow {
                id: next_rule_id,
                group_id,
                filter_group_id: Some(set_id),
                criteria: r.criteria.into(),
                criteria_type: r.criteria_type.into(),
                criteria_value: r.criteria_value.clone(),
            });
            next_rule_id += 1;
        }
    }
    for r in &own {
        rule_rows.push(FilterRuleRow {
            id: next_rule_id,
            group_id,
            filter_group_id: None,
            criteria: r.criteria.into(),
            criteria_type: r.criteria_type.into(),
            criteria_value: r.criteria_value.clone(),
        });
        next_rule_id += 1;
    }
    let group = Group {
        id: group_id,
        name: "Leaders".to_string(),
        description: None,
        confidential: false,
        leave_applications: false,
        group_type: sea_orm_active_enums::GroupType::Apply,
        filter_type: sea_orm_active_enums::GroupFilterType::Any,
    };
    let filters = get_group_filters(Some(group), &rule_rows, &set_rows).unwrap();
    assert_eq!(filters.filter_type, GroupFilterType::Any);
    let values = |rules: &Vec<GroupFilterRuleDto>| -> Vec<(GroupFilterCriteria, GroupFilterCriteriaType, String)> {
        rules.iter().map(|r| (r.criteria, r.criteria_type, r.criteria_value.clone())).collect()
    };
    assert_eq!(values(&filters.filter_rules), values(&own));
    assert_eq!(filters.filter_groups.len(), sets.len());
    for (read, written) in filters.filter_groups.iter().zip(&sets) {
        assert_eq!(read.filter_type, written.filter_type);
        assert_eq!(values(&read.rules), values(&written.rules));
    }
}

#[test]
fn role_rules_look_among_ceos_and_executors() {
    let users = vec![
        UserAffiliation {
            user_id: 7,
            characters: vec![100, 300],
            corporations: vec![1, 3],
            alliances: vec![10],
        },
        UserAffiliation {
            user_id: 8,
            characters: vec![200],
            corporations: vec![2],
            alliances: vec![],
        },
    ];
    assert_eq!(affiliation_corporation_ids(&users), vec![1, 3, 2]);
    let corporations = vec![corporation(1, "One", None, 100), corporation(2, "Two", Some(10), 200)];
    assert_eq!(corporation_ceo_ids(&corporations), vec![100, 200]);
    let alliances = vec![
        Alliance { id: 1, alliance_id: 10, alliance_name: "Ten".to_string(), executor: Some(1) },
        Alliance { id: 2, alliance_id: 20, alliance_name: "Twenty".to_string(), executor: None },
    ];
    assert_eq!(alliance_executor_ids(&alliances), vec![1]);
}
