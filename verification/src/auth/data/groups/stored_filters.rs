//! The rows a group's filters are stored as, and reading them back.

use vstd::prelude::*;

use crate::auth::data::groups::filters::{shows_rule_set, spec_rule_dto, stored_rules, stored_sets};
use crate::auth::model::groups::{
    group_filter_type_of, lemma_group_filter_criteria_round_trip,
    lemma_group_filter_criteria_type_round_trip, lemma_group_filter_type_round_trip,
    stored_group_filter_criteria, stored_group_filter_criteria_type, stored_group_filter_type,
    GroupFilterGroupDto, GroupFilterRuleDto, NewGroupDto,
};
use crate::entity::auth_group::Model as GroupRow;
use crate::entity::auth_group_filter_group::Model as FilterGroupRow;
use crate::entity::auth_group_filter_rule::Model as FilterRuleRow;

verus! {

/// The rows that storing `rules` writes for group `group_id` in the rule
/// set `set` (`None`: the group's own rules), the `i`-th rule getting the
/// id `ids[i]`.
pub open spec fn written_rule_rows(
    group_id: i32,
    set: Option<i32>,
    rules: Seq<GroupFilterRuleDto>,
    ids: Seq<i32>,
) -> Seq<FilterRuleRow> {
    Seq::new(
        rules.len(),
        |i: int|
            FilterRuleRow {
                id: ids[i],
                group_id,
                filter_group_id: set,
                criteria: stored_group_filter_criteria(rules[i].criteria),
                criteria_type: stored_group_filter_criteria_type(rules[i].criteria_type),
                criteria_value: rules[i].criteria_value,
            },
    )
}

/// The rows that storing the nested rule sets writes for group `group_id`,
/// the `k`-th set getting the id `set_ids[k]`.
pub open spec fn written_set_rows(
    group_id: i32,
    sets: Seq<GroupFilterGroupDto>,
    set_ids: Seq<i32>,
) -> Seq<FilterGroupRow> {
    Seq::new(
        sets.len(),
        |k: int|
            FilterGroupRow {
                id: set_ids[k],
                group_id,
                filter_type: stored_group_filter_type(sets[k].filter_type),
            },
    )
}

/// The rule rows of the first `k` nested rule sets, set after set, the
/// rules of the `j`-th set getting the ids `rule_ids[j]`.
pub open spec fn written_set_rule_rows(
    group_id: i32,
    sets: Seq<GroupFilterGroupDto>,
    set_ids: Seq<i32>,
    rule_ids: Seq<Seq<i32>>,
    k: int,
) -> Seq<FilterRuleRow>
    decreases k,
{
    if k <= 0 {
        Seq::empty()
    } else {
        written_set_rule_rows(group_id, sets, set_ids, rule_ids, k - 1) + written_rule_rows(
            group_id,
            Some(set_ids[k - 1]),
            sets[k - 1].rules@,
            rule_ids[k - 1],
        )
    }
}

proof fn lemma_filter_map_add<A, B>(a: Seq<A>, b: Seq<A>, f: spec_fn(A) -> Option<B>)
    ensures
        (a + b).filter_map(f) == a.filter_map(f) + b.filter_map(f),
    decreases b.len(),
{
    if b.len() == 0 {
        assert(a + b =~= a);
        assert(a.filter_map(f) + b.filter_map(f) =~= a.filter_map(f));
    } else {
        lemma_filter_map_add(a, b.drop_last(), f);
        assert((a + b).drop_last() =~= a + b.drop_last());
        assert((a + b).last() == b.last());
        match f(b.last()) {
            Some(s) => {
                assert(a.filter_map(f) + b.drop_last().filter_map(f) + seq![s] =~= a.filter_map(f) + (
                b.drop_last().filter_map(f) + seq![s]));
            },
            None => {},
        }
    }
}

/// The rules written for one rule set are what reading that rule set gives,
/// and reading any other rule set finds none of them.
proof fn lemma_written_rules_read(
    group_id: i32,
    set: Option<i32>,
    rules: Seq<GroupFilterRuleDto>,
    ids: Seq<i32>,
    query: Option<i32>,
)
    ensures
        stored_rules(written_rule_rows(group_id, set, rules, ids), group_id, query) == (if set
            == query {
            rules
        } else {
            Seq::<GroupFilterRuleDto>::empty()
        }),
    decreases rules.len(),
{
    let rows = written_rule_rows(group_id, set, rules, ids);
    if rules.len() == 0 {
        assert(rows =~= Seq::<FilterRuleRow>::empty());
        assert(rules =~= Seq::<GroupFilterRuleDto>::empty());
    } else {
        lemma_written_rules_read(group_id, set, rules.drop_last(), ids, query);
        assert(rows.drop_last() =~= written_rule_rows(group_id, set, rules.drop_last(), ids));
        let last = rules.last();
        lemma_group_filter_criteria_round_trip(last.criteria, rows.last().criteria);
        lemma_group_filter_criteria_type_round_trip(last.criteria_type, rows.last().criteria_type);
        assert(spec_rule_dto(rows.last()) == last);
        if set == query {
            assert(rules.drop_last() + seq![last] =~= rules);
        }
    }
}

/// Reading a nested rule set's rules out of the rule rows of the first `k`
/// sets finds the rules written for it, and nothing for the group's own
/// rules or for an id no set was given.
proof fn lemma_set_rules_read(
    group_id: i32,
    sets: Seq<GroupFilterGroupDto>,
    set_ids: Seq<i32>,
    rule_ids: Seq<Seq<i32>>,
    k: int,
    query: Option<i32>,
)
    requires
        0 <= k <= sets.len(),
        k <= set_ids.len(),
        set_ids.no_duplicates(),
    ensures
        (forall|j: int| 0 <= j < k ==> query != Some(set_ids[j])) ==> stored_rules(
            written_set_rule_rows(group_id, sets, set_ids, rule_ids, k),
            group_id,
            query,
        ) == Seq::<GroupFilterRuleDto>::empty(),
        forall|j: int|
            0 <= j < k && query == Some(#[trigger] set_ids[j]) ==> stored_rules(
                written_set_rule_rows(group_id, sets, set_ids, rule_ids, k),
                group_id,
                query,
            ) == sets[j].rules@,
    decreases k,
{
    if k > 0 {
        lemma_set_rules_read(group_id, sets, set_ids, rule_ids, k - 1, query);
        let earlier = written_set_rule_rows(group_id, sets, set_ids, rule_ids, k - 1);
        let block = written_rule_rows(
            group_id,
            Some(set_ids[k - 1]),
            sets[k - 1].rules@,
            rule_ids[k - 1],
        );
        lemma_filter_map_add(
            earlier,
            block,
            |r: FilterRuleRow|
                if r.group_id == group_id && r.filter_group_id == query {
                    Some(spec_rule_dto(r))
                } else {
                    None
                },
        );
        lemma_written_rules_read(
            group_id,
            Some(set_ids[k - 1]),
            sets[k - 1].rules@,
            rule_ids[k - 1],
            query,
        );
        if query == Some(set_ids[k - 1]) {
            assert forall|j: int| 0 <= j < k - 1 implies query != Some(set_ids[j]) by {
                assert(set_ids[j] != set_ids[k - 1]);
            }
            assert(Seq::<GroupFilterRuleDto>::empty() + sets[k - 1].rules@ =~= sets[k - 1].rules@);
        } else {
            assert(stored_rules(earlier, group_id, query) + Seq::<GroupFilterRuleDto>::empty()
                =~= stored_rules(earlier, group_id, query));
        }
    }
}

proof fn lemma_sets_of_group(rows: Seq<FilterGroupRow>, group_id: i32)
    requires
        forall|i: int| 0 <= i < rows.len() ==> #[trigger] rows[i].group_id == group_id,
    ensures
        stored_sets(rows, group_id) == rows,
    decreases rows.len(),
{
    if rows.len() == 0 {
        assert(stored_sets(rows, group_id) =~= rows);
    } else {
        lemma_sets_of_group(rows.drop_last(), group_id);
        assert(rows.drop_last() + seq![rows.last()] =~= rows);
    }
}

/// Filters read back as they were written: after a new group's filters are
/// stored (each nested rule set with its rules, then the group's own
/// rules), the group's own rules, its nested rule sets and each set's rules
/// and type read back as they were given, whatever ids the rows received,
/// as long as the nested rule sets received distinct ids.
pub proof fn lemma_written_filters_read_back(
    group: GroupRow,
    new_group: NewGroupDto,
    set_ids: Seq<i32>,
    top_rule_ids: Seq<i32>,
    set_rule_ids: Seq<Seq<i32>>,
)
    requires
        group.filter_type == stored_group_filter_type(new_group.filter_type),
        set_ids.len() == new_group.filter_groups@.len(),
        set_ids.no_duplicates(),
    ensures
        ({
            let sets = new_group.filter_groups@;
            let set_rows = written_set_rows(group.id, sets, set_ids);
            let rule_rows = written_set_rule_rows(
                group.id,
                sets,
                set_ids,
                set_rule_ids,
                sets.len() as int,
            ) + written_rule_rows(group.id, None, new_group.filter_rules@, top_rule_ids);
            &&& group_filter_type_of(group.filter_type) == new_group.filter_type
            &&& stored_rules(rule_rows, group.id, None) == new_group.filter_rules@
            &&& stored_sets(set_rows, group.id).len() == sets.len()
            &&& forall|k: int|
                0 <= k < sets.len() ==> shows_rule_set(
                    #[trigger] sets[k],
                    stored_sets(set_rows, group.id)[k],
                    rule_rows,
                    group.id,
                )
        }),
{
    let sets = new_group.filter_groups@;
    let n = sets.len() as int;
    let set_rows = written_set_rows(group.id, sets, set_ids);
    let set_part = written_set_rule_rows(group.id, sets, set_ids, set_rule_ids, n);
    let top_part = written_rule_rows(group.id, None, new_group.filter_rules@, top_rule_ids);
    let rule_rows = set_part + top_part;
    lemma_group_filter_type_round_trip(new_group.filter_type, group.filter_type);
    lemma_sets_of_group(set_rows, group.id);
    lemma_filter_map_add(
        set_part,
        top_part,
        |r: FilterRuleRow|
            if r.group_id == group.id && r.filter_group_id == None::<i32> {
                Some(spec_rule_dto(r))
            } else {
                None
            },
    );
    lemma_set_rules_read(group.id, sets, set_ids, set_rule_ids, n, None);
    lemma_written_rules_read(group.id, None, new_group.filter_rules@, top_rule_ids, None);
    assert(Seq::<GroupFilterRuleDto>::empty() + new_group.filter_rules@ =~= new_group.filter_rules@);
    assert forall|k: int| 0 <= k < n implies shows_rule_set(
        #[trigger] sets[k],
        stored_sets(set_rows, group.id)[k],
        rule_rows,
        group.id,
    ) by {
        let query = Some(set_ids[k]);
        lemma_group_filter_type_round_trip(sets[k].filter_type, set_rows[k].filter_type);
        lemma_filter_map_add(
            set_part,
            top_part,
            |r: FilterRuleRow|
                if r.group_id == group.id && r.filter_group_id == query {
                    Some(spec_rule_dto(r))
                } else {
                    None
                },
        );
        lemma_set_rules_read(group.id, sets, set_ids, set_rule_ids, n, query);
        lemma_written_rules_read(group.id, None, new_group.filter_rules@, top_rule_ids, query);
        assert(sets[k].rules@ + Seq::<GroupFilterRuleDto>::empty() =~= sets[k].rules@);
    }
}

} // verus!
