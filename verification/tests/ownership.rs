use black_rose_auth_api::auth::data::user::{
    get_user_main_character, update_ownership, update_user_main, OwnershipChange,
};
use black_rose_auth_api::entity::auth_user_character_ownership::Model as Ownership;

fn row(id: i32, user_id: i32, character_id: i32, ownerhash: &str, main: bool) -> Ownership {
    Ownership { id, user_id, character_id, ownerhash: ownerhash.to_string(), main }
}

fn rows_of(table: &[Ownership], user_id: i32) -> Vec<Ownership> {
    table.iter().filter(|r| r.user_id == user_id).cloned().collect()
}

/// Logs in as `character_id` for `user_id` against the table, writes the
/// planned change and returns the new table.
fn log_in(table: &[Ownership], user_id: i32, character_id: i32, ownerhash: &str) -> Vec<Ownership> {
    let existing = table.iter().find(|r| r.character_id == character_id).cloned();
    let owner_rows = match &existing {
        Some(e) => rows_of(table, e.user_id),
        None => vec![],
    };
    let change = update_ownership(
        user_id,
        character_id,
        ownerhash.to_string(),
        existing,
        &owner_rows,
        &rows_of(table, user_id),
    );
    let mut after: Vec<Ownership> = table.to_vec();
    match change {
        OwnershipChange::Unchanged(_) => {}
        OwnershipChange::Transfer { promote, updated } => {
            for r in after.iter_mut() {
                if let Some(p) = &promote {
                    if r.id == p.id {
                        *r = p.clone();
                    }
                }
                if r.id == updated.id {
                    *r = updated.clone();
                }
            }
        }
        OwnershipChange::Create(n) => after.push(Ownership {
            id: 1000 + after.len() as i32,
            user_id: n.user_id,
            character_id: n.character_id,
            ownerhash: n.ownerhash,
            main: n.main,
        }),
    }
    after
}

fn mains_of(table: &[Ownership], user_id: i32) -> Vec<i32> {
    table.iter().filter(|r| r.user_id == user_id && r.main).map(|r| r.character_id).collect()
}

#[test]
fn a_first_character_becomes_main() {
    let table = log_in(&[], 1, 2118500443, "a");
    assert_eq!(table.len(), 1);
    assert_eq!(mains_of(&table, 1), vec![2118500443]);
    let table = log_in(&table, 1, 2122013871, "b");
    assert_eq!(mains_of(&table, 1), vec![2118500443]);
    assert_eq!(get_user_main_character(&rows_of(&table, 1)).map(|r| r.character_id), Some(2118500443));
}

#[test]
fn logging_in_again_changes_nothing() {
    let table = vec![row(1, 1, 2118500443, "a", true)];
    let existing = Some(table[0].clone());
    let change = update_ownership(1, 2118500443, "a".to_string(), existing, &table, &table);
    match change {
        OwnershipChange::Unchanged(r) => assert_eq!(r.id, 1),
        _ => panic!("expected no change"),
    }
}

#[test]
fn a_transferred_main_is_replaced_for_its_old_owner() {
    let table = vec![
        row(1, 1, 2118500443, "a", true),
        row(2, 1, 2122013871, "b", false),
        row(3, 2, 2114794365, "c", true),
    ];
    let after = log_in(&table, 2, 2118500443, "new");
    assert_eq!(mains_of(&after, 1), vec![2122013871]);
    assert_eq!(mains_of(&after, 2), vec![2114794365]);
    let moved = after.iter().find(|r| r.character_id == 2118500443).unwrap();
    assert_eq!(moved.user_id, 2);
    assert_eq!(moved.ownerhash, "new");
    assert!(!moved.main);
}

#[test]
fn a_transferred_character_is_main_for_a_user_without_characters() {
    let table = vec![row(1, 1, 2118500443, "a", true), row(2, 1, 2122013871, "b", false)];
    let after = log_in(&table, 5, 2122013871, "z");
    assert_eq!(mains_of(&after, 5), vec![2122013871]);
    assert_eq!(mains_of(&after, 1), vec![2118500443]);
}

#[test]
fn no_user_ever_has_two_mains() {
    let mut table: Vec<Ownership> = vec![];
    let logins = [
        (1, 100, "a"),
        (1, 101, "b"),
        (2, 102, "c"),
        (2, 100, "d"),
        (1, 102, "e"),
        (3, 101, "f"),
        (1, 100, "g"),
        (2, 103, "h"),
    ];
    for (user_id, character_id, hash) in logins {
        table = log_in(&table, user_id, character_id, hash);
        for u in 1..=3 {
            assert!(mains_of(&table, u).len() <= 1);
            if !rows_of(&table, u).is_empty() {
                assert_eq!(mains_of(&table, u).len(), 1);
            }
        }
    }
}

#[test]
fn a_new_owner_hash_for_a_lone_main_drops_the_main_mark() {
    // The one input on which a user can end up without a main.
    let table = vec![row(1, 1, 2118500443, "a", true)];
    let after = log_in(&table, 1, 2118500443, "b");
    assert!(mains_of(&after, 1).is_empty());
}

#[test]
fn switching_the_main_character() {
    let old_main = row(1, 1, 2118500443, "a", true);
    let new_main = row(2, 1, 2122013871, "b", false);
    let (unmarked, marked) = update_user_main(Some(new_main.clone()), Some(old_main.clone())).unwrap();
    assert_eq!(unmarked.id, 1);
    assert!(!unmarked.main);
    assert_eq!(marked.id, 2);
    assert!(marked.main);
    assert!(update_user_main(None, Some(old_main)).is_none());
    assert!(update_user_main(Some(new_main), None).is_none());
}
