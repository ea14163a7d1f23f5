//! The stored ownerships seen as one table, and what the planned writes do
//! to it: no user ever ends up with two main characters.

use vstd::prelude::*;

use crate::auth::data::user::{first_non_main, spec_plan_ownership_update, OwnershipChange};
use crate::entity::auth_user_character_ownership::Model as UserCharacterOwnership;

verus! {

/// Row ids and character ids each occur once in the table.
pub open spec fn table_wf(table: Seq<UserCharacterOwnership>) -> bool {
    forall|i: int, j: int|
        #![trigger table[i], table[j]]
        0 <= i < table.len() && 0 <= j < table.len() && i != j ==> table[i].id != table[j].id
            && table[i].character_id != table[j].character_id
}

/// No user has two rows marked as main.
pub open spec fn at_most_one_main(table: Seq<UserCharacterOwnership>) -> bool {
    forall|i: int, j: int|
        #![trigger table[i], table[j]]
        0 <= i < table.len() && 0 <= j < table.len() && table[i].main && table[j].main
            && table[i].user_id == table[j].user_id ==> i == j
}

/// User `u` has a row marked as main.
pub open spec fn has_main(table: Seq<UserCharacterOwnership>, u: i32) -> bool {
    exists|j: int| 0 <= j < table.len() && #[trigger] table[j].main && table[j].user_id == u
}

/// Every user who owns a character has a main character.
pub open spec fn main_for_each_owner(table: Seq<UserCharacterOwnership>) -> bool {
    forall|i: int| 0 <= i < table.len() ==> has_main(table, #[trigger] table[i].user_id)
}

/// `rows` lists exactly the rows of user `u`, each once: what the store
/// answers when asked for the user's ownerships.
pub open spec fn lists_rows_of(
    rows: Seq<UserCharacterOwnership>,
    table: Seq<UserCharacterOwnership>,
    u: i32,
) -> bool {
    &&& forall|k: int| 0 <= k < rows.len() ==> #[trigger] rows[k].user_id == u && table.contains(rows[k])
    &&& forall|i: int| 0 <= i < table.len() && #[trigger] table[i].user_id == u ==> rows.contains(table[i])
    &&& forall|k: int, l: int|
        #![trigger rows[k], rows[l]]
        0 <= k < l < rows.len() ==> rows[k].id != rows[l].id
}

/// `existing` is what the store answers when asked for the ownership of
/// character `c`.
pub open spec fn row_of_character(
    existing: Option<UserCharacterOwnership>,
    table: Seq<UserCharacterOwnership>,
    c: i32,
) -> bool {
    match existing {
        None => forall|i: int| 0 <= i < table.len() ==> #[trigger] table[i].character_id != c,
        Some(e) => e.character_id == c && table.contains(e),
    }
}

/// The row that replaces `row` when `update` is written, rows being matched
/// by id.
pub open spec fn written(row: UserCharacterOwnership, update: UserCharacterOwnership) -> UserCharacterOwnership {
    if row.id == update.id {
        update
    } else {
        row
    }
}

/// The table after the planned change is written; a created row gets the
/// id `new_id`. The promoted row is written before the transferred one.
pub open spec fn apply_ownership_change(
    table: Seq<UserCharacterOwnership>,
    change: OwnershipChange,
    new_id: i32,
) -> Seq<UserCharacterOwnership> {
    match change {
        OwnershipChange::Unchanged(_) => table,
        OwnershipChange::Transfer { promote, updated } => Seq::new(
            table.len(),
            |i: int|
                match promote {
                    Some(p) => written(written(table[i], p), updated),
                    None => written(table[i], updated),
                },
        ),
        OwnershipChange::Create(n) => table.push(
            UserCharacterOwnership {
                id: new_id,
                user_id: n.user_id,
                character_id: n.character_id,
                ownerhash: n.ownerhash,
                main: n.main,
            },
        ),
    }
}

/// The table after the user's old main is unmarked and the new one marked,
/// in that order.
pub open spec fn apply_main_switch(
    table: Seq<UserCharacterOwnership>,
    unmarked: UserCharacterOwnership,
    marked: UserCharacterOwnership,
) -> Seq<UserCharacterOwnership> {
    Seq::new(table.len(), |i: int| written(written(table[i], unmarked), marked))
}

proof fn lemma_first_non_main(rows: Seq<UserCharacterOwnership>)
    ensures
        match first_non_main(rows) {
            Some(p) => !p.main && rows.contains(p),
            None => forall|k: int| 0 <= k < rows.len() ==> #[trigger] rows[k].main,
        },
    decreases rows.len(),
{
    if rows.len() > 0 {
        lemma_first_non_main(rows.drop_first());
        if rows[0].main {
            match first_non_main(rows.drop_first()) {
                Some(p) => {
                    let k = choose|k: int| 0 <= k < rows.drop_first().len() && rows.drop_first()[k] == p;
                    assert(rows[k + 1] == p);
                },
                None => {
                    assert forall|k: int| 0 <= k < rows.len() implies #[trigger] rows[k].main by {
                        if k > 0 {
                            assert(rows.drop_first()[k - 1] == rows[k]);
                        }
                    }
                },
            }
        } else {
            assert(rows[0] == rows[0]);
        }
    }
}

/// The rows of a user with at most one main, when there are two or more,
/// include one that is not main.
proof fn lemma_some_non_main(
    rows: Seq<UserCharacterOwnership>,
    table: Seq<UserCharacterOwnership>,
    u: i32,
)
    requires
        at_most_one_main(table),
        lists_rows_of(rows, table, u),
        rows.len() > 1,
    ensures
        first_non_main(rows) is Some,
{
    lemma_first_non_main(rows);
    if first_non_main(rows) is None {
        assert(rows[0].main && rows[1].main);
        assert(rows[0].user_id == u && rows[1].user_id == u);
        assert(table.contains(rows[0]) && table.contains(rows[1]));
        let a = choose|a: int| 0 <= a < table.len() && table[a] == rows[0];
        let b = choose|b: int| 0 <= b < table.len() && table[b] == rows[1];
        assert(rows[0].id != rows[1].id);
        assert(a == b);
    }
}

/// Two rows of the table with different ids and user `u` make the list of
/// `u`'s rows longer than one.
proof fn lemma_two_rows(
    rows: Seq<UserCharacterOwnership>,
    table: Seq<UserCharacterOwnership>,
    u: i32,
    a: int,
    b: int,
)
    requires
        lists_rows_of(rows, table, u),
        0 <= a < table.len(),
        0 <= b < table.len(),
        table[a].user_id == u,
        table[b].user_id == u,
        table[a].id != table[b].id,
    ensures
        rows.len() > 1,
{
    assert(rows.contains(table[a]));
    assert(rows.contains(table[b]));
    let k = choose|k: int| 0 <= k < rows.len() && rows[k] == table[a];
    let l = choose|l: int| 0 <= l < rows.len() && rows[l] == table[b];
    assert(k != l);
}

/// The list of `u`'s rows is empty exactly when `u` owns no row.
proof fn lemma_empty_rows(
    rows: Seq<UserCharacterOwnership>,
    table: Seq<UserCharacterOwnership>,
    u: i32,
)
    requires
        lists_rows_of(rows, table, u),
    ensures
        rows.len() == 0 <==> forall|i: int| 0 <= i < table.len() ==> #[trigger] table[i].user_id != u,
{
    if rows.len() > 0 {
        assert(rows[0].user_id == u);
        assert(table.contains(rows[0]));
    }
    assert forall|i: int| 0 <= i < table.len() && rows.len() == 0 implies #[trigger] table[i].user_id != u by {
        if table[i].user_id == u {
            assert(rows.contains(table[i]));
        }
    }
}

/// Logging in never gives a user a second main character: written to a
/// table where no user has two mains, the planned change keeps it so, and
/// keeps row ids and character ids unique.
pub proof fn lemma_ownership_update_keeps_single_main(
    table: Seq<UserCharacterOwnership>,
    user_id: i32,
    character_id: i32,
    ownerhash: String,
    existing: Option<UserCharacterOwnership>,
    owner_characters: Seq<UserCharacterOwnership>,
    user_characters: Seq<UserCharacterOwnership>,
    new_id: i32,
)
    requires
        table_wf(table),
        at_most_one_main(table),
        row_of_character(existing, table, character_id),
        existing matches Some(e) ==> lists_rows_of(owner_characters, table, e.user_id),
        lists_rows_of(user_characters, table, user_id),
        forall|i: int| 0 <= i < table.len() ==> #[trigger] table[i].id != new_id,
    ensures
        ({
            let after = apply_ownership_change(
                table,
                spec_plan_ownership_update(
                    user_id,
                    character_id,
                    ownerhash,
                    existing,
                    owner_characters,
                    user_characters,
                ),
                new_id,
            );
            table_wf(after) && at_most_one_main(after)
        }),
{
    let change = spec_plan_ownership_update(
        user_id,
        character_id,
        ownerhash,
        existing,
        owner_characters,
        user_characters,
    );
    let after = apply_ownership_change(table, change, new_id);
    lemma_empty_rows(user_characters, table, user_id);
    match existing {
        None => {
            assert forall|i: int, j: int|
                #![trigger after[i], after[j]]
                0 <= i < after.len() && 0 <= j < after.len() && i != j implies after[i].id
                != after[j].id && after[i].character_id != after[j].character_id by {
                if i < table.len() && j < table.len() {
                    assert(table[i] == after[i] && table[j] == after[j]);
                } else if i < table.len() {
                    assert(table[i] == after[i]);
                } else {
                    assert(table[j] == after[j]);
                }
            }
            assert forall|i: int, j: int|
                #![trigger after[i], after[j]]
                0 <= i < after.len() && 0 <= j < after.len() && after[i].main && after[j].main
                    && after[i].user_id == after[j].user_id implies i == j by {
                if i < table.len() && j < table.len() {
                    assert(table[i] == after[i] && table[j] == after[j]);
                } else if i < table.len() {
                    assert(table[i] == after[i]);
                } else if j < table.len() {
                    assert(table[j] == after[j]);
                }
            }
        },
        Some(e) => {
            if e.ownerhash@ == ownerhash@ && e.user_id == user_id {
                assert(after == table);
            } else {
                let ke = choose|k: int| 0 <= k < table.len() && table[k] == e;
                lemma_first_non_main(owner_characters);
                let promote = if owner_characters.len() > 1 && e.main {
                    match first_non_main(owner_characters) {
                        Some(p) => Some(UserCharacterOwnership { main: true, ..p }),
                        None => None,
                    }
                } else {
                    None
                };
                let updated = UserCharacterOwnership {
                    user_id,
                    ownerhash,
                    main: user_characters.len() == 0,
                    ..e
                };
                assert(change == OwnershipChange::Transfer { promote, updated });
                // The index of the promoted row, where there is one.
                let kp: int = match promote {
                    Some(p) => {
                        let q = first_non_main(owner_characters)->0;
                        let m = choose|m: int| 0 <= m < owner_characters.len() && owner_characters[m] == q;
                        assert(owner_characters[m].user_id == e.user_id);
                        assert(table.contains(q));
                        choose|k: int| 0 <= k < table.len() && table[k] == q
                    },
                    None => -1,
                };
                assert(promote is Some ==> kp != ke && 0 <= kp < table.len()
                    && table[kp].user_id == e.user_id && !table[kp].main
                    && promote->0 == UserCharacterOwnership { main: true, ..table[kp] });
                // Every row of the new table is the old row at the same place,
                // rewritten where its id is that of a written row.
                assert forall|i: int| 0 <= i < table.len() implies #[trigger] after[i] == (if i
                    == ke {
                    updated
                } else if i == kp {
                    promote->0
                } else {
                    table[i]
                }) by {
                    if i != ke {
                        assert(table[i].id != table[ke].id);
                    }
                    if promote is Some && i != kp {
                        assert(table[i].id != table[kp].id);
                    }
                }
                assert forall|i: int, j: int|
                    #![trigger after[i], after[j]]
                    0 <= i < after.len() && 0 <= j < after.len() && i != j implies after[i].id
                    != after[j].id && after[i].character_id != after[j].character_id by {
                    assert(table[i].id != table[j].id);
                    assert(table[i].character_id != table[j].character_id);
                }
                assert forall|i: int, j: int|
                    #![trigger after[i], after[j]]
                    0 <= i < after.len() && 0 <= j < after.len() && after[i].main && after[j].main
                        && after[i].user_id == after[j].user_id implies i == j by {
                    if i == ke || j == ke {
                        // The transferred row is main only for a user who
                        // owned nothing, and so owns no other row.
                        let o = if i == ke { j } else { i };
                        if o != ke {
                            assert(after[o].user_id == user_id);
                            if o == kp {
                                assert(table[kp].user_id == e.user_id);
                                assert(table[ke].user_id == e.user_id);
                            } else {
                                assert(table[o].user_id == user_id);
                            }
                        }
                    } else if i == kp || j == kp {
                        // The promoted row replaces the transferred main as
                        // its owner's only main.
                        let o = if i == kp { j } else { i };
                        if o != kp {
                            assert(table[o].main && table[o].user_id == e.user_id);
                            assert(table[ke].main);
                        }
                    } else {
                        assert(table[i].main && table[j].main);
                    }
                }
            }
        },
    }
}

/// Logging in leaves every user who owns a character with a main
/// character, given a table where that holds and no user has two mains.
/// Not covered: a user logging in again, under a new owner hash, with the
/// only character the user owns, which is written back without the main
/// mark.
pub proof fn lemma_ownership_update_keeps_a_main(
    table: Seq<UserCharacterOwnership>,
    user_id: i32,
    character_id: i32,
    ownerhash: String,
    existing: Option<UserCharacterOwnership>,
    owner_characters: Seq<UserCharacterOwnership>,
    user_characters: Seq<UserCharacterOwnership>,
    new_id: i32,
)
    requires
        table_wf(table),
        at_most_one_main(table),
        main_for_each_owner(table),
        row_of_character(existing, table, character_id),
        existing matches Some(e) ==> lists_rows_of(owner_characters, table, e.user_id),
        lists_rows_of(user_characters, table, user_id),
        forall|i: int| 0 <= i < table.len() ==> #[trigger] table[i].id != new_id,
        !(existing matches Some(e) && e.user_id == user_id && e.ownerhash@ != ownerhash@ && e.main
            && owner_characters.len() == 1),
    ensures
        main_for_each_owner(
            apply_ownership_change(
                table,
                spec_plan_ownership_update(
                    user_id,
                    character_id,
                    ownerhash,
                    existing,
                    owner_characters,
                    user_characters,
                ),
                new_id,
            ),
        ),
{
    let change = spec_plan_ownership_update(
        user_id,
        character_id,
        ownerhash,
        existing,
        owner_characters,
        user_characters,
    );
    let after = apply_ownership_change(table, change, new_id);
    lemma_empty_rows(user_characters, table, user_id);
    match existing {
        None => {
            assert forall|i: int| 0 <= i < after.len() implies has_main(after, #[trigger] after[i].user_id) by {
                let w = after[i].user_id;
                if i < table.len() {
                    assert(table[i] == after[i]);
                    assert(has_main(table, table[i].user_id));
                    let j = choose|j: int| 0 <= j < table.len() && #[trigger] table[j].main && table[j].user_id == w;
                    assert(after[j] == table[j]);
                } else if !after[i].main {
                    assert(user_characters.len() != 0);
                    let k = choose|k: int| 0 <= k < table.len() && #[trigger] table[k].user_id == user_id;
                    assert(has_main(table, table[k].user_id));
                    let j = choose|j: int| 0 <= j < table.len() && #[trigger] table[j].main && table[j].user_id == w;
                    assert(after[j] == table[j]);
                }
            }
        },
        Some(e) => {
            if e.ownerhash@ == ownerhash@ && e.user_id == user_id {
                assert(after == table);
            } else {
                let ke = choose|k: int| 0 <= k < table.len() && table[k] == e;
                lemma_first_non_main(owner_characters);
                let promote = if owner_characters.len() > 1 && e.main {
                    match first_non_main(owner_characters) {
                        Some(p) => Some(UserCharacterOwnership { main: true, ..p }),
                        None => None,
                    }
                } else {
                    None
                };
                let updated = UserCharacterOwnership {
                    user_id,
                    ownerhash,
                    main: user_characters.len() == 0,
                    ..e
                };
                assert(change == OwnershipChange::Transfer { promote, updated });
                let kp: int = match promote {
                    Some(p) => {
                        let q = first_non_main(owner_characters)->0;
                        let m = choose|m: int| 0 <= m < owner_characters.len() && owner_characters[m] == q;
                        assert(owner_characters[m].user_id == e.user_id);
                        assert(table.contains(q));
                        choose|k: int| 0 <= k < table.len() && table[k] == q
                    },
                    None => -1,
                };
                assert(promote is Some ==> kp != ke && 0 <= kp < table.len()
                    && table[kp].user_id == e.user_id && !table[kp].main
                    && promote->0 == UserCharacterOwnership { main: true, ..table[kp] });
                assert forall|i: int| 0 <= i < table.len() implies #[trigger] after[i] == (if i
                    == ke {
                    updated
                } else if i == kp {
                    promote->0
                } else {
                    table[i]
                }) by {
                    if i != ke {
                        assert(table[i].id != table[ke].id);
                    }
                    if promote is Some && i != kp {
                        assert(table[i].id != table[kp].id);
                    }
                }
                assert(owner_characters.contains(e)) by {
                    assert(table[ke].user_id == e.user_id);
                }
                // Where the transferred row was its owner's main and the
                // owner keeps another row, a row is promoted.
                assert forall|o: int|
                    0 <= o < table.len() && o != ke && #[trigger] table[o].user_id == e.user_id
                        && e.main implies promote is Some by {
                    assert(table[o].id != table[ke].id);
                    lemma_two_rows(owner_characters, table, e.user_id, o, ke);
                    lemma_some_non_main(owner_characters, table, e.user_id);
                }
                assert forall|i: int| 0 <= i < after.len() implies has_main(after, #[trigger] after[i].user_id) by {
                    let w = after[i].user_id;
                    if updated.main && w == user_id {
                        assert(after[ke].main && after[ke].user_id == w);
                    } else if promote is Some && w == e.user_id {
                        assert(after[kp].main && after[kp].user_id == w);
                    } else {
                        // The row's user owned a row before, and its main is
                        // still there.
                        let src: int = if i == ke {
                            let k = choose|k: int| 0 <= k < table.len() && #[trigger] table[k].user_id == user_id;
                            k
                        } else {
                            i
                        };
                        if i == ke {
                            assert(user_characters.len() != 0);
                        } else if i == kp {
                            assert(false);
                        }
                        assert(table[src].user_id == w);
                        assert(has_main(table, table[src].user_id));
                        let j = choose|j: int| 0 <= j < table.len() && #[trigger] table[j].main && table[j].user_id == w;
                        if j == ke {
                            if e.user_id == user_id {
                                assert(owner_characters.len() != 1);
                                let m = choose|m: int| 0 <= m < owner_characters.len() && owner_characters[m] == e;
                                assert(owner_characters.len() > 1);
                                lemma_some_non_main(owner_characters, table, e.user_id);
                                assert(false);
                            } else {
                                assert(i != ke);
                                assert(table[i].user_id == e.user_id);
                                assert(promote is Some);
                                assert(false);
                            }
                        } else if j == kp {
                            assert(false);
                        }
                        assert(after[j] == table[j]);
                    }
                }
            }
        },
    }
}

/// Making a character the user's main leaves it the user's only main and
/// touches no other user's rows, given a table where no user has two mains
/// and the user's current main is the row that is unmarked.
pub proof fn lemma_main_switch_single_main(
    table: Seq<UserCharacterOwnership>,
    new_main: UserCharacterOwnership,
    old_main: UserCharacterOwnership,
)
    requires
        table_wf(table),
        at_most_one_main(table),
        table.contains(new_main),
        table.contains(old_main),
        old_main.main,
        old_main.user_id == new_main.user_id,
    ensures
        ({
            let after = apply_main_switch(
                table,
                UserCharacterOwnership { main: false, ..old_main },
                UserCharacterOwnership { main: true, ..new_main },
            );
            &&& after.len() == table.len()
            &&& forall|i: int|
                0 <= i < after.len() && #[trigger] after[i].user_id == new_main.user_id ==> (
                after[i].main <==> after[i].id == new_main.id)
            &&& forall|i: int|
                0 <= i < after.len() && table[i].user_id != new_main.user_id ==> #[trigger] after[i]
                    == table[i]
            &&& at_most_one_main(after)
        }),
{
    let after = apply_main_switch(
        table,
        UserCharacterOwnership { main: false, ..old_main },
        UserCharacterOwnership { main: true, ..new_main },
    );
    let kn = choose|k: int| 0 <= k < table.len() && table[k] == new_main;
    let ko = choose|k: int| 0 <= k < table.len() && table[k] == old_main;
    assert forall|i: int| 0 <= i < table.len() && i != kn && i != ko implies #[trigger] after[i] == table[i] by {
        assert(table[i].id != table[kn].id);
        assert(table[i].id != table[ko].id);
    }
    assert forall|i: int|
        0 <= i < after.len() && #[trigger] after[i].user_id == new_main.user_id implies (after[i].main
        <==> after[i].id == new_main.id) by {
        if i != kn && i != ko {
            assert(table[i].id != table[kn].id);
            if table[i].main {
                assert(table[ko].main);
            }
        }
    }
    assert forall|i: int|
        0 <= i < after.len() && table[i].user_id != new_main.user_id implies #[trigger] after[i]
        == table[i] by {
    }
    assert forall|i: int, j: int|
        #![trigger after[i], after[j]]
        0 <= i < after.len() && 0 <= j < after.len() && after[i].main && after[j].main
            && after[i].user_id == after[j].user_id implies i == j by {
        if after[i].user_id == new_main.user_id {
            assert(after[i].id == new_main.id && after[j].id == new_main.id);
            if i != kn {
                assert(table[i].id != table[kn].id);
            }
            if j != kn {
                assert(table[j].id != table[kn].id);
            }
        } else {
            assert(after[i] == table[i] && after[j] == table[j]);
        }
    }
}

/// The ownership a login gives back: the stored one where nothing changes,
/// the rewritten one after a transfer, the new one (with id `new_id`)
/// where one is created.
pub open spec fn login_ownership(change: OwnershipChange, new_id: i32) -> UserCharacterOwnership {
    match change {
        OwnershipChange::Unchanged(e) => e,
        OwnershipChange::Transfer { updated, .. } => updated,
        OwnershipChange::Create(n) => UserCharacterOwnership {
            id: new_id,
            user_id: n.user_id,
            character_id: n.character_id,
            ownerhash: n.ownerhash,
            main: n.main,
        },
    }
}

/// The ownership a login gives back links the character to the user under
/// the owner hash, and stands in the table afterwards. Where something is
/// written, it is the user's main exactly when the user owned no character
/// before the login; where nothing is written, it is the stored ownership.
pub proof fn lemma_login_ownership(
    table: Seq<UserCharacterOwnership>,
    user_id: i32,
    character_id: i32,
    ownerhash: String,
    existing: Option<UserCharacterOwnership>,
    owner_characters: Seq<UserCharacterOwnership>,
    user_characters: Seq<UserCharacterOwnership>,
    new_id: i32,
)
    requires
        table_wf(table),
        row_of_character(existing, table, character_id),
        lists_rows_of(user_characters, table, user_id),
    ensures
        ({
            let change = spec_plan_ownership_update(
                user_id,
                character_id,
                ownerhash,
                existing,
                owner_characters,
                user_characters,
            );
            let o = login_ownership(change, new_id);
            &&& o.user_id == user_id
            &&& o.character_id == character_id
            &&& o.ownerhash@ == ownerhash@
            &&& apply_ownership_change(table, change, new_id).contains(o)
            &&& change is Unchanged ==> existing == Some(o)
            &&& !(change is Unchanged) ==> (o.main <==> forall|i: int|
                0 <= i < table.len() ==> #[trigger] table[i].user_id != user_id)
        }),
{
    let change = spec_plan_ownership_update(
        user_id,
        character_id,
        ownerhash,
        existing,
        owner_characters,
        user_characters,
    );
    let after = apply_ownership_change(table, change, new_id);
    let o = login_ownership(change, new_id);
    lemma_empty_rows(user_characters, table, user_id);
    match existing {
        None => {
            assert(after[table.len() as int] == o);
        },
        Some(e) => {
            let ke = choose|k: int| 0 <= k < table.len() && table[k] == e;
            if !(e.ownerhash@ == ownerhash@ && e.user_id == user_id) {
                assert(after[ke] == o);
            } else {
                assert(o.ownerhash@ == ownerhash@);
                assert(after[ke] == o);
            }
        },
    }
}

} // verus!
