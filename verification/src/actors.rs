//! Whoever wrote a record: their display names, and the filter by a typed name.

use std::collections::{BTreeMap, BTreeSet};

use vstd::prelude::*;
use vstd::string::*;

use crate::text;
use crate::text::{contains_text, trim};

verus! {

/// The display name of a user, where the names hold one.
pub open spec fn name_of(names: Map<i64, String>, id: i64) -> Option<Seq<char>> {
    if names.contains_key(id) {
        Some(names[id]@)
    } else {
        None
    }
}

/// The display name of a user, where `names` holds one.
pub fn lookup_name(names: &BTreeMap<i64, String>, id: i64) -> (name: Option<String>)
    ensures
        crate::views::opt_view(name) == name_of(names@, id),
{
    match names.get(&id) {
        Some(name) => Some(name.clone()),
        None => None,
    }
}

/// The ids without repetitions, each where it first occurs.
pub open spec fn first_occurrences(ids: Seq<i64>) -> Seq<i64>
    decreases ids.len(),
{
    if ids.len() == 0 {
        Seq::empty()
    } else {
        let before = first_occurrences(ids.drop_last());
        if ids.drop_last().contains(ids.last()) {
            before
        } else {
            before.push(ids.last())
        }
    }
}

/// The ids without repetitions, each where it first occurs.
pub fn distinct_ids(ids: &[i64]) -> (distinct: Vec<i64>)
    ensures
        distinct@ == first_occurrences(ids@),
{
    let mut seen: BTreeSet<i64> = BTreeSet::new();
    let mut distinct: Vec<i64> = Vec::new();
    let mut i: usize = 0;
    while i < ids.len()
        invariant
            i <= ids.len(),
            distinct@ == first_occurrences(ids@.take(i as int)),
            forall|id: i64| seen@.contains(id) <==> ids@.take(i as int).contains(id),
        decreases ids.len() - i,
    {
        let id: i64 = ids[i];
        let ghost before = ids@.take(i as int);
        let ghost after = ids@.take(i + 1);
        proof {
            assert(after.drop_last() =~= before);
            assert(after.last() == id);
            assert forall|x: i64| after.contains(x) <==> before.contains(x) || x == id by {
                if before.contains(x) {
                    let k = before.index_of(x);
                    assert(after[k] == x);
                }
                if x == id {
                    assert(after[i as int] == x);
                }
                if after.contains(x) {
                    let k = after.index_of(x);
                    if k < i {
                        assert(before[k] == x);
                    }
                }
            }
        }
        if seen.insert(id) {
            distinct.push(id);
        }
        i = i + 1;
    }
    proof {
        assert(ids@.take(i as int) =~= ids@);
    }
    distinct
}

/// `count` question marks with commas between them.
pub open spec fn placeholders(count: nat) -> Seq<char>
    decreases count,
{
    if count == 0 {
        Seq::empty()
    } else if count == 1 {
        seq!['?']
    } else {
        placeholders((count - 1) as nat).push(',').push('?')
    }
}

/// The statement that reads the display names of `count` users: one placeholder for
/// each id, and nothing interpolated.
pub open spec fn names_statement(count: nat) -> Seq<char> {
    "SELECT id, display_name FROM users WHERE id IN ("@ + placeholders(count) + ")"@
}

/// A statement, and the ids that its placeholders are bound to, in order.
pub struct ActorNamesQuery {
    pub sql: String,
    pub ids: Vec<i64>,
}

/// The read that resolves `actor_ids`, or none where there is nobody to resolve.
pub fn actor_names_query(actor_ids: &[i64]) -> (query: Option<ActorNamesQuery>)
    ensures
        query is None <==> actor_ids@.len() == 0,
        query matches Some(q) ==> q.ids@ == first_occurrences(actor_ids@) && q.sql@
            == names_statement(q.ids@.len()),
{
    let ids = distinct_ids(actor_ids);
    proof {
        lemma_first_occurrences(actor_ids@);
        if actor_ids@.len() > 0 {
            assert(actor_ids@.contains(actor_ids@[0]));
        }
    }
    if ids.len() == 0 {
        return None;
    }
    let mut sql = "SELECT id, display_name FROM users WHERE id IN (".to_owned();
    let ghost head = sql@;
    let mut i: usize = 0;
    proof {
        assert(head + placeholders(0) =~= head);
    }
    while i < ids.len()
        invariant
            i <= ids.len(),
            sql@ == head + placeholders(i as nat),
        decreases ids.len() - i,
    {
        if i > 0 {
            sql.push(',');
        }
        sql.push('?');
        i = i + 1;
        proof {
            assert(sql@ =~= head + placeholders(i as nat));
        }
    }
    sql.append(")");
    Some(ActorNamesQuery { sql, ids })
}

/// The names that the rows give, a later row for an id replacing an earlier one.
pub open spec fn names_from(rows: Seq<(i64, String)>) -> Map<i64, String>
    decreases rows.len(),
{
    if rows.len() == 0 {
        Map::empty()
    } else {
        names_from(rows.drop_last()).insert(rows.last().0, rows.last().1)
    }
}

/// The names that the rows give, a later row for an id replacing an earlier one.
pub fn actor_names_from_rows(rows: &[(i64, String)]) -> (names: BTreeMap<i64, String>)
    ensures
        names@ == names_from(rows@),
{
    let mut names: BTreeMap<i64, String> = BTreeMap::new();
    let mut i: usize = 0;
    while i < rows.len()
        invariant
            i <= rows.len(),
            names@ == names_from(rows@.take(i as int)),
        decreases rows.len() - i,
    {
        let row = &rows[i];
        names.insert(row.0, row.1.clone());
        i = i + 1;
        proof {
            assert(rows@.take(i as int).drop_last() =~= rows@.take(i - 1));
        }
    }
    proof {
        assert(rows@.take(i as int) =~= rows@);
    }
    names
}

/// The text of an actor filter, or none where it is empty.
pub fn typed_actor(needle: &str) -> (typed: Option<String>)
    ensures
        typed is None <==> text::trimmed(needle@).len() == 0,
        typed matches Some(t) ==> t@ == text::trimmed(needle@),
{
    let t = trim(needle);
    if t.is_empty() {
        None
    } else {
        Some(t.to_owned())
    }
}

/// A user, with both names in the normal form that searches compare.
pub struct SearchableUser {
    pub id: i64,
    pub display_name: String,
    pub username: String,
}

impl SearchableUser {
    /// Whether either name holds the needle.
    pub open spec fn answers_to(self, needle: Seq<char>) -> bool {
        text::occurs_in(needle, self.display_name@) || text::occurs_in(needle, self.username@)
    }
}

/// The ids of the users that answer to the needle, in the order they were read.
pub open spec fn answering(users: Seq<SearchableUser>, needle: Seq<char>) -> Seq<i64> {
    users.filter(|u: SearchableUser| u.answers_to(needle)).map_values(|u: SearchableUser| u.id)
}

/// The ids of the users whose display name or user name holds `needle`. Nobody may
/// answer: that is a filter that matches nothing.
pub fn matching_actor_ids(users: &[SearchableUser], needle: &str) -> (ids: Vec<i64>)
    ensures
        ids@ == answering(users@, needle@),
{
    let mut ids: Vec<i64> = Vec::new();
    let mut i: usize = 0;
    proof {
        reveal(Seq::filter);
        assert(ids@ =~= answering(users@.take(0), needle@));
    }
    while i < users.len()
        invariant
            i <= users.len(),
            ids@ == answering(users@.take(i as int), needle@),
        decreases users.len() - i,
    {
        let user = &users[i];
        if contains_text(user.display_name.as_str(), needle) || contains_text(
            user.username.as_str(),
            needle,
        ) {
            ids.push(user.id);
        }
        i = i + 1;
        proof {
            reveal(Seq::filter);
            assert(users@.take(i as int).drop_last() =~= users@.take(i - 1));
            assert(ids@ =~= answering(users@.take(i as int), needle@));
        }
    }
    proof {
        assert(users@.take(i as int) =~= users@);
    }
    ids
}

/// A statement has exactly one placeholder for each of its ids, with a comma between
/// neighbours.
pub proof fn one_placeholder_for_each_id(count: nat)
    ensures
        count > 0 ==> placeholders(count).len() == 2 * count - 1,
        forall|i: int|
            0 <= i < placeholders(count).len() ==> #[trigger] placeholders(count)[i] == (if i % 2
                == 0 {
                '?'
            } else {
                ','
            }),
    decreases count,
{
    if count > 1 {
        one_placeholder_for_each_id((count - 1) as nat);
    }
}

/// Dropping repetitions loses no id, invents none, and leaves none twice.
pub proof fn lemma_first_occurrences(ids: Seq<i64>)
    ensures
        first_occurrences(ids).no_duplicates(),
        forall|id: i64| first_occurrences(ids).contains(id) <==> ids.contains(id),
        first_occurrences(ids).len() <= ids.len(),
    decreases ids.len(),
{
    if ids.len() > 0 {
        let before = ids.drop_last();
        lemma_first_occurrences(before);
        let kept = first_occurrences(before);
        let all = first_occurrences(ids);
        assert forall|id: i64| all.contains(id) <==> ids.contains(id) by {
            assert(kept.contains(id) <==> before.contains(id));
            if ids.contains(id) {
                let k = ids.index_of(id);
                if k < before.len() {
                    assert(before[k] == id);
                }
                if before.contains(id) {
                    let j = kept.index_of(id);
                    assert(all[j] == kept[j]);
                } else {
                    assert(all[all.len() - 1] == id);
                }
            }
            if all.contains(id) {
                let j = all.index_of(id);
                if j < kept.len() {
                    assert(kept[j] == id);
                    let k = before.index_of(id);
                    assert(ids[k] == before[k]);
                } else {
                    assert(ids[ids.len() - 1] == id);
                }
            }
        }
        if !before.contains(ids.last()) {
            assert(!kept.contains(ids.last()));
            assert forall|i: int, j: int| 0 <= i < j < all.len() implies all[i] != all[j] by {
                if j == kept.len() {
                    assert(kept[i] == all[i]);
                }
            }
        }
    }
}

/// Ids that are already distinct are kept as they are.
pub proof fn distinct_ids_are_kept(ids: Seq<i64>)
    requires
        ids.no_duplicates(),
    ensures
        first_occurrences(ids) == ids,
    decreases ids.len(),
{
    if ids.len() > 0 {
        let before = ids.drop_last();
        assert(before.no_duplicates());
        distinct_ids_are_kept(before);
        if before.contains(ids.last()) {
            let k = before.index_of(ids.last());
            assert(ids[k] == ids[ids.len() - 1]);
        }
        assert(before.push(ids.last()) =~= ids);
    } else {
        assert(first_occurrences(ids) =~= ids);
    }
}

/// An id has a name exactly where some row is for it.
pub proof fn names_come_from_rows(rows: Seq<(i64, String)>, id: i64)
    ensures
        names_from(rows).contains_key(id) <==> exists|k: int|
            0 <= k < rows.len() && (#[trigger] rows[k]).0 == id,
    decreases rows.len(),
{
    if rows.len() > 0 {
        let before = rows.drop_last();
        names_come_from_rows(before, id);
        if names_from(rows).contains_key(id) {
            if rows.last().0 == id {
                assert(rows[rows.len() - 1].0 == id);
            } else {
                let k = choose|k: int| 0 <= k < before.len() && (#[trigger] before[k]).0 == id;
                assert(rows[k].0 == id);
            }
        }
        if exists|k: int| 0 <= k < rows.len() && (#[trigger] rows[k]).0 == id {
            let k = choose|k: int| 0 <= k < rows.len() && (#[trigger] rows[k]).0 == id;
            if k < before.len() {
                assert(before[k].0 == id);
            }
        }
    }
}

/// Of the rows for one id the last gives the name.
pub proof fn the_last_row_names_a_user(rows: Seq<(i64, String)>, at: int)
    requires
        0 <= at < rows.len(),
        forall|later: int| at < later < rows.len() ==> (#[trigger] rows[later]).0 != rows[at].0,
    ensures
        names_from(rows).contains_key(rows[at].0),
        names_from(rows)[rows[at].0] == rows[at].1,
    decreases rows.len(),
{
    if at < rows.len() - 1 {
        let before = rows.drop_last();
        assert(before[at] == rows[at]);
        assert(rows[rows.len() - 1].0 != rows[at].0);
        assert forall|later: int| at < later < before.len() implies (#[trigger] before[later]).0
            != before[at].0 by {
            assert(rows[later].0 != rows[at].0);
        }
        the_last_row_names_a_user(before, at);
    }
}

/// A name is looked up under its own id, and nowhere else.
pub proof fn names_are_looked_up_by_id(names: Map<i64, String>, id: i64)
    ensures
        name_of(names, id) is Some <==> names.contains_key(id),
        names.contains_key(id) ==> name_of(names, id) == Some(names[id]@),
{
}

/// Distinct ids come in the order in which they first occur.
pub proof fn distinct_ids_come_as_they_first_occur(ids: Seq<i64>, i: int, j: int)
    requires
        0 <= i < j < first_occurrences(ids).len(),
    ensures
        exists|k: int|
            0 <= k < ids.len() && #[trigger] ids[k] == first_occurrences(ids)[i] && forall|m: int|
                0 <= m <= k ==> #[trigger] ids[m] != first_occurrences(ids)[j],
    decreases ids.len(),
{
    let before = ids.drop_last();
    let kept = first_occurrences(before);
    let all = first_occurrences(ids);
    lemma_first_occurrences(before);
    if j < kept.len() {
        distinct_ids_come_as_they_first_occur(before, i, j);
        let k = choose|k: int|
            0 <= k < before.len() && #[trigger] before[k] == kept[i] && forall|m: int|
                0 <= m <= k ==> #[trigger] before[m] != kept[j];
        assert(ids[k] == all[i]);
        assert forall|m: int| 0 <= m <= k implies #[trigger] ids[m] != all[j] by {
            assert(before[m] == ids[m]);
        }
    } else {
        assert(all[j] == ids.last());
        assert(all[i] == kept[i]);
        assert(kept.contains(kept[i]));
        assert(before.contains(kept[i]));
        let k = before.index_of(kept[i]);
        assert(ids[k] == all[i]);
        assert forall|m: int| 0 <= m <= k implies #[trigger] ids[m] != all[j] by {
            assert(before[m] == ids[m]);
            assert(before.contains(before[m]));
        }
    }
}

/// Whether a text stands somewhere in another.
pub open spec fn stands_in(needle: Seq<char>, hay: Seq<char>) -> bool {
    exists|a: Seq<char>, b: Seq<char>| hay == #[trigger] (a + needle + b)
}

/// How many of the first `n` users have a name that the needle stands in.
pub open spec fn answering_before(
    users: Seq<SearchableUser>,
    needle: Seq<char>,
    n: int,
) -> int
    decreases n,
{
    if n <= 0 {
        0
    } else {
        answering_before(users, needle, n - 1) + (if stands_in(
            needle,
            users[n - 1].display_name@,
        ) || stands_in(needle, users[n - 1].username@) {
            1int
        } else {
            0
        })
    }
}

proof fn lemma_answering(users: Seq<SearchableUser>, needle: Seq<char>, n: int)
    requires
        0 <= n <= users.len(),
    ensures
        answering(users.take(n), needle).len() == answering_before(users, needle, n),
        forall|i: int|
            #![trigger users[i]]
            0 <= i < n && (stands_in(needle, users[i].display_name@) || stands_in(
                needle,
                users[i].username@,
            )) ==> 0 <= answering_before(users, needle, i) < answering_before(users, needle, n)
                && answering(users.take(n), needle)[answering_before(users, needle, i)]
                == users[i].id,
    decreases n,
{
    reveal(Seq::filter);
    if n == 0 {
        assert(users.take(0) =~= Seq::empty());
    } else {
        lemma_answering(users, needle, n - 1);
        let last = users[n - 1];
        assert(users.take(n).drop_last() =~= users.take(n - 1));
        assert(users.take(n).last() == last);
        text::occurring_is_standing_between(needle, last.display_name@);
        text::occurring_is_standing_between(needle, last.username@);
        let before = answering(users.take(n - 1), needle);
        let all = answering(users.take(n), needle);
        if last.answers_to(needle) {
            assert(all =~= before.push(last.id));
        } else {
            assert(all =~= before);
        }
        assert forall|i: int|
            #![trigger users[i]]
            0 <= i < n && (stands_in(needle, users[i].display_name@) || stands_in(
                needle,
                users[i].username@,
            )) implies 0 <= answering_before(users, needle, i) < answering_before(
            users,
            needle,
            n,
        ) && all[answering_before(users, needle, i)] == users[i].id by {
            if i < n - 1 {
                assert(all[answering_before(users, needle, i)] == before[answering_before(
                    users,
                    needle,
                    i,
                )]);
            }
        }
    }
}

/// A typed name matches exactly the users with the text somewhere in the display name or
/// in the user name, in the order they were read.
pub proof fn a_typed_name_matches_either_name(users: Seq<SearchableUser>, needle: Seq<char>)
    ensures
        answering(users, needle).len() == answering_before(users, needle, users.len() as int),
        forall|i: int|
            #![trigger users[i]]
            0 <= i < users.len() && (stands_in(needle, users[i].display_name@) || stands_in(
                needle,
                users[i].username@,
            )) ==> answering(users, needle)[answering_before(users, needle, i)] == users[i].id,
{
    lemma_answering(users, needle, users.len() as int);
    assert(users.take(users.len() as int) =~= users);
}

/// The statement that reads names asks for the id and the display name of the users with
/// the bound ids, and interpolates nothing.
pub proof fn name_reads_bind_every_id(count: nat)
    ensures
        count > 0 ==> exists|marks: Seq<char>|
            marks.len() == 2 * count - 1 && names_statement(count)
                == #[trigger] ("SELECT id, display_name FROM users WHERE id IN ("@ + marks + ")"@)
                && forall|i: int|
                0 <= i < marks.len() ==> #[trigger] marks[i] == (if i % 2 == 0 {
                    '?'
                } else {
                    ','
                }),
{
    if count > 0 {
        one_placeholder_for_each_id(count);
        let marks = placeholders(count);
        assert(names_statement(count) == "SELECT id, display_name FROM users WHERE id IN ("@
            + marks + ")"@);
    }
}

/// The name typed into an actor filter is looked for without the white space around it, and
/// not at all where there is nothing else.
pub proof fn typed_names_are_trimmed(needle: &str, typed: Option<String>)
    requires
        call_ensures(typed_actor, (needle,), typed),
    ensures
        typed is None <==> text::trimmed(needle@).len() == 0,
        typed is Some ==> typed->0@ == text::trimmed(needle@),
{
}

/// Nobody is asked for where there is nobody to resolve; otherwise every id is bound once.
pub proof fn name_reads_ask_for_every_id(actor_ids: &[i64], query: Option<ActorNamesQuery>, id: i64)
    requires
        call_ensures(actor_names_query, (actor_ids,), query),
    ensures
        query is None <==> actor_ids@.len() == 0,
        query is Some ==> (query->0.ids@.contains(id) <==> actor_ids@.contains(id)),
        query is Some ==> query->0.ids@.no_duplicates(),
        query is Some ==> query->0.sql@ == names_statement(query->0.ids@.len()),
{
    lemma_first_occurrences(actor_ids@);
}

} // verus!
