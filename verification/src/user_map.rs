use crate::user::{User, UserId};
use vstd::prelude::*;

verus! {

/// The mapping that a user list denotes: every record keyed by its id, a
/// record later in the list overwriting an earlier one with the same id.
pub open spec fn map_of_users(users: Seq<User>) -> Map<Seq<char>, User>
    decreases users.len(),
{
    if users.len() == 0 {
        Map::empty()
    } else {
        map_of_users(users.drop_last()).insert(users.last().id@, users.last())
    }
}

/// No two records in `users` share an id.
pub open spec fn ids_unique(users: Seq<User>) -> bool {
    forall|i: int, j: int| 0 <= i < j < users.len() ==> users[i].id@ != users[j].id@
}

/// The denoted map is finite and holds exactly the ids that occur in the
/// list.
pub proof fn lemma_map_of_users_contains(users: Seq<User>, id: Seq<char>)
    ensures
        map_of_users(users).dom().finite(),
        map_of_users(users).contains_key(id) <==> (exists|i: int|
            0 <= i < users.len() && users[i].id@ == id),
    decreases users.len(),
{
    if users.len() == 0 {
    } else {
        let prev = users.drop_last();
        lemma_map_of_users_contains(prev, id);
        if users.last().id@ == id {
            assert(users[users.len() - 1].id@ == id);
        } else {
            if map_of_users(users).contains_key(id) {
                let i = choose|i: int| 0 <= i < prev.len() && prev[i].id@ == id;
                assert(users[i].id@ == id);
            }
            if exists|i: int| 0 <= i < users.len() && users[i].id@ == id {
                let i = choose|i: int| 0 <= i < users.len() && users[i].id@ == id;
                assert(i < users.len() - 1);
                assert(prev[i].id@ == id);
            }
        }
    }
}

/// A record later in the list overwrites an earlier one with the same id:
/// for each id, the denoted map holds the last record carrying it.
pub proof fn lemma_map_of_users_last_wins(users: Seq<User>, i: int)
    requires
        0 <= i < users.len(),
        forall|k: int| i < k < users.len() ==> users[k].id@ != users[i].id@,
    ensures
        map_of_users(users).contains_key(users[i].id@),
        map_of_users(users)[users[i].id@] == users[i],
    decreases users.len(),
{
    let prev = users.drop_last();
    if i == users.len() - 1 {
    } else {
        assert(users.last().id@ != users[i].id@);
        assert(prev[i] == users[i]);
        lemma_map_of_users_last_wins(prev, i);
    }
}

/// A user list with pairwise distinct ids denotes a map with exactly one
/// entry per record.
pub proof fn lemma_map_of_users_len(users: Seq<User>)
    requires
        ids_unique(users),
    ensures
        map_of_users(users).len() == users.len(),
    decreases users.len(),
{
    if users.len() == 0 {
        assert(map_of_users(users).dom() =~= Set::<Seq<char>>::empty());
    } else {
        let prev = users.drop_last();
        assert(ids_unique(prev)) by {
            assert(forall|i: int, j: int|
                0 <= i < j < prev.len() ==> users[i].id@ != users[j].id@);
        }
        lemma_map_of_users_len(prev);
        lemma_map_of_users_contains(prev, users.last().id@);
        assert(!map_of_users(prev).contains_key(users.last().id@)) by {
            if exists|i: int| 0 <= i < prev.len() && prev[i].id@ == users.last().id@ {
                let i = choose|i: int| 0 <= i < prev.len() && prev[i].id@ == users.last().id@;
                assert(users[i].id@ == users[users.len() - 1].id@);
            }
        }
        assert(map_of_users(users).dom() =~= map_of_users(prev).dom().insert(
            users.last().id@,
        ));
        vstd::set::axiom_set_insert_len(map_of_users(prev).dom(), users.last().id@);
    }
}

/// Extending a list by one record extends the denoted map by that record.
pub proof fn lemma_map_of_users_push(users: Seq<User>, user: User)
    ensures
        map_of_users(users.push(user)) == map_of_users(users).insert(user.id@, user),
{
    assert(users.push(user).drop_last() =~= users);
    assert(users.push(user).last() == user);
}

/// Replacing the one record that carries an id rewrites that id's entry and
/// leaves the rest of the denoted map unchanged.
pub proof fn lemma_map_of_users_update(users: Seq<User>, j: int, user: User)
    requires
        0 <= j < users.len(),
        users[j].id@ == user.id@,
        forall|k: int| 0 <= k < users.len() && k != j ==> users[k].id@ != user.id@,
    ensures
        map_of_users(users.update(j, user)) == map_of_users(users).insert(user.id@, user),
    decreases users.len(),
{
    let upd = users.update(j, user);
    if j == users.len() - 1 {
        assert(upd.drop_last() =~= users.drop_last());
        assert(upd.last() == user);
        assert(map_of_users(users).insert(users.last().id@, users.last()).insert(user.id@, user)
            =~= map_of_users(users).insert(user.id@, user));
        assert(map_of_users(users).insert(user.id@, user)
            == map_of_users(users.drop_last()).insert(users.last().id@, users.last()).insert(
            user.id@,
            user,
        ));
    } else {
        let prev = users.drop_last();
        assert(prev[j] == users[j]);
        lemma_map_of_users_update(prev, j, user);
        assert(upd.drop_last() =~= prev.update(j, user));
        assert(upd.last() == users.last());
        assert(map_of_users(prev).insert(user.id@, user).insert(
            users.last().id@,
            users.last(),
        ) =~= map_of_users(prev).insert(users.last().id@, users.last()).insert(user.id@, user))
            by {
            assert(users.last().id@ != user.id@);
        }
    }
}

/// Immutable mapping from user id to user record, built once from the
/// export's user list and read-only for the rest of the run.
pub struct UserMap {
    entries: Vec<User>,
}

impl View for UserMap {
    type V = Map<Seq<char>, User>;

    closed spec fn view(&self) -> Map<Seq<char>, User> {
        map_of_users(self.entries@)
    }
}

impl UserMap {
    /// Internal well-formedness: stored records have pairwise distinct ids.
    pub closed spec fn wf(&self) -> bool {
        ids_unique(self.entries@)
    }

    /// The empty map.
    pub fn new() -> (m: UserMap)
        ensures
            m.wf(),
            m@ == Map::<Seq<char>, User>::empty(),
    {
        UserMap { entries: Vec::new() }
    }

    /// Insert one record under its id, overwriting any record already stored
    /// under the same id.
    pub fn insert(&mut self, user: User)
        requires
            old(self).wf(),
        ensures
            final(self).wf(),
            final(self)@ == old(self)@.insert(user.id@, user),
    {
        let ghost entries0 = self.entries@;
        let mut j: usize = 0;
        while j < self.entries.len()
            invariant
                self.entries@ == entries0,
                old(self).entries@ == entries0,
                ids_unique(entries0),
                0 <= j <= entries0.len(),
                forall|k: int| 0 <= k < j ==> entries0[k].id@ != user.id@,
            decreases entries0.len() - j,
        {
            if self.entries[j].id.0 == user.id.0 {
                proof {
                    assert(forall|k: int|
                        0 <= k < entries0.len() && k != j ==> entries0[k].id@ != user.id@);
                    lemma_map_of_users_update(entries0, j as int, user);
                    assert(ids_unique(entries0.update(j as int, user))) by {
                        let upd = entries0.update(j as int, user);
                        assert(forall|i: int, k: int|
                            0 <= i < k < upd.len() ==> upd[i].id@ != upd[k].id@) by {
                            assert(forall|i: int|
                                0 <= i < upd.len() && i != j ==> upd[i] == entries0[i]);
                            assert(upd[j as int].id@ == entries0[j as int].id@);
                        }
                    }
                }
                self.entries[j] = user;
                assert(self.entries@ == entries0.update(j as int, user));
                return ;
            }
            j += 1;
        }
        proof {
            lemma_map_of_users_push(entries0, user);
            assert(ids_unique(entries0.push(user))) by {
                let ext = entries0.push(user);
                assert(forall|i: int, k: int|
                    0 <= i < k < ext.len() ==> ext[i].id@ != ext[k].id@) by {
                    assert(forall|i: int| 0 <= i < entries0.len() ==> ext[i] == entries0[i]);
                    assert(ext[ext.len() - 1] == user);
                }
            }
        }
        self.entries.push(user);
    }

    /// How many users are stored.
    pub fn len(&self) -> (n: usize)
        requires
            self.wf(),
        ensures
            n == self@.len(),
    {
        proof {
            lemma_map_of_users_len(self.entries@);
        }
        self.entries.len()
    }

    /// Look a user up by id.
    pub fn get(&self, id: &UserId) -> (r: Option<&User>)
        requires
            self.wf(),
        ensures
            match r {
                Some(u) => self@.contains_key(id@) && *u == self@[id@],
                None => !self@.contains_key(id@),
            },
    {
        let ghost entries0 = self.entries@;
        let mut j: usize = 0;
        while j < self.entries.len()
            invariant
                self.entries@ == entries0,
                ids_unique(entries0),
                0 <= j <= entries0.len(),
                forall|k: int| 0 <= k < j ==> entries0[k].id@ != id@,
            decreases entries0.len() - j,
        {
            if self.entries[j].id.0 == id.0 {
                proof {
                    lemma_map_of_users_last_wins(entries0, j as int);
                }
                return Some(&self.entries[j]);
            }
            j += 1;
        }
        proof {
            lemma_map_of_users_contains(entries0, id@);
        }
        None
    }

    /// Build the map from a full user list: every record is inserted in list
    /// order, so a duplicate id keeps the last-seen record.
    pub fn from_users(users: Vec<User>) -> (m: UserMap)
        ensures
            m.wf(),
            m@ == map_of_users(users@),
    {
        let ghost all = users@;
        let mut rest = users;
        let mut m = UserMap::new();
        proof {
            assert(all.take(0) =~= Seq::<User>::empty());
            assert(rest@ =~= all.skip(0));
        }
        while rest.len() > 0
            invariant
                m.wf(),
                rest@.len() <= all.len(),
                rest@ == all.skip(all.len() - rest@.len()),
                m@ == map_of_users(all.take(all.len() - rest@.len())),
            decreases rest.len(),
        {
            let ghost k = all.len() - rest@.len();
            let u = rest.remove(0);
            proof {
                assert(u == all[k]);
                assert(rest@ =~= all.skip(k + 1));
                assert(all.take(k + 1).drop_last() =~= all.take(k));
                assert(all.take(k + 1).last() == all[k]);
            }
            m.insert(u);
        }
        proof {
            assert(all.take(all.len() as int) =~= all);
        }
        m
    }
}

} // verus!
