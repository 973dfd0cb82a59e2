//! The list of the current conversation's participants, ordered by name and
//! styled by their status.
use vstd::prelude::*;

use crate::config::{colored, Config, Style};
use crate::data::NCReqDataParticipants;
use crate::room::NCRoom;
use crate::sorting::{sorted_by_display_name, sorted_by_name, stable_rearrangement};
use crate::text::{pair_texts, text_eq};

verus! {

broadcast use vstd::seq_lib::group_to_multiset_ensures;

/// A row of the user list: a name and its style.
#[derive(Debug)]
pub struct UserRow {
    pub name: String,
    pub style: Style,
}

/// The (status, name) entry of a participant; no status is the empty text.
pub open spec fn user_entry(u: NCReqDataParticipants) -> (Seq<char>, Seq<char>) {
    (
        match u.status {
            Some(s) => s@,
            None => Seq::empty(),
        },
        u.displayName@,
    )
}

/// The (status, name) entries of a list of participants.
pub open spec fn user_entries(us: Seq<NCReqDataParticipants>) -> Seq<(Seq<char>, Seq<char>)> {
    us.map_values(|u: NCReqDataParticipants| user_entry(u))
}

/// `texts` holds the entries of `users` rearranged by `perm` (the entry at
/// position `i` is the one at position `perm[i]`, each taken once), and
/// entries with equal names keep their order.
pub open spec fn rearranged_in_order(
    texts: Seq<(Seq<char>, Seq<char>)>,
    users: Seq<(Seq<char>, Seq<char>)>,
    perm: Seq<int>,
) -> bool {
    &&& perm.len() == texts.len()
    &&& texts.len() == users.len()
    &&& forall|i: int|
        0 <= i < texts.len() ==> 0 <= #[trigger] perm[i] < users.len() && texts[i] == users[perm[i]]
    &&& forall|i: int, j: int| 0 <= i < j < texts.len() ==> #[trigger] perm[i] != #[trigger] perm[j]
    &&& forall|i: int, j: int|
        0 <= i < j < texts.len() && (#[trigger] texts[i]).1 == (#[trigger] texts[j]).1 ==> perm[i]
            < perm[j]
}

/// The user list.
#[derive(Debug)]
pub struct Users {
    pub user_list: Vec<UserRow>,
    /// The selected row.
    pub selected: usize,
    pub default_style: Style,
    pub user_away_style: Style,
    pub user_dnd_style: Style,
    pub user_online_style: Style,
    pub user_offline_style: Style,
    pub table_header_style: Style,
}

impl Users {
    /// The style of a user with the status `status`: by the known statuses,
    /// the default style otherwise.
    pub open spec fn status_style(&self, status: Seq<char>) -> Style {
        if status == "away"@ {
            self.user_away_style
        } else if status == "offline"@ {
            self.user_offline_style
        } else if status == "dnd"@ {
            self.user_dnd_style
        } else if status == "online"@ {
            self.user_online_style
        } else {
            self.default_style
        }
    }

    /// An empty list with the theme's styles.
    pub fn new(config: &Config) -> (r: Users)
        ensures
            r.user_list@.len() == 0,
            r.selected == 0,
            r.default_style == colored(config.theme.data.foreground, config.theme.data.background),
            r.user_away_style == colored(config.theme.data.user_away, config.theme.data.background),
            r.user_dnd_style == colored(config.theme.data.user_dnd, config.theme.data.background),
            r.user_online_style == colored(
                config.theme.data.user_online,
                config.theme.data.background,
            ),
            r.user_offline_style == colored(
                config.theme.data.user_offline,
                config.theme.data.background,
            ),
            r.table_header_style == (Style {
                bold: true,
                ..colored(config.theme.data.table_header, config.theme.data.background)
            }),
    {
        Users {
            user_list: Vec::new(),
            selected: 0,
            default_style: config.theme.default_style(),
            user_away_style: config.theme.user_away_style(),
            user_dnd_style: config.theme.user_dnd_style(),
            user_online_style: config.theme.user_online_style(),
            user_offline_style: config.theme.user_offline_style(),
            table_header_style: config.theme.table_header_style(),
        }
    }

    /// The style of a user with the status `status`.
    fn style_for(&self, status: &str) -> (r: Style)
        ensures
            r == self.status_style(status@),
    {
        if text_eq(status, "away") {
            self.user_away_style
        } else if text_eq(status, "offline") {
            self.user_offline_style
        } else if text_eq(status, "dnd") {
            self.user_dnd_style
        } else if text_eq(status, "online") {
            self.user_online_style
        } else {
            self.default_style
        }
    }

    /// Takes the participants of the current conversation: one row each,
    /// ordered by name, styled by status; the first row is selected.
    pub fn update(&mut self, room: &NCRoom)
        ensures
            exists|s: Seq<(String, String)>|
                #![trigger sorted_by_name(s)]
                {
                    &&& pair_texts(s).to_multiset() == user_entries(room.participants@).to_multiset()
                    &&& exists|perm: Seq<int>|
                        rearranged_in_order(pair_texts(s), user_entries(room.participants@), perm)
                    &&& sorted_by_name(s)
                    &&& final(self).user_list@.len() == s.len()
                    &&& forall|k: int|
                        0 <= k < s.len() ==> #[trigger] final(self).user_list@[k].name@ == s[k].1@
                            && final(self).user_list@[k].style == old(self).status_style(s[k].0@)
                },
            final(self).selected == 0,
            final(self).default_style == old(self).default_style,
            final(self).user_away_style == old(self).user_away_style,
            final(self).user_dnd_style == old(self).user_dnd_style,
            final(self).user_online_style == old(self).user_online_style,
            final(self).user_offline_style == old(self).user_offline_style,
            final(self).table_header_style == old(self).table_header_style,
    {
        let users = &room.participants;
        let n = users.len();
        let mut entries: Vec<(String, String)> = Vec::new();
        let mut i: usize = 0;
        while i < n
            invariant
                n == users@.len(),
                i <= n,
                entries@.len() == i,
                pair_texts(entries@) == user_entries(users@.take(i as int)),
            decreases n - i,
        {
            let user = &users[i];
            let status = match &user.status {
                Some(s) => s.clone(),
                None => String::new(),
            };
            assert(status@ == user_entry(users@[i as int]).0);
            let name = user.displayName.clone();
            let ghost before = entries@;
            entries.push((status, name));
            assert(entries@ == before.push((status, name)));
            assert(users@.take(i + 1) =~= users@.take(i as int).push(users@[i as int]));
            proof {
                let lhs = pair_texts(entries@);
                let rhs = user_entries(users@.take(i + 1));
                assert(lhs.len() == rhs.len());
                assert forall|k: int| 0 <= k < lhs.len() implies lhs[k] == rhs[k] by {
                    if k < i {
                        assert(lhs[k] == pair_texts(before)[k]);
                        assert(rhs[k] == user_entries(users@.take(i as int))[k]);
                    } else {
                        assert(lhs[k] == (status@, name@));
                        assert(rhs[k] == user_entry(users@[i as int]));
                    }
                }
                assert(lhs =~= rhs);
            }
            i = i + 1;
        }
        assert(users@.take(n as int) =~= users@);
        let ghost all = entries@;
        let sorted = sorted_by_display_name(entries);
        proof {
            lemma_pair_texts_multiset(sorted@, all);
            let perm = choose|perm: Seq<int>| stable_rearrangement(sorted@, all, perm);
            let t = pair_texts(sorted@);
            let u = user_entries(users@);
            assert(pair_texts(all) == u);
            assert forall|i: int| 0 <= i < t.len() implies 0 <= #[trigger] perm[i] < u.len() && t[i]
                == u[perm[i]] by {
                assert(sorted@[i] == all[perm[i]]);
                assert(pair_texts(all)[perm[i]] == (all[perm[i]].0@, all[perm[i]].1@));
            }
            assert forall|i: int, j: int|
                0 <= i < j < t.len() && (#[trigger] t[i]).1 == (#[trigger] t[j]).1 implies perm[i]
                < perm[j] by {
                assert(sorted@[i].1@ == sorted@[j].1@);
            }
            assert(rearranged_in_order(t, u, perm));
        }
        let mut rows: Vec<UserRow> = Vec::new();
        let m = sorted.len();
        let mut j: usize = 0;
        while j < m
            invariant
                m == sorted@.len(),
                j <= m,
                rows@.len() == j,
                forall|k: int|
                    0 <= k < j ==> #[trigger] rows@[k].name@ == sorted@[k].1@ && rows@[k].style
                        == self.status_style(sorted@[k].0@),
            decreases m - j,
        {
            let style = self.style_for(sorted[j].0.as_str());
            rows.push(UserRow { name: sorted[j].1.clone(), style });
            j = j + 1;
        }
        self.user_list = rows;
        self.selected = 0;
    }
}

/// Mapping two lists that hold the same items gives lists that hold the
/// same items.
proof fn lemma_map_same_multiset<A, B>(a: Seq<A>, b: Seq<A>, f: spec_fn(A) -> B)
    requires
        a.to_multiset() == b.to_multiset(),
    ensures
        a.map_values(f).to_multiset() == b.map_values(f).to_multiset(),
    decreases a.len(),
{
    broadcast use vstd::multiset::group_multiset_axioms;

    vstd::seq_lib::to_multiset_len(a);
    vstd::seq_lib::to_multiset_len(b);
    if a.len() == 0 {
        assert(a.map_values(f) =~= Seq::<B>::empty());
        assert(b.map_values(f) =~= Seq::<B>::empty());
    } else {
        let x = a.last();
        let rest = a.drop_last();
        assert(a =~= rest.push(x));
        vstd::seq_lib::to_multiset_build(rest, x);
        vstd::seq_lib::to_multiset_contains(b, x);
        assert(b.to_multiset().count(x) > 0);
        let i = choose|i: int| 0 <= i < b.len() && b[i] == x;
        let b2 = b.remove(i);
        vstd::seq_lib::to_multiset_remove(b, i);
        assert(rest.to_multiset() =~= b2.to_multiset());
        lemma_map_same_multiset(rest, b2, f);
        assert(a.map_values(f) =~= rest.map_values(f).push(f(x)));
        vstd::seq_lib::to_multiset_build(rest.map_values(f), f(x));
        assert(b.map_values(f) =~= b2.map_values(f).insert(i, f(x)));
        vstd::seq_lib::to_multiset_insert(b2.map_values(f), i, f(x));
    }
}

/// Lists holding the same entries have texts holding the same pairs.
proof fn lemma_pair_texts_multiset(a: Seq<(String, String)>, b: Seq<(String, String)>)
    requires
        a.to_multiset() == b.to_multiset(),
    ensures
        pair_texts(a).to_multiset() == pair_texts(b).to_multiset(),
{
    let f = |e: (String, String)| (e.0@, e.1@);
    assert(pair_texts(a) =~= a.map_values(f));
    assert(pair_texts(b) =~= b.map_values(f));
    lemma_map_same_multiset(a, b, f);
}

/// Users are coloured by their status: "away" with the away style, "dnd"
/// with the do-not-disturb style, "offline" with the offline style,
/// "online" with the online style, and any other status (none included)
/// with the default style.
pub proof fn law_status_styles(users: Users, status: Seq<char>)
    ensures
        status == "away"@ ==> users.status_style(status) == users.user_away_style,
        status == "dnd"@ ==> users.status_style(status) == users.user_dnd_style,
        status == "offline"@ ==> users.status_style(status) == users.user_offline_style,
        status == "online"@ ==> users.status_style(status) == users.user_online_style,
        status != "away"@ && status != "dnd"@ && status != "offline"@ && status != "online"@
            ==> users.status_style(status) == users.default_style,
{
    reveal_strlit("away");
    reveal_strlit("dnd");
    reveal_strlit("offline");
    reveal_strlit("online");
    assert("dnd"@ != "away"@) by {
        assert("dnd"@[0] != "away"@[0]);
    }
    assert("dnd"@ != "offline"@) by {
        assert("dnd"@[0] != "offline"@[0]);
    }
    assert("offline"@ != "away"@) by {
        assert("offline"@[0] != "away"@[0]);
    }
    assert("online"@ != "away"@) by {
        assert("online"@[0] != "away"@[0]);
    }
    assert("online"@ != "offline"@) by {
        assert("online"@[1] != "offline"@[1]);
    }
    assert("online"@ != "dnd"@) by {
        assert("online"@[0] != "dnd"@[0]);
    }
}

} // verus!
