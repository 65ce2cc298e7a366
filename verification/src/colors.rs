//! A member's colour: that of their highest role.

use vstd::prelude::*;
use crate::cache::{DiscordCache, cached_role};
use crate::cache::CacheRead;
use crate::lookup::{answers, found_items, law_found_items_are_kept, lookups_match, reads_of_ids, somes};
use crate::model::{Member, OutOfRange, Role, u32_to_i32};

verus! {

/// Index of the role that gives a member its colour among `roles`: the one with the highest
/// position, the last of them when several share it (where a stable sort by position puts it).
pub open spec fn top_role_index(roles: Seq<Role>) -> int
    decreases roles.len(),
{
    if roles.len() <= 1 {
        0
    } else {
        let t = top_role_index(roles.drop_last());
        if roles.last().position >= roles[t].position {
            roles.len() - 1
        } else {
            t
        }
    }
}

/// Whether a role has a colour; colour 0 stands for none.
pub open spec fn is_colored(r: Role) -> bool {
    r.color != 0
}

/// The roles that have a colour, in order.
pub open spec fn colored_roles(roles: Seq<Role>) -> Seq<Role> {
    roles.filter(|r: Role| is_colored(r))
}

/// The colour that `roles` give: that of the highest of the coloured roles (the last of the
/// highest ones), as an `i32`, or `OutOfRange` when it does not fit; none without coloured
/// roles.
pub open spec fn color_outcome(roles: Seq<Role>) -> Result<Option<i32>, OutOfRange> {
    let colored = colored_roles(roles);
    if colored.len() == 0 {
        Ok(None)
    } else if colored[top_role_index(colored)].color <= i32::MAX {
        Ok(Some(colored[top_role_index(colored)].color as i32))
    } else {
        Err(OutOfRange)
    }
}

/// The top role is one of the roles, no role stands higher, and every role after it stands
/// lower.
pub proof fn lemma_top_role_is_highest(roles: Seq<Role>)
    requires
        roles.len() > 0,
    ensures
        0 <= top_role_index(roles) < roles.len(),
        forall|j: int| 0 <= j < roles.len() ==> #[trigger] roles[j].position <= roles[top_role_index(roles)].position,
        forall|j: int| top_role_index(roles) < j < roles.len() ==> #[trigger] roles[j].position < roles[top_role_index(roles)].position,
    decreases roles.len(),
{
    if roles.len() > 1 {
        let p = roles.drop_last();
        lemma_top_role_is_highest(p);
        assert forall|j: int| 0 <= j < roles.len() - 1 implies #[trigger] roles[j] == p[j] by {}
    }
}

/// A member's colour comes from a coloured role of theirs that no coloured role of theirs
/// stands above, and that is the last of its position: every later coloured role stands
/// lower. Without coloured roles, the member has no colour.
pub proof fn law_color_of_highest_colored_role(roles: Seq<Role>)
    ensures
        colored_roles(roles).len() == 0 ==> color_outcome(roles) == Ok::<Option<i32>, OutOfRange>(None),
        colored_roles(roles).len() > 0 ==> {
            let colored = colored_roles(roles);
            let top = colored[top_role_index(colored)];
            &&& roles.contains(top)
            &&& is_colored(top)
            &&& forall|j: int| 0 <= j < colored.len() ==> #[trigger] colored[j].position <= top.position
            &&& forall|j: int| top_role_index(colored) < j < colored.len() ==> #[trigger] colored[j].position < top.position
            &&& (color_outcome(roles) is Ok ==> color_outcome(roles) == Ok::<Option<i32>, OutOfRange>(Some(top.color as i32)))
        },
{
    let colored = colored_roles(roles);
    if colored.len() > 0 {
        lemma_top_role_is_highest(colored);
        let t = top_role_index(colored);
        roles.lemma_filter_pred(|r: Role| is_colored(r), t);
        assert(colored.contains(colored[t]));
        roles.lemma_filter_contains_rev(|r: Role| is_colored(r), colored[t]);
    }
}

/// The colour of the highest of the coloured roles (the last of the highest ones), as `i32`;
/// none when no role has a colour.
pub fn highest_role_color(all_roles: &Vec<Role>) -> (r: Result<Option<i32>, OutOfRange>)
    ensures
        r == color_outcome(all_roles@),
{
    let mut colored: Vec<Role> = Vec::new();
    let mut k: usize = 0;
    while k < all_roles.len()
        invariant
            0 <= k <= all_roles.len(),
            colored@ == colored_roles(all_roles@.take(k as int)),
        decreases all_roles.len() - k,
    {
        let role = all_roles[k];
        let ghost before = all_roles@.take(k as int);
        assert(all_roles@.take(k + 1) =~= before.push(role));
        proof {
            reveal(Seq::filter);
            assert(before.push(role).drop_last() =~= before);
        }
        if role.color != 0 {
            colored.push(role);
        }
        k = k + 1;
    }
    assert(all_roles@.take(k as int) =~= all_roles@);
    let roles = &colored;
    if roles.len() == 0 {
        return Ok(None);
    }
    let mut top: usize = 0;
    let mut i: usize = 1;
    while i < roles.len()
        invariant
            1 <= i <= roles.len(),
            top < i,
            top as int == top_role_index(roles@.take(i as int)),
        decreases roles.len() - i,
    {
        let ghost prefix = roles@.take(i + 1);
        assert(prefix.drop_last() =~= roles@.take(i as int));
        assert(prefix[top as int] == roles@[top as int]);
        if roles[i].position >= roles[top].position {
            top = i;
        }
        i = i + 1;
    }
    assert(roles@.take(i as int) =~= roles@);
    match u32_to_i32(roles[top].color) {
        Ok(c) => Ok(Some(c)),
        Err(e) => Err(e),
    }
}

impl Member {
    /// Member's colour, from their highest coloured role among those in the cache; roles that
    /// the cache does not hold are skipped.
    pub fn color(&self, cache: &DiscordCache) -> (r: Result<Option<i32>, OutOfRange>)
        requires
            forall|i: int| 0 <= i < self.roles.len() ==> #[trigger] self.roles[i] != 0,
        ensures
            exists|lookups: Seq<Option<Role>>|
                lookups_match(self.roles@, lookups, |role: Role| role.id)
                && #[trigger] color_outcome(somes(lookups)) == r,
            exists|reads: Seq<CacheRead<u64, Option<Role>>>|
                #[trigger] reads_of_ids(self.roles@, reads) && color_outcome(somes(answers(reads))) == r,
    {
        let mut lookups: Vec<Option<Role>> = Vec::new();
        let ghost mut reads: Seq<CacheRead<u64, Option<Role>>> = Seq::empty();
        let mut i: usize = 0;
        while i < self.roles.len()
            invariant
                0 <= i <= self.roles.len(),
                forall|j: int| 0 <= j < self.roles.len() ==> #[trigger] self.roles[j] != 0,
                lookups.len() == i,
                forall|k: int| 0 <= k < i ==> (#[trigger] lookups@[k] matches Some(role) ==> role.id == self.roles@[k]),
                reads_of_ids(self.roles@.take(i as int), reads),
                lookups@ == answers(reads),
            decreases self.roles.len() - i,
        {
            let read = cached_role(cache, self.roles[i]);
            proof {
                assert(answers(reads.push(read)) =~= answers(reads).push(read.answer()));
                reads = reads.push(read);
            }
            lookups.push(read.into_answer());
            i = i + 1;
        }
        assert(self.roles@.take(i as int) =~= self.roles@);
        let ghost found = lookups@;
        assert(lookups_match(self.roles@, found, |role: Role| role.id));
        let roles = found_items(lookups);
        highest_role_color(&roles)
    }
}

/// Every coloured role that the lookups of a member's roles found weighs in the colour: the
/// member has a colour, it is that of a found coloured role, and no found coloured role stands
/// higher than the one it comes from.
pub proof fn law_color_weighs_every_found_role(lookups: Seq<Option<Role>>)
    ensures
        forall|k: int| 0 <= k < lookups.len() ==> (#[trigger] lookups[k] matches Some(role) ==> (is_colored(role) ==> {
            let colored = colored_roles(somes(lookups));
            &&& colored.len() > 0
            &&& role.position <= colored[top_role_index(colored)].position
            &&& somes(lookups).contains(colored[top_role_index(colored)])
            &&& is_colored(colored[top_role_index(colored)])
        })),
{
    law_found_items_are_kept(lookups);
    let found = somes(lookups);
    let colored = colored_roles(found);
    law_color_of_highest_colored_role(found);
    assert forall|k: int| 0 <= k < lookups.len() implies (#[trigger] lookups[k] matches Some(role) ==> (is_colored(role) ==> {
            &&& colored.len() > 0
            &&& role.position <= colored[top_role_index(colored)].position
            &&& found.contains(colored[top_role_index(colored)])
            &&& is_colored(colored[top_role_index(colored)])
        })) by {
        if lookups[k] is Some && is_colored(lookups[k]->0) {
            let role = lookups[k]->0;
            assert(found.contains(role));
            let m = choose|m: int| 0 <= m < found.len() && found[m] == role;
            found.lemma_filter_contains(|r: Role| is_colored(r), m);
            assert(colored.contains(role));
            let j = choose|j: int| 0 <= j < colored.len() && colored[j] == role;
            lemma_top_role_is_highest(colored);
            assert(colored[j].position <= colored[top_role_index(colored)].position);
        }
    }
}

/// When no two different coloured roles share a position, the colour does not depend on the
/// order in which the roles are listed: two lists of the same roles give the same colour.
pub proof fn law_color_ignores_role_order(a: Seq<Role>, b: Seq<Role>)
    requires
        a.to_set() == b.to_set(),
        forall|x: Role, y: Role| #![trigger a.contains(x), a.contains(y)]
            a.contains(x) && a.contains(y) && is_colored(x) && is_colored(y) && x != y ==> x.position != y.position,
    ensures
        color_outcome(a) == color_outcome(b),
{
    let ca = colored_roles(a);
    let cb = colored_roles(b);
    assert forall|x: Role| ca.contains(x) <==> (a.contains(x) && is_colored(x)) by {
        if ca.contains(x) {
            a.lemma_filter_contains_rev(|r: Role| is_colored(r), x);
            let k = choose|k: int| 0 <= k < ca.len() && ca[k] == x;
            a.lemma_filter_pred(|r: Role| is_colored(r), k);
        }
        if a.contains(x) && is_colored(x) {
            let k = choose|k: int| 0 <= k < a.len() && a[k] == x;
            a.lemma_filter_contains(|r: Role| is_colored(r), k);
        }
    }
    assert forall|x: Role| cb.contains(x) <==> (b.contains(x) && is_colored(x)) by {
        if cb.contains(x) {
            b.lemma_filter_contains_rev(|r: Role| is_colored(r), x);
            let k = choose|k: int| 0 <= k < cb.len() && cb[k] == x;
            b.lemma_filter_pred(|r: Role| is_colored(r), k);
        }
        if b.contains(x) && is_colored(x) {
            let k = choose|k: int| 0 <= k < b.len() && b[k] == x;
            b.lemma_filter_contains(|r: Role| is_colored(r), k);
        }
    }
    assert forall|x: Role| a.contains(x) <==> b.contains(x) by {
        assert(a.to_set().contains(x) == a.contains(x));
        assert(b.to_set().contains(x) == b.contains(x));
    }
    if ca.len() > 0 {
        let x = ca[0];
        assert(ca.contains(x));
        assert(cb.contains(x));
        lemma_top_role_is_highest(ca);
        lemma_top_role_is_highest(cb);
        let ta = ca[top_role_index(ca)];
        let tb = cb[top_role_index(cb)];
        assert(ca.contains(ta));
        assert(cb.contains(tb));
        assert(cb.contains(ta));
        assert(ca.contains(tb));
        let ka = choose|k: int| 0 <= k < ca.len() && ca[k] == tb;
        let kb = choose|k: int| 0 <= k < cb.len() && cb[k] == ta;
        assert(ca[ka].position <= ta.position);
        assert(cb[kb].position <= tb.position);
        assert(ta == tb);
    } else if cb.len() > 0 {
        let x = cb[0];
        assert(cb.contains(x));
        assert(ca.contains(x));
    }
}

} // verus!
