//! The tree of nested parameter groups and the unit IDs it is given.

use vstd::prelude::*;
use crate::parameters::UnitInfo;

verus! {

/// A nested parameter group: its name and the groups nested in it, in
/// declaration order.
#[derive(Debug)]
pub struct GroupNode {
    /// Display name of the group.
    pub name: &'static str,
    /// Groups nested in this one.
    pub children: Vec<GroupNode>,
}

/// The number of groups in a forest, nested ones included.
pub open spec fn forest_count(f: Seq<GroupNode>) -> nat
    decreases f,
{
    if f.len() == 0 {
        0
    } else {
        forest_count(f.drop_last()) + 1 + forest_count(f.last().children@)
    }
}

/// A unit as its ID, name and parent ID.
pub open spec fn unit_view(u: UnitInfo) -> (int, Seq<char>, int) {
    (u.id as int, u.name@, u.parent_id as int)
}

/// The units of a forest of groups, numbered from `start` in depth-first
/// order: each group gets the next ID, then its nested groups are numbered
/// with it as their parent; the top-level groups have parent `parent`.
pub open spec fn forest_units(f: Seq<GroupNode>, start: int, parent: int) -> Seq<(int, Seq<char>, int)>
    decreases f,
{
    if f.len() == 0 {
        seq![]
    } else {
        let before = f.drop_last();
        let id = start + forest_count(before);
        forest_units(before, start, parent) + seq![(id, f.last().name@, parent)] + forest_units(
            f.last().children@,
            id + 1,
            id,
        )
    }
}

proof fn lemma_count_prefix(f: Seq<GroupNode>, i: int)
    requires
        0 <= i <= f.len(),
    ensures
        forest_count(f.take(i)) <= forest_count(f),
    decreases f.len(),
{
    if i == f.len() {
        assert(f.take(i) =~= f);
    } else {
        assert(f.drop_last().take(i) =~= f.take(i));
        lemma_count_prefix(f.drop_last(), i);
    }
}

/// The first ID after numbering a forest of groups from `start_id`, or
/// `None` when the IDs would not fit in an `i32`.
pub fn next_unit_id(groups: &Vec<GroupNode>, start_id: i32) -> (r: Option<i32>)
    ensures
        r matches Some(n) ==> n == start_id + forest_count(groups@),
        r is None ==> start_id + forest_count(groups@) > i32::MAX,
    decreases groups@,
{
    let mut next_id = start_id;
    let mut i: usize = 0;
    while i < groups.len()
        invariant
            i <= groups@.len(),
            next_id == start_id + forest_count(groups@.take(i as int)),
        decreases groups@.len() - i,
    {
        proof {
            assert(groups@.take(i + 1).drop_last() =~= groups@.take(i as int));
            lemma_count_prefix(groups@, i + 1);
            assert(decreases_to!(groups@ => groups@[i as int].children@));
        }
        if next_id == i32::MAX {
            return None;
        }
        match next_unit_id(&groups[i].children, next_id + 1) {
            Some(n) => {
                next_id = n;
            },
            None => {
                return None;
            },
        }
        i += 1;
    }
    proof {
        assert(groups@.take(i as int) =~= groups@);
    }
    Some(next_id)
}

/// Appends the units of a forest of groups, numbered from `start_id` in
/// depth-first order with top-level parent `parent_id`, and returns the
/// next free ID.
pub fn collect_units(groups: &Vec<GroupNode>, units: &mut Vec<UnitInfo>, start_id: i32, parent_id: i32) -> (next_id: i32)
    requires
        start_id + forest_count(groups@) <= i32::MAX,
    ensures
        next_id == start_id + forest_count(groups@),
        final(units)@.map_values(|u: UnitInfo| unit_view(u)) == old(units)@.map_values(|u: UnitInfo| unit_view(u))
            + forest_units(groups@, start_id as int, parent_id as int),
    decreases groups@,
{
    let mut next_id = start_id;
    let mut i: usize = 0;
    proof {
        assert(groups@.take(0) =~= Seq::<GroupNode>::empty());
        assert(old(units)@.map_values(|u: UnitInfo| unit_view(u)) + forest_units(groups@.take(0), start_id as int, parent_id as int)
            =~= old(units)@.map_values(|u: UnitInfo| unit_view(u)));
    }
    while i < groups.len()
        invariant
            i <= groups@.len(),
            start_id + forest_count(groups@) <= i32::MAX,
            next_id == start_id + forest_count(groups@.take(i as int)),
            units@.map_values(|u: UnitInfo| unit_view(u)) == old(units)@.map_values(|u: UnitInfo| unit_view(u))
                + forest_units(groups@.take(i as int), start_id as int, parent_id as int),
        decreases groups@.len() - i,
    {
        let ghost pre = groups@.take(i as int);
        let ghost post = groups@.take(i + 1);
        proof {
            assert(post.drop_last() =~= pre);
            assert(post.last() == groups@[i as int]);
            lemma_count_prefix(groups@, i + 1);
            assert(decreases_to!(groups@ => groups@[i as int].children@));
        }
        let unit_id = next_id;
        next_id = next_id + 1;
        let ghost mid = units@.map_values(|u: UnitInfo| unit_view(u));
        units.push(UnitInfo::new(unit_id, groups[i].name, parent_id));
        proof {
            assert(units@.map_values(|u: UnitInfo| unit_view(u)) =~= mid.push(
                (unit_id as int, groups@[i as int].name@, parent_id as int),
            ));
        }
        next_id = collect_units(&groups[i].children, units, next_id, unit_id);
        proof {
            assert(units@.map_values(|u: UnitInfo| unit_view(u)) =~= old(units)@.map_values(|u: UnitInfo| unit_view(u))
                + forest_units(post, start_id as int, parent_id as int));
        }
        i += 1;
    }
    proof {
        assert(groups@.take(i as int) =~= groups@);
    }
    next_id
}

/// The units of a forest are numbered without gaps or repeats: there is
/// one unit per group, their IDs run `start`, `start + 1`, ... in order,
/// and each unit's parent is either the forest's parent or a unit listed
/// before it.
pub proof fn lemma_units_numbered_in_order(f: Seq<GroupNode>, start: int, parent: int)
    ensures
        forest_units(f, start, parent).len() == forest_count(f),
        forall|k: int| 0 <= k < forest_count(f) ==> #[trigger] forest_units(f, start, parent)[k].0 == start + k,
        forall|k: int|
            0 <= k < forest_count(f) ==> #[trigger] forest_units(f, start, parent)[k].2 == parent || (start
                <= forest_units(f, start, parent)[k].2 < start + k),
    decreases f,
{
    if f.len() > 0 {
        let before = f.drop_last();
        let id = start + forest_count(before);
        let kids = f.last().children@;
        lemma_units_numbered_in_order(before, start, parent);
        lemma_units_numbered_in_order(kids, id + 1, id);
        let a = forest_units(before, start, parent);
        let b = forest_units(kids, id + 1, id);
        let u = forest_units(f, start, parent);
        assert(u == a + seq![(id, f.last().name@, parent)] + b);
        assert forall|k: int| 0 <= k < forest_count(f) implies #[trigger] u[k].0 == start + k && (u[k].2 == parent
            || (start <= u[k].2 < start + k)) by {
            if k < a.len() {
                assert(u[k] == a[k]);
            } else if k == a.len() {
            } else {
                assert(u[k] == b[k - a.len() - 1]);
            }
        }
    }
}

} // verus!
