//! Parameter groups: the hierarchy of named folders in which hosts display
//! parameters. Group 0 is the implicit root.

use vstd::prelude::*;
use crate::text::str_eq;

verus! {

/// Parameter group identifier.
pub type GroupId = i32;

/// The root group (parameters with no group).
pub const ROOT_GROUP_ID: GroupId = 0;

/// Information about a parameter group.
#[derive(Debug, Clone, Copy)]
pub struct GroupInfo {
    /// Unique group identifier.
    pub id: GroupId,
    /// Display name shown in the DAW.
    pub name: &'static str,
    /// Parent group ID (ROOT_GROUP_ID for top-level groups).
    pub parent_id: GroupId,
}

impl GroupInfo {
    /// Create a new group info.
    pub fn new(id: GroupId, name: &'static str, parent_id: GroupId) -> (g: Self)
        ensures
            g.id == id,
            g.name == name,
            g.parent_id == parent_id,
    {
        GroupInfo { id, name, parent_id }
    }

    /// The root group: id 0, empty name, its own parent.
    pub fn root() -> (g: Self)
        ensures
            g.id == ROOT_GROUP_ID,
            g.name@ == ""@,
            g.parent_id == ROOT_GROUP_ID,
    {
        GroupInfo { id: ROOT_GROUP_ID, name: "", parent_id: ROOT_GROUP_ID }
    }
}

/// Whether `r` is the ID of the first group of `groups` named `name`, or
/// `None` when no group is.
pub open spec fn is_first_named_group(groups: Seq<GroupInfo>, name: Seq<char>, r: Option<GroupId>) -> bool {
    &&& r is None <==> forall|i: int| 0 <= i < groups.len() ==> groups[i].name@ != name
    &&& r matches Some(id) ==> exists|i: int|
        0 <= i < groups.len() && groups[i].name@ == name && groups[i].id == id
        && forall|j: int| 0 <= j < i ==> groups[j].name@ != name
}

/// The groups among a sequence of answers, in order.
pub open spec fn present_groups(answers: Seq<Option<GroupInfo>>) -> Seq<GroupInfo>
    decreases answers.len(),
{
    if answers.len() == 0 {
        seq![]
    } else {
        let prev = present_groups(answers.drop_last());
        match answers.last() {
            Some(g) => prev.push(g),
            None => prev,
        }
    }
}

/// Find the ID of the first group in a list whose name is `name`.
pub fn find_group_id_by_name(groups: &[GroupInfo], name: &str) -> (r: Option<GroupId>)
    ensures
        is_first_named_group(groups@, name@, r),
{
    let mut i: usize = 0;
    while i < groups.len()
        invariant
            i <= groups@.len(),
            forall|j: int| 0 <= j < i ==> groups@[j].name@ != name@,
        decreases groups@.len() - i,
    {
        if str_eq(groups[i].name, name) {
            return Some(groups[i].id);
        }
        i += 1;
    }
    None
}

/// Query interface for the group hierarchy of a parameter collection.
pub trait ParameterGroups {
    /// Total number of groups, including the root.
    fn group_count(&self) -> (r: usize)
        default_ensures
            r == 1,
    {
        1
    }

    /// Group info by index; index 0 is the root group.
    fn group_info(&self, index: usize) -> (r: Option<GroupInfo>)
        default_ensures
            index == 0 ==> (r matches Some(g) && g.id == ROOT_GROUP_ID && g.name@ == ""@ && g.parent_id == ROOT_GROUP_ID),
            index != 0 ==> r is None,
    {
        if index == 0 {
            Some(GroupInfo::root())
        } else {
            None
        }
    }

    /// Find a group ID by name: the collection is asked for its group count
    /// and then for the group at each index below it, and the result is the
    /// ID of the first group among the answers whose name is `name`.
    fn find_group_by_name(&self, name: &str) -> (r: Option<GroupId>)
        ensures
            exists|count: usize, answers: Seq<Option<GroupInfo>>|
                #![trigger call_ensures(Self::group_count, (self,), count), present_groups(answers)]
                {
                    &&& call_ensures(Self::group_count, (self,), count)
                    &&& answers.len() == count
                    &&& forall|i: int|
                        0 <= i < count ==> #[trigger] call_ensures(Self::group_info, (self, i as usize), answers[i])
                    &&& is_first_named_group(present_groups(answers), name@, r)
                },
    {
        let count = self.group_count();
        let mut groups: Vec<GroupInfo> = Vec::new();
        let ghost mut answers: Seq<Option<GroupInfo>> = seq![];
        let mut i: usize = 0;
        while i < count
            invariant
                i <= count,
                call_ensures(Self::group_count, (self,), count),
                answers.len() == i,
                forall|k: int| 0 <= k < i ==> #[trigger] call_ensures(Self::group_info, (self, k as usize), answers[k]),
                groups@ == present_groups(answers),
            decreases count - i,
        {
            let info = self.group_info(i);
            proof {
                let prev = answers;
                answers = answers.push(info);
                assert(answers.drop_last() =~= prev);
                assert forall|k: int| 0 <= k < i + 1 implies #[trigger] call_ensures(Self::group_info, (self, k as usize), answers[k]) by {
                    if k < i {
                        assert(answers[k] == prev[k]);
                    }
                }
            }
            match info {
                Some(g) => groups.push(g),
                None => {},
            }
            i += 1;
        }
        let r = find_group_id_by_name(groups.as_slice(), name);
        assert(call_ensures(Self::group_count, (self,), count) && present_groups(answers) == groups@);
        r
    }
}

} // verus!
