//! The permissions a user holds, as `module.name` strings.

use vstd::prelude::*;

use crate::entity::auth_permission::Model as Permission;
use crate::text::join3;

verus! {

/// The name a permission is reported by: its module, a dot, its name.
pub open spec fn permission_name(p: Permission) -> Seq<char> {
    p.module@ + "."@ + p.name@
}

/// The names of the permissions, in order.
pub fn get_user_permissions(permissions: &Vec<Permission>) -> (r: Vec<String>)
    ensures
        r@.len() == permissions@.len(),
        forall|i: int|
            0 <= i < permissions@.len() ==> (#[trigger] r@[i])@ == permission_name(permissions@[i]),
{
    let mut names: Vec<String> = Vec::new();
    let mut i: usize = 0;
    while i < permissions.len()
        invariant
            i <= permissions@.len(),
            names@.len() == i,
            forall|j: int| 0 <= j < i ==> (#[trigger] names@[j])@ == permission_name(permissions@[j]),
        decreases permissions.len() - i,
    {
        let p = &permissions[i];
        names.push(join3(p.module.as_str(), ".", p.name.as_str()));
        i = i + 1;
    }
    names
}

} // verus!
