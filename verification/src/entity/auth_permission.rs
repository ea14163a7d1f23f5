use vstd::prelude::*;

verus! {

/// A stored permission, named by its module and its name.
pub struct Model {
    pub id: i32,
    pub module: String,
    pub name: String,
    pub hidden: bool,
}

} // verus!
