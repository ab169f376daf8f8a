//! The platform API's `Action` record: a named, described action id.

use vstd::prelude::*;

verus! {

/// An action the platform API exposes, identified by its `id`.
#[derive(Clone, Debug)]
pub struct Action {
    pub description: String,
    /// A valid action id, e.g. `"CreateInstance"` or `"ManagePermissions"`.
    pub id: String,
    pub name: String,
}

impl Action {
    /// An `Action` carrying exactly the given fields.
    pub fn new(description: String, id: String, name: String) -> (r: Action)
        ensures
            r.description@ == description@,
            r.id@ == id@,
            r.name@ == name@,
    {
        Action { description, id, name }
    }
}

impl Default for Action {
    /// An `Action` with every field empty.
    fn default() -> (r: Action)
        ensures
            r.description@ == Seq::<char>::empty(),
            r.id@ == Seq::<char>::empty(),
            r.name@ == Seq::<char>::empty(),
    {
        Action { description: String::new(), id: String::new(), name: String::new() }
    }
}

} // verus!
