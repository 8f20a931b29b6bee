//! The name by which an account is known to the users of a node.

use vstd::prelude::*;

verus! {

/// The name of an account, unique within a node.
#[derive(Debug, PartialEq, Eq, Hash)]
pub struct Username {
    /// The text of the name.
    pub name: String,
}

impl View for Username {
    type V = Seq<char>;

    open spec fn view(&self) -> Seq<char> {
        self.name@
    }
}

impl Clone for Username {
    fn clone(&self) -> (copy: Self)
        ensures
            copy@ == self@,
            copy.name@ == self.name@,
    {
        Username { name: self.name.clone() }
    }
}

} // verus!
