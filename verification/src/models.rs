//! The sole entity of the system: a cat row with a database-assigned id and
//! a name.

use vstd::prelude::*;

verus! {

/// One row of the `cats` table. Ids are assigned by the store and unique
/// there; names carry no uniqueness constraint.
pub struct Cat {
    pub id: i32,
    pub name: String,
}

/// The mathematical value of a [`Cat`]: its id as an unbounded integer and
/// its name as a sequence of characters.
pub struct CatModel {
    pub id: int,
    pub name: Seq<char>,
}

impl View for Cat {
    type V = CatModel;

    open spec fn view(&self) -> CatModel {
        CatModel { id: self.id as int, name: self.name@ }
    }
}

impl Clone for Cat {
    fn clone(&self) -> (r: Cat)
        ensures
            r == *self,
    {
        Cat { id: self.id, name: self.name.clone() }
    }
}

} // verus!
