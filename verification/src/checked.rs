use vstd::prelude::*;

verus! {

/// A step up to the successor, refused at the upper end of the range.
pub trait AddOne: Sized {
    /// The successor, or nothing at the upper end.
    spec fn add_one_spec(&self) -> Option<Self>;

    fn checked_add_one(&self) -> (r: Option<Self>)
        ensures
            r == self.add_one_spec(),
    ;
}

/// A step down to the predecessor, refused at the lower end of the range.
pub trait SubOne: Sized {
    /// The predecessor, or nothing at the lower end.
    spec fn sub_one_spec(&self) -> Option<Self>;

    fn checked_sub_one(&self) -> (r: Option<Self>)
        ensures
            r == self.sub_one_spec(),
    ;
}

} // verus!
