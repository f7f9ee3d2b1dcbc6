use vstd::prelude::*;

verus! {

/// One page of a Reddit listing.
#[derive(Debug, Clone)]
pub struct Listing<T> {
    pub kind: Option<String>,
    pub data: Data<T>,
}

#[derive(Debug, Clone)]
pub struct Data<T> {
    pub after: Option<String>,
    pub children: Vec<Children<T>>,
}

#[derive(Debug, Clone)]
pub struct Children<T> {
    pub kind: Option<String>,
    pub data: T,
}

impl<T> Listing<T> {
    /// The cursor of the page that follows, if there is one.
    pub open spec fn spec_after(&self) -> Option<Seq<char>> {
        self.data.after.deep_view()
    }

}

} // verus!
