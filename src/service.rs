use std::sync::Arc;
use vstd::prelude::*;

verus! {

/// The collections endpoint: holds a shared handle to the coordinator and no
/// other state, so calls made through it are independent of one another.
pub struct CollectionsService<D> {
    dispatcher: Arc<D>,
}

impl<D> CollectionsService<D> {
    /// The coordinator every call of this service goes to.
    pub closed spec fn spec_dispatcher(&self) -> Arc<D> {
        self.dispatcher
    }

    pub fn new(dispatcher: Arc<D>) -> (r: Self)
        ensures
            r.spec_dispatcher() == dispatcher,
    {
        CollectionsService { dispatcher }
    }

    pub fn dispatcher(&self) -> (r: &Arc<D>)
        ensures
            *r == self.spec_dispatcher(),
    {
        &self.dispatcher
    }
}

} // verus!
