use crate::types::ActionSubmitter;
use std::marker::PhantomData;
use std::sync::Arc;
use vstd::prelude::*;

verus! {

/// Passes each submitted action through `f` and submits the result to
/// `submitter` where `f` gives `Some`; an action for which `f` gives `None`
/// is dropped.
#[verifier::reject_recursive_types(A1)]
#[verifier::reject_recursive_types(A2)]
pub struct ActionSubmitterMap<A1, A2, F, S> where F: Fn(A1) -> Option<A2> {
    submitter: S,
    f: F,
    _phantom: PhantomData<A1>,
}

impl<A1, A2, F, S> ActionSubmitterMap<A1, A2, F, S> where F: Fn(A1) -> Option<A2> {
    /// `f` can be applied to every action.
    #[verifier::type_invariant]
    spec fn map_fn_total(self) -> bool {
        forall|a: A1| #[trigger] self.f.requires((a,))
    }

    /// The function applied to each submitted action.
    pub closed spec fn map_fn(self) -> F {
        self.f
    }

    /// The submitter that mapped actions are forwarded to.
    pub closed spec fn inner_submitter(self) -> S {
        self.submitter
    }

    pub fn new(submitter: S, f: F) -> (r: Self)
        requires
            forall|a: A1| #[trigger] f.requires((a,)),
        ensures
            r.inner_submitter() == submitter,
            r.map_fn() == f,
    {
        ActionSubmitterMap { submitter, f, _phantom: PhantomData }
    }

    /// What a submission of `action` forwards to the inner submitter:
    /// `Some(b)` means that `b` is submitted, `None` that nothing is.
    pub fn map_action(&self, action: A1) -> (r: Option<A2>)
        ensures
            self.map_fn().ensures((action,), r),
    {
        proof {
            use_type_invariant(self);
        }
        (self.f)(action)
    }
}

impl<A1, A2, F, S> ActionSubmitter<A1> for ActionSubmitterMap<A1, A2, F, S> where
    A1: Send + Sync + 'static,
    A2: Send + Sync + 'static,
    F: Fn(A1) -> Option<A2> + Send + Sync + 'static,
    S: ActionSubmitter<A2>,
 {
    fn submit(&self, action: A1) {
        match self.map_action(action) {
            Some(mapped) => self.submitter.submit(mapped),
            None => {},
        }
    }
}

/// Another handle to the value that `a` points to (`Arc::clone`).
#[verifier::external_body]
fn share<T>(a: &Arc<T>) -> (r: Arc<T>)
    ensures
        r == *a,
{
    Arc::clone(a)
}

/// The handle through which submitted actions reach the dispatch pipeline;
/// every clone shares one dispatch value.
pub struct DispatchSubmitter<D> {
    dispatch: Arc<D>,
}

impl<D> DispatchSubmitter<D> {
    /// The dispatch pipeline that actions are handed to.
    pub closed spec fn dispatch_value(self) -> Arc<D> {
        self.dispatch
    }

    pub fn new(dispatch: Arc<D>) -> (r: Self)
        ensures
            r.dispatch_value() == dispatch,
    {
        DispatchSubmitter { dispatch }
    }

    /// A handle to the shared dispatch pipeline.
    pub fn dispatcher(&self) -> (r: Arc<D>)
        ensures
            r == self.dispatch_value(),
    {
        share(&self.dispatch)
    }
}

impl<D> Clone for DispatchSubmitter<D> {
    fn clone(&self) -> (r: Self)
        ensures
            r.dispatch_value() == self.dispatch_value(),
    {
        DispatchSubmitter { dispatch: share(&self.dispatch) }
    }
}

} // verus!
