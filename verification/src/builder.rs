use vstd::prelude::*;

verus! {

/// Obtains a builder that implements [`BuilderFlow`] for a mediator `M`.
pub trait BuilderInternal<M, Flow> where Flow: BuilderFlow<M>, Self: Sized {
    /// Holds of the state a fresh builder starts in.
    spec fn is_initial(flow: Flow) -> bool;

    /// A fresh builder, in its initial state.
    fn builder() -> (flow: Flow)
        ensures
            Self::is_initial(flow),
    ;
}

/// A `BuilderFlow` is generic over `M`, the mediator that
/// [`BuilderFlow::build`] produces. Building always succeeds.
pub trait BuilderFlow<M> where Self: Sized {
    /// Relates the builder's last state to the mediator it produces.
    spec fn builds_to(self, m: M) -> bool;

    /// Consumes the builder and produces the mediator. The builder cannot be
    /// used again afterwards.
    fn build(self) -> (m: M)
        ensures
            self.builds_to(m),
    ;
}

/// Obtains a builder that implements [`TryBuilderFlow`] for a mediator `M`.
pub trait TryBuilderInternal<M, Flow> where Flow: TryBuilderFlow<M>, Self: Sized {
    /// Holds of the state a fresh builder starts in.
    spec fn is_initial(flow: Flow) -> bool;

    /// A fresh builder, in its initial state.
    fn builder() -> (flow: Flow)
        ensures
            Self::is_initial(flow),
    ;
}

/// A `TryBuilderFlow` is generic over `M`, the mediator that
/// [`TryBuilderFlow::build`] tries to produce. Building fails when a
/// required dependency was never supplied.
pub trait TryBuilderFlow<M> where Self: Sized {
    /// How a missing dependency is reported.
    type Error;

    /// Whether every dependency this builder requires has been supplied.
    spec fn can_build(self) -> bool;

    /// Relates the builder's last state to the mediator it produces.
    spec fn builds_to(self, m: M) -> bool;

    /// Consumes the builder. Produces the mediator exactly when every
    /// required dependency was supplied, and reports the missing dependency
    /// otherwise; either way the builder cannot be used again.
    fn build(self) -> (r: Result<M, Self::Error>)
        ensures
            r is Ok <==> self.can_build(),
            r is Ok ==> self.builds_to(r->Ok_0),
    ;
}

} // verus!
