use vstd::prelude::*;

verus! {

/// Something that can be called once, without arguments.
pub trait Func {
    /// What a call returns.
    type Output;

    /// Whether this may be called.
    spec fn callable(self) -> bool;

    /// Whether a call of this may return `output`.
    spec fn yields(self, output: Self::Output) -> bool;

    /// Call this.
    fn call(self) -> (output: Self::Output)
        requires
            self.callable(),
        ensures
            self.yields(output),
    ;
}

impl<R, F: FnOnce() -> R> Func for F {
    type Output = R;

    open spec fn callable(self) -> bool {
        self.requires(())
    }

    open spec fn yields(self, output: R) -> bool {
        self.ensures((), output)
    }

    fn call(self) -> (output: R) {
        self()
    }
}

} // verus!
