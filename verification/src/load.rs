//! Work that waits for the graphics context.
use crate::error::Error;
use crate::graphics::gpu::Gpu;
use core::marker::PhantomData;
use vstd::prelude::*;

verus! {

/// A computation that needs the graphics context and is carried out later,
/// by whoever holds the context then.
///
/// A task does nothing until it is run, and can be run once. It gets the
/// context for itself while it runs, and runs to its end.
pub struct Task<T, F> {
    /// What the task does with the context.
    pub function: F,
    /// What the task produces.
    pub output: PhantomData<T>,
}

impl<T, F: FnOnce(&mut Gpu) -> Result<T, Error>> Task<T, F> {
    /// A task that calls `function` with the graphics context.
    pub fn using_gpu(function: F) -> (task: Self)
        ensures
            task.function == function,
    {
        Task { function, output: PhantomData }
    }

    /// Runs the task: calls its function with `gpu`, once, and hands on what
    /// it produces. What the function promises of a context that it is called
    /// with holds of `gpu`.
    pub fn run(self, gpu: &mut Gpu) -> (output: Result<T, Error>)
        requires
            forall|context: &mut Gpu|
                *context == *old(gpu) ==> #[trigger] call_requires(self.function, (context,)),
        ensures
            exists|context: &mut Gpu|
                {
                    &&& *context == *old(gpu)
                    &&& *final(context) == *final(gpu)
                    &&& #[trigger] call_ensures(self.function, (context,), output)
                },
    {
        (self.function)(gpu)
    }
}

} // verus!
