use vstd::prelude::*;

verus! {

/// A stand-in execution target: a contract whose one function echoes the
/// greeting it is invoked with. It exists to exercise instruction dispatch
/// end to end without touching any real collaborator.
pub struct DemoContract;

impl DemoContract {
    pub fn demo_exec(greeting: String) -> (r: String)
        ensures
            r == greeting,
    {
        greeting
    }
}

} // verus!
