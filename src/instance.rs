use vstd::prelude::*;

verus! {

/// The runtime kind of an app.
#[derive(PartialEq, Eq, Structural, Clone, Copy, Debug)]
pub enum AppType {
    Jar,
    Wasm,
    Native,
}

/// An exclusively held, reusable in-process sandbox.
#[derive(Clone, Debug)]
pub struct OwnedInstance {
    /// Id given to the sandbox when it was built.
    pub instance_id: u64,
    /// Name of the app it runs.
    pub app: String,
    /// Directory the app's files were loaded from.
    pub dir: String,
}

/// A stateless instance that needs no pooling.
#[derive(PartialEq, Eq, Structural, Clone, Copy, Debug)]
pub struct NativeAppInstance {}

impl NativeAppInstance {
    pub fn new() -> (r: Self)
        ensures
            r == (NativeAppInstance {  }),
    {
        NativeAppInstance {  }
    }
}

/// A reference to the handle that fronts the one external process of an app.
#[derive(Clone, Debug)]
pub struct SharedHandle {
    pub app: String,
}

/// An instance handed out for one invocation.
#[derive(Clone, Debug)]
pub enum Instance {
    Owned(OwnedInstance),
    Shared(SharedHandle),
    Native(NativeAppInstance),
}

} // verus!
