//! The two generator variants: builder layers and service configurations.
use vstd::prelude::*;

verus! {

/// Which kind of component a binding is generated for. The variant decides
/// the naming conventions, whether a factory method is recognised, and how
/// durations are mapped.
#[derive(Clone, Copy, Debug, PartialEq, Eq, Structural)]
pub enum Variant {
    /// A composable layer; built from its default value, no factory method.
    Layer,
    /// A service configuration; a method named `new` is its factory.
    Service,
}

impl Variant {
    /// Whether a method named `new` is taken as the factory.
    pub open spec fn detects_factory(self) -> bool {
        self is Service
    }

    /// Whether a method named `new` is taken as the factory.
    pub fn has_factory_detection(self) -> (r: bool)
        ensures
            r == self.detects_factory(),
    {
        match self {
            Variant::Layer => false,
            Variant::Service => true,
        }
    }
}

} // verus!
