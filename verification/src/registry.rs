use vstd::prelude::*;

use crate::descriptor::{DistributableFunction, DistributableFunctionView};
use crate::names::{pascal_case, pascal_of};

verus! {

/// Why a registration call is refused.
#[derive(PartialEq, Eq, Structural, Debug)]
pub enum RegistryError {
    /// A callable with the same name is already registered.
    DuplicateName,
    /// A registered callable's name yields the same protocol variant name.
    VariantNameCollision,
    /// Registration was already closed by `finalize_registration`.
    RegistrationClosed,
}

/// The store that accumulates function descriptors during one build pass:
/// callables in one ordered list, middleware in another, with a flag that
/// closes registration before synthesis begins. Appends go through an
/// exclusive reference, so they serialize and no descriptor is lost or
/// duplicated; once synthesis reads a snapshot the registry is only read.
pub struct Registry {
    callables: Vec<DistributableFunction>,
    middleware: Vec<DistributableFunction>,
    finalized: bool,
}

/// Mathematical model of a `Registry`.
#[verifier::ext_equal]
pub struct RegistryView {
    pub callables: Seq<DistributableFunctionView>,
    pub middleware: Seq<DistributableFunctionView>,
    pub finalized: bool,
}

impl View for Registry {
    type V = RegistryView;

    closed spec fn view(&self) -> RegistryView {
        RegistryView {
            callables: self.callables.deep_view(),
            middleware: self.middleware.deep_view(),
            finalized: self.finalized,
        }
    }
}

/// Whether some registered callable already carries the given name.
pub open spec fn has_name(s: Seq<DistributableFunctionView>, name: Seq<char>) -> bool {
    exists|i: int| 0 <= i < s.len() && s[i].name == name
}

/// Whether some registered callable's name yields the given name's protocol
/// variant name.
pub open spec fn has_variant_name(s: Seq<DistributableFunctionView>, name: Seq<char>) -> bool {
    exists|i: int| 0 <= i < s.len() && pascal_of(s[i].name) == pascal_of(name)
}

/// Whether the registered callables all have pairwise distinct names and
/// pairwise distinct protocol variant names: what keeps both synthesized
/// unions free of colliding variants.
pub open spec fn callables_distinct(s: Seq<DistributableFunctionView>) -> bool {
    forall|i: int, j: int|
        0 <= i < j < s.len() ==> s[i].name != s[j].name && pascal_of(s[i].name) != pascal_of(
            s[j].name,
        )
}

impl Registry {
    /// The registry's invariant: no two registered callables collide, by name
    /// or by derived variant name.
    pub open spec fn wf(self) -> bool {
        callables_distinct(self@.callables)
    }

    /// An empty registry, open for registration.
    pub fn new() -> (r: Registry)
        ensures
            r.wf(),
            r@.callables == Seq::<DistributableFunctionView>::empty(),
            r@.middleware == Seq::<DistributableFunctionView>::empty(),
            !r@.finalized,
    {
        let r = Registry { callables: Vec::new(), middleware: Vec::new(), finalized: false };
        proof {
            assert(r@.callables =~~= Seq::<DistributableFunctionView>::empty());
            assert(r@.middleware =~~= Seq::<DistributableFunctionView>::empty());
        }
        r
    }

    /// Appends a callable descriptor, unless registration is closed, a
    /// callable of the same name is already registered, or the derived
    /// protocol variant name collides with a registered one.
    pub fn register_callable(&mut self, d: DistributableFunction) -> (r: Result<
        (),
        RegistryError,
    >)
        requires
            old(self).wf(),
        ensures
            final(self).wf(),
            old(self)@.finalized ==> r == Result::<(), RegistryError>::Err(
                RegistryError::RegistrationClosed,
            ) && final(self)@ == old(self)@,
            !old(self)@.finalized && has_name(old(self)@.callables, d@.name) ==> r == Result::<
                (),
                RegistryError,
            >::Err(RegistryError::DuplicateName) && final(self)@ == old(self)@,
            !old(self)@.finalized && !has_name(old(self)@.callables, d@.name) && has_variant_name(
                old(self)@.callables,
                d@.name,
            ) ==> r == Result::<(), RegistryError>::Err(RegistryError::VariantNameCollision)
                && final(self)@ == old(self)@,
            !old(self)@.finalized && !has_name(old(self)@.callables, d@.name)
                && !has_variant_name(old(self)@.callables, d@.name) ==> r == Result::<
                (),
                RegistryError,
            >::Ok(()) && final(self)@.callables == old(self)@.callables.push(d@)
                && final(self)@.middleware == old(self)@.middleware
                && final(self)@.finalized == old(self)@.finalized,
    {
        if self.finalized {
            return Result::Err(RegistryError::RegistrationClosed);
        }
        let mut i: usize = 0;
        while i < self.callables.len()
            invariant
                *self == *old(self),
                old(self).wf(),
                !self.finalized,
                i <= self.callables.len(),
                forall|j: int| 0 <= j < i ==> self@.callables[j].name != d@.name,
            decreases self.callables.len() - i,
        {
            proof {
                assert(self@.callables[i as int] == self.callables@[i as int].deep_view());
            }
            if self.callables[i].name == d.name {
                return Result::Err(RegistryError::DuplicateName);
            }
            i = i + 1;
        }
        let d_pascal = pascal_case(&d.name);
        let mut i: usize = 0;
        while i < self.callables.len()
            invariant
                *self == *old(self),
                old(self).wf(),
                !self.finalized,
                !has_name(self@.callables, d@.name),
                i <= self.callables.len(),
                d_pascal@ == pascal_of(d@.name),
                forall|j: int|
                    0 <= j < i ==> pascal_of(self@.callables[j].name) != pascal_of(d@.name),
            decreases self.callables.len() - i,
        {
            proof {
                assert(self@.callables[i as int] == self.callables@[i as int].deep_view());
            }
            let p = pascal_case(&self.callables[i].name);
            if p == d_pascal {
                return Result::Err(RegistryError::VariantNameCollision);
            }
            i = i + 1;
        }
        proof {
            assert(!has_name(self@.callables, d@.name));
            assert(!has_variant_name(self@.callables, d@.name));
        }
        let ghost pre = self@;
        self.callables.push(d);
        proof {
            assert forall|j: int| 0 <= j < self@.callables.len() implies self@.callables[j] == (
            if j < pre.callables.len() {
                pre.callables[j]
            } else {
                d@
            }) by {
                assert(self@.callables[j] == self.callables@[j].deep_view());
            }
            assert(self@.callables =~~= pre.callables.push(d@));
            assert(self@.middleware =~~= pre.middleware);
            assert(callables_distinct(self@.callables));
        }
        Result::Ok(())
    }

    /// Appends a middleware descriptor, unless registration is closed.
    /// Middleware never contributes a union variant, so its names need not be
    /// distinct.
    pub fn register_middleware(&mut self, d: DistributableFunction) -> (r: Result<
        (),
        RegistryError,
    >)
        requires
            old(self).wf(),
        ensures
            final(self).wf(),
            old(self)@.finalized ==> r == Result::<(), RegistryError>::Err(
                RegistryError::RegistrationClosed,
            ) && final(self)@ == old(self)@,
            !old(self)@.finalized ==> r == Result::<(), RegistryError>::Ok(())
                && final(self)@.middleware == old(self)@.middleware.push(d@)
                && final(self)@.callables == old(self)@.callables
                && final(self)@.finalized == old(self)@.finalized,
    {
        if self.finalized {
            return Result::Err(RegistryError::RegistrationClosed);
        }
        let ghost pre = self@;
        self.middleware.push(d);
        proof {
            assert forall|j: int| 0 <= j < self@.middleware.len() implies self@.middleware[j] == (
            if j < pre.middleware.len() {
                pre.middleware[j]
            } else {
                d@
            }) by {
                assert(self@.middleware[j] == self.middleware@[j].deep_view());
            }
            assert(self@.middleware =~~= pre.middleware.push(d@));
            assert(self@.callables =~~= pre.callables);
        }
        Result::Ok(())
    }

    /// Closes registration: every later registration call is refused, so the
    /// one-shot synthesis that follows reads a settled snapshot.
    pub fn finalize_registration(&mut self)
        requires
            old(self).wf(),
        ensures
            final(self).wf(),
            final(self)@.finalized,
            final(self)@.callables == old(self)@.callables,
            final(self)@.middleware == old(self)@.middleware,
    {
        self.finalized = true;
    }

    /// Whether registration has been closed.
    pub fn is_finalized(&self) -> (r: bool)
        ensures
            r == self@.finalized,
    {
        self.finalized
    }

    /// Both accumulated lists, for synthesis to read.
    pub fn snapshot(&self) -> (r: (&Vec<DistributableFunction>, &Vec<DistributableFunction>))
        ensures
            r.0.deep_view() == self@.callables,
            r.1.deep_view() == self@.middleware,
    {
        (&self.callables, &self.middleware)
    }
}

} // verus!
