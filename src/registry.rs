//! The process-wide, write-once slot that binds one entrypoint to the native
//! dispatcher.
use vstd::prelude::*;

verus! {

/// A second registration was attempted; the first entrypoint stays.
#[derive(Clone, Copy, Debug, PartialEq, Eq, Structural)]
pub enum FFIServiceMainError {
    FailedToSetGlobalServiceMain,
}

impl FFIServiceMainError {
    /// The error's text.
    pub fn message(&self) -> (r: &'static str)
        ensures
            r@ == "FailedToSetGlobalServiceMain"@,
    {
        "FailedToSetGlobalServiceMain"
    }
}

/// The slot's contents and the result after registering `f` into `entry`: the
/// first registration is kept, a later one fails.
pub open spec fn registered<T>(entry: Option<T>, f: T) -> (Option<T>, Result<(), FFIServiceMainError>) {
    match entry {
        Some(_) => (entry, Err(FFIServiceMainError::FailedToSetGlobalServiceMain)),
        None => (Some(f), Ok(())),
    }
}

/// A slot that holds at most one entrypoint and is written at most once.
pub struct DispatchRegistry<T> {
    slot: Option<T>,
}

impl<T> DispatchRegistry<T> {
    /// The registered entrypoint, if any.
    pub closed spec fn entry(&self) -> Option<T> {
        self.slot
    }

    /// An empty registry.
    pub fn new() -> (r: Self)
        ensures
            r.entry() is None,
    {
        DispatchRegistry { slot: None }
    }

    /// Register `f`. Fails, leaving the registry as it was, when an entrypoint
    /// is already registered.
    pub fn set(&mut self, f: T) -> (r: Result<(), FFIServiceMainError>)
        ensures
            (final(self).entry(), r) == registered(old(self).entry(), f),
    {
        if self.slot.is_some() {
            Err(FFIServiceMainError::FailedToSetGlobalServiceMain)
        } else {
            self.slot = Some(f);
            Ok(())
        }
    }

    /// The registered entrypoint, if any.
    pub fn get(&self) -> (r: Option<&T>)
        ensures
            r is None <==> self.entry() is None,
            r matches Some(x) ==> self.entry() == Some(*x),
    {
        match &self.slot {
            Some(f) => Some(f),
            None => None,
        }
    }
}

/// Register `f` as this process's entrypoint; only the first call succeeds.
pub fn set_service_main<T>(registry: &mut DispatchRegistry<T>, f: T) -> (r: Result<(), FFIServiceMainError>)
    ensures
        (final(registry).entry(), r) == registered(old(registry).entry(), f),
{
    registry.set(f)
}

/// Call the registered entrypoint with the dispatcher's arguments.
pub fn service_main<F: Fn(Vec<String>)>(registry: &DispatchRegistry<F>, args: Vec<String>)
    requires
        registry.entry() is Some,
        registry.entry().unwrap().requires((args,)),
    ensures
        registry.entry().unwrap().ensures((args,), ()),
{
    match registry.get() {
        Some(main) => main(args),
        None => {},
    }
}

/// Registering twice, from any state, leaves the first entrypoint in place, and
/// the second attempt reports the failure.
pub proof fn second_registration_keeps_first<T>(entry: Option<T>, first: T, second: T)
    ensures
        registered(entry, first).0 is Some,
        registered(registered(entry, first).0, second) == (
            registered(entry, first).0,
            Err::<(), _>(FFIServiceMainError::FailedToSetGlobalServiceMain),
        ),
{
}

} // verus!
