//! Hooks into the application of transactions: a strategy that may observe metering and
//! veto a transition before it happens.
use crate::error::Result;
use vstd::prelude::*;

verus! {

/// Interception of metering during apply. Every method defaults to doing nothing; a `before_*`
/// method that fails blocks the transaction, an `on_*` method that fails fails it.
pub trait ApplyHook: Sized {
    /// Whether this hook answers every call with `Ok` and leaves itself unchanged, as the
    /// defaults do. An implementation that overrides a method keeps the default `false`.
    open spec fn allows_everything() -> bool {
        false
    }

    /// Before a meter is opened (or reopened).
    fn before_meter_open(&mut self, _owner: &str, _service_id: &str, _deposit: u64) -> (r: Result<()>)
        ensures
            Self::allows_everything() ==> r is Ok && *final(self) == *old(self),
        default_ensures
            r is Ok,
            *final(self) == *old(self),
    {
        Ok(())
    }

    /// After a meter is opened.
    fn on_meter_opened(&mut self, _owner: &str, _service_id: &str, _deposit: u64) -> (r: Result<()>)
        ensures
            Self::allows_everything() ==> r is Ok && *final(self) == *old(self),
        default_ensures
            r is Ok,
            *final(self) == *old(self),
    {
        Ok(())
    }

    /// Before a consumption is recorded.
    fn before_consume(&mut self, _owner: &str, _service_id: &str, _units: u64, _cost: u64) -> (r: Result<()>)
        ensures
            Self::allows_everything() ==> r is Ok && *final(self) == *old(self),
        default_ensures
            r is Ok,
            *final(self) == *old(self),
    {
        Ok(())
    }

    /// After a consumption is recorded; `cap_id` is the capability of a delegated one.
    fn on_consume_recorded(
        &mut self,
        _owner: &str,
        _service_id: &str,
        _units: u64,
        _cost: u64,
        _cap_id: Option<&str>,
    ) -> (r: Result<()>)
        ensures
            Self::allows_everything() ==> r is Ok && *final(self) == *old(self),
        default_ensures
            r is Ok,
            *final(self) == *old(self),
    {
        Ok(())
    }

    /// Before a meter is closed; `deposit` is what will be returned.
    fn before_meter_close(&mut self, _owner: &str, _service_id: &str, _deposit: u64) -> (r: Result<()>)
        ensures
            Self::allows_everything() ==> r is Ok && *final(self) == *old(self),
        default_ensures
            r is Ok,
            *final(self) == *old(self),
    {
        Ok(())
    }

    /// After a meter is closed.
    fn on_meter_closed(&mut self, _owner: &str, _service_id: &str, _deposit: u64) -> (r: Result<()>)
        ensures
            Self::allows_everything() ==> r is Ok && *final(self) == *old(self),
        default_ensures
            r is Ok,
            *final(self) == *old(self),
    {
        Ok(())
    }
}

/// The hook that does nothing.
#[derive(Debug, Clone, Default)]
pub struct NoOpHook;

impl ApplyHook for NoOpHook {
    open spec fn allows_everything() -> bool {
        true
    }
}

} // verus!
pub use self::ApplyHook as Hook;
