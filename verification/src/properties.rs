//! The generic property-access protocol.

use vstd::prelude::*;
use crate::context::{ContextModel, CtxView};
use crate::error::AllenResult;

verus! {

/// Uniform get/set protocol for one named parameter of a native
/// resource, per value shape `T`. A resource implements the protocol
/// once per shape it supports, and its typed getters are thin wrappers
/// over it. Both operations run under the owning context's
/// current-context lock, issue the shape-specific native call, and drain
/// the error register before the lock is released.
pub trait PropertiesContainer<T>: Sized {
    /// When a property access is legal: the context is well-formed and
    /// the resource is usable with it.
    spec fn prop_req(&self, ctx: CtxView, param: i32) -> bool;

    /// State change and result of reading `param` as shape `T`.
    spec fn get_tr(&self, ctx: CtxView, param: i32) -> (CtxView, AllenResult<T>);

    /// State change and result of writing `value` to `param`.
    spec fn set_tr(&self, ctx: CtxView, param: i32, value: T) -> (CtxView, AllenResult<()>);

    /// Read `param` as shape `T`.
    fn get(&self, ctx: &mut ContextModel, param: i32) -> (r: AllenResult<T>)
        requires
            self.prop_req(old(ctx)@, param),
        ensures
            (final(ctx)@, r) == self.get_tr(old(ctx)@, param),
    ;

    /// Write `value` to `param`.
    fn set(&self, ctx: &mut ContextModel, param: i32, value: T) -> (r: AllenResult<()>)
        requires
            self.prop_req(old(ctx)@, param),
        ensures
            (final(ctx)@, r) == self.set_tr(old(ctx)@, param, value),
    ;
}

} // verus!
