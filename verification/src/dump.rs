//! Writing compiled objects to disk.

use crate::call::{Call, Kind, RawRef, Resource};
use crate::continuation::{Finish, Wrap};
use crate::error::{Check, Phase};
use crate::operation::{Handle, Owns, Pending, Reference};
use crate::text::to_c_str;
use std::marker::PhantomData;
use vstd::multiset::Multiset;
use vstd::prelude::*;

verus! {

broadcast use crate::call::group_adding_nothing;

/// Writes compiled objects to disk.
///
/// For use with
/// [`ObjectTransformLayer::set_transform`](crate::layer::ObjectTransformLayer::set_transform).
#[derive(Debug)]
pub struct DumpObjects {
    raw: RawRef,
}

impl Owns for DumpObjects {
    open spec fn owned(&self) -> Multiset<Resource> {
        Resource::of(Some(Kind::DumpObjects), self.raw())
    }
}

impl Reference for DumpObjects {
    closed spec fn raw(&self) -> RawRef {
        self.raw
    }
}

impl Handle for DumpObjects {
    open spec fn kind() -> Option<Kind> {
        Some(Kind::DumpObjects)
    }

    open spec fn never_null() -> bool {
        false
    }

    proof fn owns_its_reference(&self) {
    }

    fn wrap(raw: RawRef) -> (handle: Self) {
        DumpObjects { raw }
    }

    fn rejects_null() -> (answer: bool) {
        false
    }
}

impl DumpObjects {
    /// Creates a helper that writes to `dump_dir`, under the name
    /// `identifier_override`, or under the object's own where that is empty.
    pub fn create(
        dump_dir: &str,
        identifier_override: &str,
    ) -> (operation: Pending<Wrap<DumpObjects>>)
        ensures
            ({
                &&& operation.call matches Call::CreateDumpObjects {
                    dump_dir: c_dir,
                    identifier_override: c_id,
                }
                &&& c_dir@ == crate::text::c_text(dump_dir@)
                &&& c_id@ == crate::text::c_text(identifier_override@)
            }),
            operation.wf(),
            operation.owned() == Multiset::<Resource>::empty(),
    {
        let call = Call::CreateDumpObjects {
            dump_dir: to_c_str(dump_dir),
            identifier_override: to_c_str(identifier_override),
        };
        Pending { call, next: Wrap { marker: PhantomData } }
    }

    /// Writes the object in the buffer that `obj_buffer` points to.
    pub fn call(&self, obj_buffer: RawRef) -> (operation: Pending<Check>)
        ensures
            operation.call == (Call::DumpObjectsCallOperator {
                dump: self.raw(),
                buffer: obj_buffer,
            }),
            operation.next.phase is Status,
            operation.wf(),
            operation.owned() == Multiset::<Resource>::empty(),
    {
        let call = Call::DumpObjectsCallOperator { dump: self.raw, buffer: obj_buffer };
        Pending { call, next: Check { phase: Phase::Status } }
    }

    /// Disposes of the helper.
    pub fn drop(self) -> (operation: Pending<Finish>)
        ensures
            operation.call == (Call::DisposeDumpObjects { dump: self.raw() }),
            operation.wf(),
            operation.owned() == self.owned(),
    {
        Pending { call: Call::DisposeDumpObjects { dump: self.raw }, next: Finish }
    }

    /// The reference.
    pub fn as_raw(&self) -> (raw: RawRef)
        ensures
            raw == self.raw(),
    {
        self.raw
    }
}

} // verus!
