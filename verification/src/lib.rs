//! A type-erased `Box<dyn Trait>` that carries its vtable pointer out of band.
//!
//! `VBox` is just like a `Box<dyn Trait>` but erases the type `Trait`, so a
//! channel or queue carrying it does not need `Trait` among its type
//! parameters. Only the producer and the consumer need to agree on the trait.
//!
//! Internally, a `VBox` stores the trait object's data half in a
//! `Box<dyn Any + Send>` (so the payload's destructor still runs when the
//! container is dropped), the vtable half as a plain `usize` word (so the
//! container stays `Send`), and the payload's `TypeId` for a debug-time
//! cross-check at unpack.
//!
//! The container neither validates nor inspects its fields: `new` stores the
//! three fields verbatim and `unpack` surrenders them verbatim, and that is
//! exactly what the contracts below state. Reassembling a fat pointer from the
//! surrendered halves is inherently unsafe and left to the caller, who must
//! unpack under the same trait that was used to pack.

use std::any::Any;
use std::any::TypeId;
use vstd::prelude::*;

verus! {

/// Declares `std::any::TypeId` to the verifier: an opaque,
/// equality-comparable token identifying a concrete type. The container only
/// stores and surrenders such tokens; it never inspects one.
#[verifier::external_type_specification]
#[verifier::external_body]
pub struct ExTypeId(TypeId);

/// An owning, thread-transferable handle to a heap-resident payload whose
/// concrete type has been erased.
///
/// Trusted: the verifier sees this type as opaque. It relies on
/// `Box<dyn Any + Send>`: the handle uniquely owns the payload, keeps it
/// `Send`, and runs the payload's destructor exactly once, when the handle
/// itself is dropped. Callers build one with a struct literal and take the
/// payload back out through the `inner` field.
#[verifier::external_body]
pub struct AnyBox {
    /// The owning handle; boxed so the payload is dropped with the handle.
    pub inner: Box<dyn Any + Send>,
}

/// A type-erased `Box<dyn Trait>` that stores the vtable pointer.
///
/// The stored trait never appears in this type, so two containers packed
/// under different traits are values of this same type. A container uniquely
/// owns its payload; dropping it unpacked drops the payload.
pub struct VBox {
    /// The data pointer, behind an erased owning handle.
    data: AnyBox,

    /// The vtable pointer, stored as a plain word to keep the container `Send`.
    vtable: usize,

    /// Identity token recorded at pack time, for a debug cross-check at
    /// unpack.
    type_id: TypeId,
}

impl View for VBox {
    type V = (AnyBox, usize, TypeId);

    /// A container is, mathematically, exactly its three fields.
    closed spec fn view(&self) -> (AnyBox, usize, TypeId) {
        (self.data, self.vtable, self.type_id)
    }
}

impl VBox {
    /// The container that `new` builds from the three fields.
    pub closed spec fn spec_new(data: AnyBox, vtable: usize, type_id: TypeId) -> VBox {
        VBox { data, vtable, type_id }
    }

    /// Create a new `VBox` from an erased owning handle, a vtable word and the
    /// payload's type id. Stores the three fields verbatim, with no
    /// validation; the caller is responsible for the fields belonging
    /// together.
    pub fn new(data: AnyBox, vtable: usize, type_id: TypeId) -> (r: Self)
        ensures
            r == VBox::spec_new(data, vtable, type_id),
            r@ == (data, vtable, type_id),
    {
        VBox { data, vtable, type_id }
    }

    /// Unpack the `VBox` and surrender the fields needed to rebuild the
    /// original trait object: the erased owning handle, the vtable word and
    /// the payload's type id, exactly as they were stored.
    pub fn unpack(self) -> (r: (AnyBox, usize, TypeId))
        ensures
            r == self@,
    {
        (self.data, self.vtable, self.type_id)
    }
}

/// Round trip, packing first: unpacking a container built from three fields
/// surrenders exactly those fields. Nothing is altered, lost or invented on
/// the way through the container.
pub proof fn lemma_new_then_unpack(data: AnyBox, vtable: usize, type_id: TypeId)
    ensures
        VBox::spec_new(data, vtable, type_id)@ == (data, vtable, type_id),
{
}

/// Round trip, unpacking first: rebuilding a container from the fields an
/// unpack surrenders yields the original container again.
pub proof fn lemma_unpack_then_new(b: VBox)
    ensures
        VBox::spec_new(b@.0, b@.1, b@.2) == b,
{
}

} // verus!
