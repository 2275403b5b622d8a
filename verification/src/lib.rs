//! A pointer-like type that can only ever be null.
//!
//! [`OnlyNull<T>`] is a handle that denotes exactly the null pointer of some
//! pointee type `T`. It never holds an address; all it stores is the pointer
//! *metadata* that a fully-typed pointer of that shape carries beside its
//! address: nothing for an ordinary sized type, an element count for a slice
//! or string slice. The [`Pointee`] trait is this crate's model of a pointee
//! shape: it names the metadata type that goes with each pointee.
//!
//! Native raw pointers cannot appear in verified code, so the conversion
//! surface works on [`RawParts`], the pair of plain values that the crate
//! reads off a raw pointer: its address and its metadata. Unverified callers
//! split a raw pointer into its parts, hand them in, and rebuild a pointer
//! from the parts handed back.

use vstd::prelude::*;

verus! {

/// A pointee shape: the crate's model of what kind of thing a pointer of
/// some type points at, reduced to the metadata such a pointer carries.
///
/// An ordinary sized type carries no metadata, so every sized type has
/// `Metadata = NoMetadata` through a blanket implementation. A slice `[T]` and `str`
/// carry their element count, `Metadata = usize`. Any further shape whose
/// metadata is a plain copyable value can implement this trait itself.
pub trait Pointee {
    /// The metadata a fully-typed pointer to `Self` carries beside its
    /// address.
    type Metadata: Copy + PartialEq + Eq + core::hash::Hash + core::fmt::Debug;
}

/// The metadata of an ordinary sized pointee: none. A zero-sized stand-in
/// for the unit value, so that shapes can be told apart by their metadata
/// type.
#[derive(Debug, Clone, Copy, PartialEq, Eq, Hash, Structural)]
pub struct NoMetadata;

impl<T> Pointee for T {
    type Metadata = NoMetadata;
}

impl<T> Pointee for [T] {
    type Metadata = usize;
}

impl Pointee for str {
    type Metadata = usize;
}

/// The parts of a native raw pointer that the crate reads: its address and
/// its pointer metadata. The null pointer of shape `T` with metadata `m` has
/// `addr == 0` and `meta == m`.
#[derive(Debug, Clone, Copy, PartialEq, Eq, Hash)]
#[verifier::ext_equal]
pub struct RawParts<T: Pointee + ?Sized> {
    /// The pointer's address; `0` is the null address.
    pub addr: usize,
    /// The pointer's metadata.
    pub meta: T::Metadata,
}

/// A pointer to `T` that is only ever null.
///
/// A value of this type denotes exactly the null pointer of type `T` with the
/// metadata it stores; it cannot represent, nor be converted to, a non-null
/// address. Its view (`@`) is that stored metadata.
#[derive(Debug, Clone, Copy, PartialEq, Eq, Hash)]
#[verifier::ext_equal]
pub struct OnlyNull<T: Pointee + ?Sized> {
    meta: T::Metadata,
}

/// The error returned when a raw pointer whose address is not null is asked
/// to become an [`OnlyNull`]: such a pointer has no null-only representation.
#[derive(Debug, Clone, Copy, PartialEq, Eq, Hash, Structural)]
pub struct ConvertToOnlyNullError;

impl<T: Pointee + ?Sized> View for OnlyNull<T> {
    type V = T::Metadata;

    closed spec fn view(&self) -> T::Metadata {
        self.meta
    }
}

impl<T: Pointee<Metadata = NoMetadata> + ?Sized> OnlyNull<T> {
    /// Creates the null pointer of the metadata-free (ordinary sized) type
    /// `T`.
    pub fn null() -> (r: Self)
        ensures
            r@ == NoMetadata,
    {
        OnlyNull { meta: NoMetadata }
    }

    /// Converts into the parts of a native raw pointer: the null address and
    /// the no-metadata marker. Rebuilt as a raw pointer, the parts give exactly the
    /// null pointer of type `T`.
    pub fn into_raw_parts(self) -> (r: RawParts<T>)
        ensures
            r.addr == 0,
            r.meta == self@,
    {
        RawParts { addr: 0, meta: self.meta }
    }
}

impl<T: Pointee + ?Sized> OnlyNull<T> {
    /// Casts to a pointer of another type `U`, keeping the metadata. `U` must
    /// carry metadata of the same type as `T`.
    pub fn cast<U: Pointee<Metadata = T::Metadata> + ?Sized>(self) -> (r: OnlyNull<U>)
        ensures
            r@ == self@,
    {
        OnlyNull { meta: self.meta }
    }

    /// Attempts to build an [`OnlyNull<T>`] from the parts of a native raw
    /// pointer, of any pointee shape. Succeeds exactly when the address is
    /// null, carrying the pointer's metadata forward; a non-null address is
    /// rejected with [`ConvertToOnlyNullError`].
    pub fn try_from_raw(parts: RawParts<T>) -> (r: Result<Self, ConvertToOnlyNullError>)
        ensures
            parts.addr == 0 <==> r is Ok,
            r matches Ok(p) ==> p@ == parts.meta,
            r matches Err(e) ==> e == ConvertToOnlyNullError,
    {
        if parts.addr == 0 {
            Ok(OnlyNull { meta: parts.meta })
        } else {
            Err(ConvertToOnlyNullError)
        }
    }

    /// Reads back the stored metadata: the element count for a slice shape,
    /// the no-metadata marker for a sized type.
    pub fn metadata(&self) -> (m: T::Metadata)
        ensures
            m == self@,
    {
        self.meta
    }
}

impl<T: Pointee<Metadata = NoMetadata> + ?Sized> Default for OnlyNull<T> {
    /// The default value is the null construction.
    fn default() -> (r: Self)
        ensures
            r@ == NoMetadata,
    {
        OnlyNull { meta: NoMetadata }
    }
}

/// Two null-only pointers to the same pointee type with the same metadata are
/// the same value: the metadata is all a value of this type holds.
pub proof fn lemma_metadata_determines_value<T: Pointee + ?Sized>(a: OnlyNull<T>, b: OnlyNull<T>)
    requires
        a@ == b@,
    ensures
        a == b,
{
    assert(a =~= b);
}

/// The null pointer of an ordinary sized type, sent out as raw-pointer parts
/// under the contract of [`OnlyNull::into_raw_parts`], is exactly the
/// language's null pointer constant for `T`: address zero, no metadata.
pub proof fn lemma_null_to_raw<T: Pointee<Metadata = NoMetadata> + ?Sized>(
    v: OnlyNull<T>,
    parts: RawParts<T>,
)
    requires
        v@ == NoMetadata,
        parts.addr == 0,
        parts.meta == v@,
    ensures
        parts == (RawParts::<T> { addr: 0, meta: NoMetadata }),
{
    assert(parts =~= (RawParts::<T> { addr: 0, meta: NoMetadata }));
}

/// Round trip through the null-only representation. A value built from the
/// parts of a null raw pointer, under the contract of
/// [`OnlyNull::try_from_raw`], and sent back out, under the contract of
/// [`OnlyNull::into_raw_parts`], gives back the parts it was built from,
/// metadata included.
pub proof fn lemma_raw_round_trip<T: Pointee<Metadata = NoMetadata> + ?Sized>(
    parts: RawParts<T>,
    v: OnlyNull<T>,
    back: RawParts<T>,
)
    requires
        parts.addr == 0,
        v@ == parts.meta,
        back.addr == 0,
        back.meta == v@,
    ensures
        back == parts,
{
    assert(back =~= parts);
}

/// Round trip through a cast. Casting to a type of the same metadata shape
/// and back, under the contract of [`OnlyNull::cast`], returns the value the
/// casts started from.
pub proof fn lemma_cast_round_trip<
    T: Pointee + ?Sized,
    U: Pointee<Metadata = T::Metadata> + ?Sized,
>(v: OnlyNull<T>, w: OnlyNull<U>, back: OnlyNull<T>)
    requires
        w@ == v@,
        back@ == w@,
    ensures
        back == v,
{
    lemma_metadata_determines_value(v, back);
}

} // verus!
