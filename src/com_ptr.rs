use vstd::prelude::*;

verus! {

/// A pointer to a COM interface `T`, held as its address.
///
/// The pointer owns one reference of the COM object: the object cannot be
/// destroyed before the last `ComPtr` that uses it is gone. The address is
/// never null, and a `ComPtr` is exactly as large as an address.
pub struct ComPtr<T> {
    addr: usize,
    marker: core::marker::PhantomData<T>,
}

impl<T> ComPtr<T> {
    /// The address of the interface that this pointer holds.
    pub closed spec fn addr(&self) -> usize {
        self.addr
    }

    /// The pointer that holds the address `a`.
    pub closed spec fn holding(a: usize) -> Self {
        ComPtr { addr: a, marker: core::marker::PhantomData }
    }

    /// Any non-null address can be wrapped, and the pointer gives back
    /// exactly that address when it is given up.
    pub proof fn lemma_wrap_then_unwrap(a: usize)
        requires
            a != 0,
        ensures
            Self::holding(a).addr() == a,
    {
    }

    #[verifier::type_invariant]
    closed spec fn non_null(&self) -> bool {
        self.addr != 0
    }

    /// Constructs a `ComPtr` from a non-null address.
    ///
    /// A null address is a programming error at the call site and is not
    /// admitted.
    pub fn new(raw_pointer: usize) -> (r: Self)
        requires
            raw_pointer != 0,
        ensures
            r == Self::holding(raw_pointer),
            r.addr() == raw_pointer,
    {
        ComPtr { addr: raw_pointer, marker: core::marker::PhantomData }
    }

    /// Constructs a `ComPtr` from an address that the caller vouches to be
    /// non-null; nothing is checked at run time.
    pub fn new_unchecked(raw_pointer: usize) -> (r: Self)
        requires
            raw_pointer != 0,
        ensures
            r == Self::holding(raw_pointer),
            r.addr() == raw_pointer,
    {
        ComPtr { addr: raw_pointer, marker: core::marker::PhantomData }
    }

    /// Creates a pointer with a dangling, non-null address: the alignment of
    /// `T`, which no object of `T` is guaranteed to occupy.
    ///
    /// The pointer must be overwritten with a valid one before it is used.
    pub fn dangling() -> (r: Self)
        ensures
            r.addr() as nat == vstd::layout::align_of::<T>(),
    {
        proof {
            broadcast use vstd::layout::align_nonzero;
        }
        let a = core::mem::align_of::<T>();
        ComPtr { addr: a, marker: core::marker::PhantomData }
    }

    /// The pointer to another interface `U` of this COM object, from the
    /// address `queried` that the object's `QueryInterface` wrote to its output.
    ///
    /// The object writes null where it does not implement `U`: there is then
    /// no pointer. Otherwise the object has already counted the new reference,
    /// which the returned pointer owns.
    pub fn query_interface<U>(&self, queried: usize) -> (r: Option<ComPtr<U>>)
        ensures
            r is None <==> queried == 0,
            r matches Some(p) ==> p.addr() == queried,
    {
        if queried == 0 {
            None
        } else {
            Some(ComPtr::new(queried))
        }
    }

    /// Up-casts to an ancestor interface `U` that `T` declares, through
    /// `Deref`, to extend: the same address, seen as a `U`.
    ///
    /// No reference is counted: the result shares this pointer's reference
    /// and must not be released on its own.
    pub fn upcast<U>(&self) -> (r: ComPtr<U>)
        where
            T: core::ops::Deref<Target = U>,
        ensures
            r.addr() == self.addr(),
    {
        proof {
            use_type_invariant(self);
        }
        ComPtr { addr: self.addr, marker: core::marker::PhantomData }
    }

    /// The address through which the interface is reached, for a borrow of
    /// the content.
    pub fn as_raw(&self) -> (r: usize)
        ensures
            r == self.addr(),
            r != 0,
    {
        proof {
            use_type_invariant(self);
        }
        self.addr
    }

    /// Gives up the pointer and returns its address. The reference that it
    /// owned passes to the caller, who must release it in due course.
    pub fn into_raw(self) -> (r: usize)
        ensures
            r == self.addr(),
            r != 0,
    {
        proof {
            use_type_invariant(&self);
        }
        self.addr
    }
}

impl<T> Clone for ComPtr<T> {
    /// A second pointer to the same interface. It owns a reference of its
    /// own, which the object is asked to count (`CountCall::AddRef`).
    fn clone(&self) -> (r: Self)
        ensures
            r.addr() == self.addr(),
    {
        proof {
            use_type_invariant(self);
        }
        ComPtr { addr: self.addr, marker: core::marker::PhantomData }
    }
}

} // verus!
