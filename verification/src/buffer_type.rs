//! Element types of buffers.

use vstd::prelude::*;

verus! {

/// An element type that a buffer can hold.
pub trait BufferType: Clone + Copy + Default + PartialEq + Send + Sync + 'static {
    /// The value that fresh host storage is filled with.
    spec fn zero() -> Self;

    /// Host storage for `size` elements, each of them zero.
    fn get_vec(size: usize) -> (v: Vec<Self>)
        ensures
            v@ == Seq::new(size as nat, |i: int| Self::zero()),
    ;
}

impl BufferType for u8 {
    open spec fn zero() -> Self {
        0
    }

    fn get_vec(size: usize) -> (v: Vec<Self>) {
        let v = vec![0; size];
        assert(v@ =~= Seq::new(size as nat, |i: int| Self::zero()));
        v
    }
}

impl BufferType for i8 {
    open spec fn zero() -> Self {
        0
    }

    fn get_vec(size: usize) -> (v: Vec<Self>) {
        let v = vec![0; size];
        assert(v@ =~= Seq::new(size as nat, |i: int| Self::zero()));
        v
    }
}

impl BufferType for u16 {
    open spec fn zero() -> Self {
        0
    }

    fn get_vec(size: usize) -> (v: Vec<Self>) {
        let v = vec![0; size];
        assert(v@ =~= Seq::new(size as nat, |i: int| Self::zero()));
        v
    }
}

impl BufferType for i16 {
    open spec fn zero() -> Self {
        0
    }

    fn get_vec(size: usize) -> (v: Vec<Self>) {
        let v = vec![0; size];
        assert(v@ =~= Seq::new(size as nat, |i: int| Self::zero()));
        v
    }
}

impl BufferType for u32 {
    open spec fn zero() -> Self {
        0
    }

    fn get_vec(size: usize) -> (v: Vec<Self>) {
        let v = vec![0; size];
        assert(v@ =~= Seq::new(size as nat, |i: int| Self::zero()));
        v
    }
}

impl BufferType for i32 {
    open spec fn zero() -> Self {
        0
    }

    fn get_vec(size: usize) -> (v: Vec<Self>) {
        let v = vec![0; size];
        assert(v@ =~= Seq::new(size as nat, |i: int| Self::zero()));
        v
    }
}

impl BufferType for u64 {
    open spec fn zero() -> Self {
        0
    }

    fn get_vec(size: usize) -> (v: Vec<Self>) {
        let v = vec![0; size];
        assert(v@ =~= Seq::new(size as nat, |i: int| Self::zero()));
        v
    }
}

impl BufferType for i64 {
    open spec fn zero() -> Self {
        0
    }

    fn get_vec(size: usize) -> (v: Vec<Self>) {
        let v = vec![0; size];
        assert(v@ =~= Seq::new(size as nat, |i: int| Self::zero()));
        v
    }
}

impl BufferType for isize {
    open spec fn zero() -> Self {
        0
    }

    fn get_vec(size: usize) -> (v: Vec<Self>) {
        let v = vec![0; size];
        assert(v@ =~= Seq::new(size as nat, |i: int| Self::zero()));
        v
    }
}

impl BufferType for usize {
    open spec fn zero() -> Self {
        0
    }

    fn get_vec(size: usize) -> (v: Vec<Self>) {
        let v = vec![0; size];
        assert(v@ =~= Seq::new(size as nat, |i: int| Self::zero()));
        v
    }
}

} // verus!
