//! Arrays of elements with a shape, over a memory allocation.
use crate::device::{memory_allocation_status, DeviceState, MemoryState, MAX_ALLOCATION_SIZE};
use crate::element::{decode_seq, encode_seq, Element};
use crate::error::{TaichiError, TaichiResult};
use crate::memory::{same_instance, MappedMemory, Memory, MemoryBuilder};
use crate::runtime::{Runtime, RuntimeState};
use crate::sys::{
    TiDataType, TiError, TiMemory, TiMemoryAllocateInfo, TiMemoryUsageFlags, TiNdArray,
    TiNdShape, MAX_DIM_COUNT, TI_FALSE,
};
use std::marker::PhantomData;
use vstd::prelude::*;

verus! {

/// One more than the largest allocation: sizes at or above it are all refused.
pub const SIZE_CAP: u64 = 1073741825;

/// The extents a shape holds.
pub open spec fn dims_of(s: TiNdShape) -> Seq<u32> {
    s.dims@.subrange(0, s.dim_count as int)
}

/// The product of the extents: the number of entries of that shape.
pub open spec fn shape_product(dims: Seq<u32>) -> nat
    decreases dims.len(),
{
    if dims.len() == 0 {
        1
    } else {
        shape_product(dims.drop_last()) * (dims.last() as nat)
    }
}

/// The number of bytes of an array of `shape` whose elements have
/// `elem_shape` scalars of `width` bytes each.
pub open spec fn array_byte_size(width: nat, shape: Seq<u32>, elem_shape: Seq<u32>) -> nat {
    width * shape_product(shape) * shape_product(elem_shape)
}

/// The allocation size asked for an array of `total` bytes: the total
/// itself, or the cap where it is too large for any allocation.
pub open spec fn requested_size(total: nat) -> u64 {
    if total >= SIZE_CAP {
        SIZE_CAP
    } else {
        total as u64
    }
}

pub open spec fn min_cap(x: nat) -> nat {
    if x >= SIZE_CAP {
        SIZE_CAP as nat
    } else {
        x
    }
}

proof fn lemma_min_cap_mul(x: nat, d: nat)
    ensures
        min_cap(min_cap(x) * d) == min_cap(x * d),
{
    if x >= SIZE_CAP && d >= 1 {
        assert(x * d >= x) by (nonlinear_arith)
            requires
                d >= 1,
        ;
        assert((SIZE_CAP as nat) * d >= SIZE_CAP) by (nonlinear_arith)
            requires
                d >= 1,
        ;
    }
    if d == 0 {
        assert(min_cap(x) * d == 0) by (nonlinear_arith)
            requires
                d == 0,
        ;
        assert(x * d == 0) by (nonlinear_arith)
            requires
                d == 0,
        ;
    }
}

/// `init` times the product of the first `count` extents, or the cap where
/// that reaches it.
fn capped_product(init: u64, dims: &[u32; 16], count: u32) -> (r: u64)
    requires
        init <= SIZE_CAP,
        count <= MAX_DIM_COUNT,
    ensures
        r == min_cap((init as nat) * shape_product(dims@.subrange(0, count as int))),
{
    let mut acc: u64 = init;
    let mut i: usize = 0;
    let n = count as usize;
    assert(dims@.subrange(0, 0) =~= Seq::<u32>::empty());
    assert(shape_product(dims@.subrange(0, 0)) == 1);
    assert((init as nat) * 1 == init as nat);
    while i < n
        invariant
            n == count,
            n <= 16,
            i <= n,
            init <= SIZE_CAP,
            acc <= SIZE_CAP,
            acc == min_cap((init as nat) * shape_product(dims@.subrange(0, i as int))),
        decreases n - i,
    {
        let d = dims[i];
        let ghost p = shape_product(dims@.subrange(0, i as int));
        assert(dims@.subrange(0, i as int + 1).drop_last() =~= dims@.subrange(0, i as int));
        assert(shape_product(dims@.subrange(0, i as int + 1)) == p * (d as nat));
        assert((init as nat) * (p * (d as nat)) == ((init as nat) * p) * (d as nat)) by (nonlinear_arith);
        proof {
            lemma_min_cap_mul((init as nat) * p, d as nat);
        }
        assert((acc as nat) * (d as nat) <= (SIZE_CAP as nat) * 0xffff_ffff) by (nonlinear_arith)
            requires
                acc <= SIZE_CAP,
                d <= 0xffff_ffff,
        ;
        let m = acc * (d as u64);
        acc = if m >= SIZE_CAP {
            SIZE_CAP
        } else {
            m
        };
        i = i + 1;
    }
    acc
}

/// A shape holding the given extents.
fn shape_of(extents: &[u32]) -> (r: TiNdShape)
    requires
        extents@.len() <= MAX_DIM_COUNT,
    ensures
        dims_of(r) == extents@,
        r.dim_count <= MAX_DIM_COUNT,
{
    let mut dims: [u32; 16] = [0u32; 16];
    let n = extents.len();
    let mut i: usize = 0;
    while i < n
        invariant
            n == extents@.len(),
            n <= 16,
            i <= n,
            dims@.len() == 16,
            dims@.subrange(0, i as int) =~= extents@.subrange(0, i as int),
        decreases n - i,
    {
        dims[i] = extents[i];
        i = i + 1;
    }
    TiNdShape { dim_count: n as u32, dims }
}

/// Describes an array of `T` before it is made.
pub struct NdArrayBuilder<T> {
    memory_builder: MemoryBuilder,
    shape: TiNdShape,
    elem_shape: TiNdShape,
    phantom: PhantomData<T>,
}

impl<T: Element> NdArrayBuilder<T> {
    /// How the backing memory is described so far, but for its size.
    pub closed spec fn spec_memory_info(&self) -> TiMemoryAllocateInfo {
        self.memory_builder@
    }

    /// The extents of the array.
    pub closed spec fn spec_shape(&self) -> Seq<u32> {
        dims_of(self.shape)
    }

    /// The extents of each element.
    pub closed spec fn spec_elem_shape(&self) -> Seq<u32> {
        dims_of(self.elem_shape)
    }

    pub closed spec fn wf(&self) -> bool {
        self.shape.dim_count <= MAX_DIM_COUNT && self.elem_shape.dim_count <= MAX_DIM_COUNT
    }

    /// An empty shape and element shape, over memory described as
    /// `MemoryBuilder::new` describes it.
    pub fn new() -> (r: Self)
        ensures
            r.wf(),
            r.spec_memory_info() == MemoryBuilder::default_info(),
            r.spec_shape().len() == 0,
            r.spec_elem_shape().len() == 0,
    {
        let none: [u32; 0] = [];
        let shape = shape_of(&none);
        let elem_shape = shape_of(&none);
        NdArrayBuilder { memory_builder: MemoryBuilder::new(), shape, elem_shape, phantom: PhantomData }
    }

    pub fn host_read(&mut self, value: bool) -> (r: &mut Self)
        requires
            old(self).wf(),
        ensures
            r.wf(),
            r.spec_memory_info() == (TiMemoryAllocateInfo {
                host_read: crate::memory::flag(value),
                ..old(self).spec_memory_info()
            }),
            r.spec_shape() == old(self).spec_shape(),
            r.spec_elem_shape() == old(self).spec_elem_shape(),
            *final(self) == *final(r),
    {
        self.memory_builder.host_read(value);
        self
    }

    pub fn host_write(&mut self, value: bool) -> (r: &mut Self)
        requires
            old(self).wf(),
        ensures
            r.wf(),
            r.spec_memory_info() == (TiMemoryAllocateInfo {
                host_write: crate::memory::flag(value),
                ..old(self).spec_memory_info()
            }),
            r.spec_shape() == old(self).spec_shape(),
            r.spec_elem_shape() == old(self).spec_elem_shape(),
            *final(self) == *final(r),
    {
        self.memory_builder.host_write(value);
        self
    }

    /// Sets both host read and host write access.
    pub fn host_access(&mut self, value: bool) -> (r: &mut Self)
        requires
            old(self).wf(),
        ensures
            r.wf(),
            r.spec_memory_info() == (TiMemoryAllocateInfo {
                host_read: crate::memory::flag(value),
                host_write: crate::memory::flag(value),
                ..old(self).spec_memory_info()
            }),
            r.spec_shape() == old(self).spec_shape(),
            r.spec_elem_shape() == old(self).spec_elem_shape(),
            *final(self) == *final(r),
    {
        self.memory_builder.host_read(value);
        self.memory_builder.host_write(value);
        self
    }

    pub fn usage(&mut self, usage: TiMemoryUsageFlags) -> (r: &mut Self)
        requires
            old(self).wf(),
        ensures
            r.wf(),
            r.spec_memory_info() == (TiMemoryAllocateInfo { usage, ..old(self).spec_memory_info() }),
            r.spec_shape() == old(self).spec_shape(),
            r.spec_elem_shape() == old(self).spec_elem_shape(),
            *final(self) == *final(r),
    {
        self.memory_builder.usage(usage);
        self
    }

    /// Sets the extents of the array; at most `MAX_DIM_COUNT` of them.
    pub fn shape(&mut self, shape: &[u32]) -> (r: &mut Self)
        requires
            old(self).wf(),
            shape@.len() <= MAX_DIM_COUNT,
        ensures
            r.wf(),
            r.spec_memory_info() == old(self).spec_memory_info(),
            r.spec_shape() == shape@,
            r.spec_elem_shape() == old(self).spec_elem_shape(),
            *final(self) == *final(r),
    {
        self.shape = shape_of(shape);
        self
    }

    /// Sets the extents of each element; at most `MAX_DIM_COUNT` of them.
    pub fn elem_shape(&mut self, elem_shape: &[u32]) -> (r: &mut Self)
        requires
            old(self).wf(),
            elem_shape@.len() <= MAX_DIM_COUNT,
        ensures
            r.wf(),
            r.spec_memory_info() == old(self).spec_memory_info(),
            r.spec_shape() == old(self).spec_shape(),
            r.spec_elem_shape() == elem_shape@,
            *final(self) == *final(r),
    {
        self.elem_shape = shape_of(elem_shape);
        self
    }

    /// The description of the backing memory: as described so far, with the
    /// size that `build` asks for.
    pub fn allocation_info(&self) -> (r: TiMemoryAllocateInfo)
        requires
            self.wf(),
        ensures
            r == (TiMemoryAllocateInfo {
                size: requested_size(
                    array_byte_size(T::spec_width(), self.spec_shape(), self.spec_elem_shape()),
                ),
                ..self.spec_memory_info()
            }),
    {
        let w = T::width();
        let ghost ps = shape_product(self.spec_shape());
        let ghost pe = shape_product(self.spec_elem_shape());
        let per_elem = capped_product(w as u64, &self.elem_shape.dims, self.elem_shape.dim_count);
        let size = capped_product(per_elem, &self.shape.dims, self.shape.dim_count);
        proof {
            assert(self.elem_shape.dims@.subrange(0, self.elem_shape.dim_count as int)
                == self.spec_elem_shape());
            assert(self.shape.dims@.subrange(0, self.shape.dim_count as int) == self.spec_shape());
            lemma_min_cap_mul_seq(w as nat, pe, ps);
            assert((w as nat) * ps * pe == (w as nat) * pe * ps) by (nonlinear_arith);
        }
        let mut info = self.memory_builder.clone_info();
        info.size = size;
        info
    }

    /// The array's shape, as handed to the backend.
    pub fn shape_info(&self) -> (r: TiNdShape)
        requires
            self.wf(),
        ensures
            r.dim_count <= MAX_DIM_COUNT,
            dims_of(r) == self.spec_shape(),
    {
        self.shape
    }

    /// The element shape, as handed to the backend.
    pub fn elem_shape_info(&self) -> (r: TiNdShape)
        requires
            self.wf(),
        ensures
            r.dim_count <= MAX_DIM_COUNT,
            dims_of(r) == self.spec_elem_shape(),
    {
        self.elem_shape
    }

    /// Allocates memory of `T`'s width times the product of the shape times
    /// the product of the element shape, and views it as the array. Fails
    /// as `Memory::new` does for that size: InvalidArgument where it is zero,
    /// OutOfMemory where it is too large.
    pub fn build(&self, runtime: &mut Runtime) -> (r: TaichiResult<NdArray<T>>)
        requires
            old(runtime)@.wf(),
            self.wf(),
        ensures
            final(runtime)@.wf(),
            ({
                let total = array_byte_size(T::spec_width(), self.spec_shape(), self.spec_elem_shape());
                let info = TiMemoryAllocateInfo { size: requested_size(total), ..self.spec_memory_info() };
                &&& memory_allocation_status(info) == TiError::Success <==> (0 < total
                    <= MAX_ALLOCATION_SIZE)
                &&& r matches Err(e) ==> Memory::new_outcome(old(runtime)@, info, final(runtime)@, Err(e))
                &&& r matches Ok(a) ==> {
                    &&& Memory::new_outcome(old(runtime)@, info, final(runtime)@, Ok(a.spec_memory()))
                    &&& a.spec_shape() == self.spec_shape()
                    &&& a.spec_elem_shape() == self.spec_elem_shape()
                    &&& a.spec_memory().spec_info().size == total
                }
            }),
    {
        let w = T::width();
        let ghost ps = shape_product(self.spec_shape());
        let ghost pe = shape_product(self.spec_elem_shape());
        let per_elem = capped_product(w as u64, &self.elem_shape.dims, self.elem_shape.dim_count);
        let size = capped_product(per_elem, &self.shape.dims, self.shape.dim_count);
        proof {
            assert(self.elem_shape.dims@.subrange(0, self.elem_shape.dim_count as int)
                == self.spec_elem_shape());
            assert(self.shape.dims@.subrange(0, self.shape.dim_count as int) == self.spec_shape());
            lemma_min_cap_mul_seq(w as nat, pe, ps);
            assert((w as nat) * ps * pe == (w as nat) * pe * ps) by (nonlinear_arith);
        }
        let mut info = self.memory_builder.clone_info();
        info.size = size;
        let memory = match Memory::new(runtime, &info) {
            Ok(m) => m,
            Err(e) => return Err(e),
        };
        let ghost total = (w as nat) * ps * pe;
        proof {
            lemma_factors_bounded(w as nat, ps, pe);
        }
        proof {
            assert((w as nat) * ps * pe == (w as nat) * (ps * pe)) by (nonlinear_arith);
        }
        let elem_count = capped_product(1, &self.shape.dims, self.shape.dim_count);
        let scalar_count = capped_product(elem_count, &self.elem_shape.dims, self.elem_shape.dim_count);
        let ndarray = TiNdArray {
            memory: memory.memory(),
            shape: self.shape,
            elem_shape: self.elem_shape,
            elem_type: T::data_type(),
        };
        Ok(NdArray {
            memory,
            ndarray,
            elem_count: elem_count as usize,
            scalar_count: scalar_count as usize,
            phantom: PhantomData,
        })
    }
}

proof fn lemma_min_cap_mul_seq(w: nat, pe: nat, ps: nat)
    ensures
        min_cap(min_cap(w * pe) * ps) == min_cap(w * pe * ps),
{
    lemma_min_cap_mul(w * pe, ps);
}

proof fn lemma_factors_bounded(w: nat, ps: nat, pe: nat)
    requires
        0 < w * ps * pe <= MAX_ALLOCATION_SIZE,
        w >= 1,
    ensures
        ps <= w * ps * pe,
        ps * pe <= w * ps * pe,
        min_cap(1 * ps) == ps,
        min_cap(ps * pe) == ps * pe,
{
    assert(pe >= 1) by (nonlinear_arith)
        requires
            0 < w * ps * pe,
    ;
    assert(ps * pe <= w * (ps * pe)) by (nonlinear_arith)
        requires
            w >= 1,
    ;
    assert(w * ps * pe == w * (ps * pe)) by (nonlinear_arith);
    assert(ps <= ps * pe) by (nonlinear_arith)
        requires
            pe >= 1,
    ;
}

/// An array of `T` with a shape, over a memory allocation of exactly its
/// size.
pub struct NdArray<T: Element> {
    memory: Memory,
    ndarray: TiNdArray,
    elem_count: usize,
    scalar_count: usize,
    phantom: PhantomData<T>,
}

impl<T: Element> NdArray<T> {
    #[verifier::type_invariant]
    spec fn inv(&self) -> bool {
        &&& self.ndarray.shape.dim_count <= MAX_DIM_COUNT
        &&& self.ndarray.elem_shape.dim_count <= MAX_DIM_COUNT
        &&& self.elem_count == shape_product(dims_of(self.ndarray.shape))
        &&& self.scalar_count == shape_product(dims_of(self.ndarray.shape)) * shape_product(
            dims_of(self.ndarray.elem_shape),
        )
        &&& self.ndarray.memory.0 == self.memory.id()
        &&& self.ndarray.elem_type == T::spec_data_type()
        &&& self.memory.spec_info().size == T::spec_width() * self.scalar_count
    }

    /// The extents of the array.
    pub closed spec fn spec_shape(&self) -> Seq<u32> {
        dims_of(self.ndarray.shape)
    }

    /// The extents of each element.
    pub closed spec fn spec_elem_shape(&self) -> Seq<u32> {
        dims_of(self.ndarray.elem_shape)
    }

    /// The backing memory.
    pub closed spec fn spec_memory(&self) -> Memory {
        self.memory
    }

    /// The description handed to the backend.
    pub closed spec fn spec_ndarray(&self) -> TiNdArray {
        self.ndarray
    }

    /// The backing memory.
    pub fn memory(&self) -> (r: &Memory)
        ensures
            *r == self.spec_memory(),
            r.id() == self.spec_ndarray().memory.0,
            r.spec_info().size == T::spec_width() * shape_product(self.spec_shape())
                * shape_product(self.spec_elem_shape()),
    {
        proof {
            use_type_invariant(self);
        }
        let ghost ps = shape_product(self.spec_shape());
        let ghost pe = shape_product(self.spec_elem_shape());
        assert(T::spec_width() * (ps * pe) == T::spec_width() * ps * pe) by (nonlinear_arith);
        &self.memory
    }

    /// Maps the backing memory for host access.
    pub fn map(&self, runtime: &mut Runtime) -> (r: TaichiResult<MappedMemory>)
        requires
            old(runtime)@.wf(),
            self.spec_memory().spec_runtime() == old(runtime)@.handle,
        ensures
            final(runtime)@.wf(),
            same_instance(old(runtime)@, final(runtime)@),
            final(runtime)@.device.error == TiError::Success,
            r is Ok == (old(runtime)@.device.memories.contains_key(self.spec_memory().id())
                && !old(runtime)@.device.memories[self.spec_memory().id()].mapped),
            r matches Ok(m) ==> m.spec_runtime() == self.spec_memory().spec_runtime(),
            r matches Ok(m) ==> m.id() == self.spec_memory().id() && final(runtime)@.device == (DeviceState {
                memories: old(runtime)@.device.memories.insert(
                    self.spec_memory().id(),
                    MemoryState { mapped: true, ..old(runtime)@.device.memories[self.spec_memory().id()] },
                ),
                ..old(runtime)@.device.with_success()
            }),
            r matches Err(e) ==> final(runtime)@.device.same_resources(old(runtime)@.device)
                && e.code == (if old(runtime)@.device.memories.contains_key(self.spec_memory().id()) {
                TiError::InvalidState
            } else {
                TiError::InvalidArgument
            }),
    {
        self.memory.map(runtime)
    }

    /// Copies the whole array into `dst`; as `Memory::read` on the backing
    /// memory.
    pub fn read<U: Element>(&self, runtime: &mut Runtime, dst: &mut Vec<U>) -> (r: TaichiResult<()>)
        requires
            old(runtime)@.wf(),
            self.spec_memory().spec_runtime() == old(runtime)@.handle,
        ensures
            final(runtime)@.wf(),
            same_instance(old(runtime)@, final(runtime)@),
            final(runtime)@.device.same_resources(old(runtime)@.device),
            self.spec_memory().spec_info().host_read == TI_FALSE ==> {
                &&& r matches Err(e) && e.code == TiError::InvalidState
                &&& final(runtime)@ == old(runtime)@
            },
            self.spec_memory().spec_info().host_read != TI_FALSE ==> final(runtime)@.device.error
                == TiError::Success,
            r is Ok == (self.spec_memory().spec_info().host_read != TI_FALSE
                && old(runtime)@.device.memories.contains_key(self.spec_memory().id())
                && !old(runtime)@.device.memories[self.spec_memory().id()].mapped
                && old(runtime)@.device.memories[self.spec_memory().id()].contents.len() == old(dst)@.len()
                * U::spec_width()),
            r is Ok ==> final(dst)@ == decode_seq::<U>(
                old(runtime)@.device.memories[self.spec_memory().id()].contents,
                old(dst)@.len(),
            ),
            r is Err ==> final(dst)@ == old(dst)@,
            r matches Err(e) ==> e.code == (if self.spec_memory().spec_info().host_read == TI_FALSE {
                TiError::InvalidState
            } else if !old(runtime)@.device.memories.contains_key(self.spec_memory().id()) {
                TiError::InvalidArgument
            } else if old(runtime)@.device.memories[self.spec_memory().id()].mapped {
                TiError::InvalidState
            } else {
                TiError::InvalidArgument
            }),
    {
        self.memory.read(runtime, dst)
    }

    /// Copies `src` into the whole array; as `Memory::write` on the backing
    /// memory.
    pub fn write<U: Element>(&self, runtime: &mut Runtime, src: &[U]) -> (r: TaichiResult<()>)
        requires
            old(runtime)@.wf(),
            self.spec_memory().spec_runtime() == old(runtime)@.handle,
        ensures
            final(runtime)@.wf(),
            same_instance(old(runtime)@, final(runtime)@),
            self.spec_memory().spec_info().host_write == TI_FALSE ==> {
                &&& r matches Err(e) && e.code == TiError::InvalidState
                &&& final(runtime)@ == old(runtime)@
            },
            self.spec_memory().spec_info().host_write != TI_FALSE ==> final(runtime)@.device.error
                == TiError::Success,
            r is Ok == (self.spec_memory().spec_info().host_write != TI_FALSE
                && old(runtime)@.device.memories.contains_key(self.spec_memory().id())
                && !old(runtime)@.device.memories[self.spec_memory().id()].mapped
                && old(runtime)@.device.memories[self.spec_memory().id()].contents.len() == src@.len()
                * U::spec_width()),
            encode_seq(src@).len() == src@.len() * U::spec_width(),
            r is Ok ==> final(runtime)@.device == (DeviceState {
                memories: old(runtime)@.device.memories.insert(
                    self.spec_memory().id(),
                    MemoryState {
                        contents: encode_seq(src@),
                        ..old(runtime)@.device.memories[self.spec_memory().id()]
                    },
                ),
                ..old(runtime)@.device.with_success()
            }),
            r is Err ==> final(runtime)@.device.same_resources(old(runtime)@.device),
            r matches Err(e) ==> e.code == (if self.spec_memory().spec_info().host_write == TI_FALSE {
                TiError::InvalidState
            } else if !old(runtime)@.device.memories.contains_key(self.spec_memory().id()) {
                TiError::InvalidArgument
            } else if old(runtime)@.device.memories[self.spec_memory().id()].mapped {
                TiError::InvalidState
            } else {
                TiError::InvalidArgument
            }),
    {
        self.memory.write(runtime, src)
    }

    /// The whole array as values of `U`; as `read` into as many values as
    /// fit the backing memory.
    pub fn to_vec<U: Element>(&self, runtime: &mut Runtime) -> (r: TaichiResult<Vec<U>>)
        requires
            old(runtime)@.wf(),
            self.spec_memory().spec_runtime() == old(runtime)@.handle,
        ensures
            final(runtime)@.wf(),
            final(runtime)@.device.same_resources(old(runtime)@.device),
            self.spec_memory().spec_info().host_read == TI_FALSE ==> (r matches Err(e) && e.code
                == TiError::InvalidState),
            r matches Ok(v) ==> v@.len() == (self.spec_memory().spec_info().size as nat) / U::spec_width()
                && v@ == decode_seq::<U>(
                old(runtime)@.device.memories[self.spec_memory().id()].contents,
                v@.len(),
            ),
            r is Ok == (self.spec_memory().spec_info().host_read != TI_FALSE
                && old(runtime)@.device.memories.contains_key(self.spec_memory().id())
                && !old(runtime)@.device.memories[self.spec_memory().id()].mapped
                && old(runtime)@.device.memories[self.spec_memory().id()].contents.len() == (
                (self.spec_memory().spec_info().size as nat) / U::spec_width()) * U::spec_width()),
    {
        let n = self.memory.size() / U::width();
        let mut out: Vec<U> = Vec::new();
        let mut i: usize = 0;
        while i < n
            invariant
                i <= n,
                out@.len() == i,
            decreases n - i,
        {
            out.push(U::zero());
            i = i + 1;
        }
        match self.memory.read(runtime, &mut out) {
            Ok(()) => Ok(out),
            Err(e) => Err(e),
        }
    }

    /// The extents of the array.
    pub fn shape(&self) -> (r: Vec<u32>)
        ensures
            r@ == self.spec_shape(),
    {
        proof {
            use_type_invariant(self);
        }
        dims_to_vec(&self.ndarray.shape)
    }

    /// The extents of each element.
    pub fn elem_shape(&self) -> (r: Vec<u32>)
        ensures
            r@ == self.spec_elem_shape(),
    {
        proof {
            use_type_invariant(self);
        }
        dims_to_vec(&self.ndarray.elem_shape)
    }

    /// The number of elements: the product of the shape.
    pub fn elem_count(&self) -> (r: usize)
        ensures
            r == shape_product(self.spec_shape()),
    {
        proof {
            use_type_invariant(self);
        }
        self.elem_count
    }

    /// The number of scalars: the product of the shape times the product of
    /// the element shape.
    pub fn scalar_count(&self) -> (r: usize)
        ensures
            r == shape_product(self.spec_shape()) * shape_product(self.spec_elem_shape()),
    {
        proof {
            use_type_invariant(self);
        }
        self.scalar_count
    }

    /// The type tag of `T`.
    pub fn elem_type(&self) -> (r: TiDataType)
        ensures
            r == T::spec_data_type(),
            r == self.spec_ndarray().elem_type,
    {
        proof {
            use_type_invariant(self);
        }
        self.ndarray.elem_type
    }

    /// The description handed to the backend.
    pub fn ndarray(&self) -> (r: &TiNdArray)
        ensures
            *r == self.spec_ndarray(),
            r.memory.0 == self.spec_memory().id(),
            r.elem_type == T::spec_data_type(),
            r.shape.dim_count <= MAX_DIM_COUNT,
            r.elem_shape.dim_count <= MAX_DIM_COUNT,
            dims_of(r.shape) == self.spec_shape(),
            dims_of(r.elem_shape) == self.spec_elem_shape(),
    {
        proof {
            use_type_invariant(self);
        }
        &self.ndarray
    }
}

fn dims_to_vec(s: &TiNdShape) -> (r: Vec<u32>)
    requires
        s.dim_count <= MAX_DIM_COUNT,
    ensures
        r@ == dims_of(*s),
{
    let n = s.dim_count as usize;
    let mut out: Vec<u32> = Vec::new();
    let mut i: usize = 0;
    while i < n
        invariant
            n == s.dim_count,
            n <= 16,
            i <= n,
            s.dims@.len() == 16,
            out@ =~= s.dims@.subrange(0, i as int),
        decreases n - i,
    {
        out.push(s.dims[i]);
        i = i + 1;
    }
    out
}

} // verus!
