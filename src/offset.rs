//! Address arithmetic on `MaybeNull`: in element steps of `size_of::<T>()`
//! bytes or in single bytes, either wrapping around the address space or
//! required to stay inside it.
use crate::nullable::MaybeNull;
use vstd::arithmetic::div_mod::{lemma_add_mod_noop_right, lemma_sub_mod_noop_right};
use vstd::layout::size_of;
use vstd::prelude::*;

verus! {

/// The number of distinct addresses.
pub open spec fn addr_space() -> int {
    usize::MAX as int + 1
}

/// The address that `x` comes to when reduced into the address space.
pub open spec fn wrap_addr(x: int) -> usize {
    (x % addr_space()) as usize
}

/// Reducing a value that lies less than one address space away from it.
proof fn lemma_wrap_small(x: int)
    requires
        -addr_space() < x < 2 * addr_space(),
    ensures
        wrap_addr(x) as int == if x < 0 {
            x + addr_space()
        } else if x < addr_space() {
            x
        } else {
            x - addr_space()
        },
{
    let m = addr_space();
    if x < 0 {
        assert(x % m == x + m) by (nonlinear_arith)
            requires
                m > 0,
                -m < x < 0,
        ;
    } else if x < m {
        assert(x % m == x) by (nonlinear_arith)
            requires
                m > 0,
                0 <= x < m,
        ;
    } else {
        assert(x % m == x - m) by (nonlinear_arith)
            requires
                m > 0,
                m <= x < 2 * m,
        ;
    }
}

impl<T> MaybeNull<T> {
    /// The address `count` bytes on, wrapping around the end of the address
    /// space; never fails. An absent value is moved as address zero.
    pub fn wrapping_byte_add(self, count: usize) -> (r: Self)
        ensures
            r@ == wrap_addr(self@ + count),
    {
        proof {
            lemma_wrap_small(self@ + count);
        }
        Self::new(self.addr().wrapping_add(count))
    }

    /// The address `count` bytes back, wrapping around the start of the
    /// address space; never fails.
    pub fn wrapping_byte_sub(self, count: usize) -> (r: Self)
        ensures
            r@ == wrap_addr(self@ - count),
    {
        proof {
            lemma_wrap_small(self@ - count);
        }
        Self::new(self.addr().wrapping_sub(count))
    }

    /// The address `count` elements of `T` on, wrapping around the end of
    /// the address space; never fails.
    pub fn wrapping_add(self, count: usize) -> (r: Self)
        ensures
            r@ == wrap_addr(self@ + count * size_of::<T>()),
    {
        let bytes = count.wrapping_mul(core::mem::size_of::<T>());
        proof {
            lemma_add_mod_noop_right(self@ as int, count * size_of::<T>(), addr_space());
        }
        self.wrapping_byte_add(bytes)
    }

    /// The address `count` elements of `T` back, wrapping around the start
    /// of the address space; never fails.
    pub fn wrapping_sub(self, count: usize) -> (r: Self)
        ensures
            r@ == wrap_addr(self@ - count * size_of::<T>()),
    {
        let bytes = count.wrapping_mul(core::mem::size_of::<T>());
        proof {
            lemma_sub_mod_noop_right(self@ as int, count * size_of::<T>(), addr_space());
        }
        self.wrapping_byte_sub(bytes)
    }

    /// The address `count` bytes on. The caller keeps the result inside the
    /// address space, and inside the allocation the value points into.
    pub fn byte_add(self, count: usize) -> (r: Self)
        requires
            self@ + count <= usize::MAX,
        ensures
            r@ == self@ + count,
    {
        Self::new(self.addr() + count)
    }

    /// The address `count` bytes back. The caller keeps the result inside
    /// the address space, and inside the allocation the value points into.
    pub fn byte_sub(self, count: usize) -> (r: Self)
        requires
            self@ - count >= 0,
        ensures
            r@ == self@ - count,
    {
        Self::new(self.addr() - count)
    }

    /// The address `count` bytes away, in either direction. The caller keeps
    /// the result inside the address space, and inside the allocation the
    /// value points into.
    pub fn byte_offset(self, count: isize) -> (r: Self)
        requires
            0 <= self@ + count <= usize::MAX,
        ensures
            r@ == self@ + count,
    {
        if count >= 0 {
            self.byte_add(count as usize)
        } else {
            let back: usize = (-(count + 1)) as usize + 1;
            self.byte_sub(back)
        }
    }

    /// The address `count` elements of `T` on. The caller keeps the result
    /// inside the address space, and inside the allocation the value points
    /// into.
    pub fn add(self, count: usize) -> (r: Self)
        requires
            self@ + count * size_of::<T>() <= usize::MAX,
        ensures
            r@ == self@ + count * size_of::<T>(),
    {
        let size = core::mem::size_of::<T>();
        proof {
            assert(0 <= count * size <= usize::MAX) by (nonlinear_arith)
                requires
                    self@ + count * size <= usize::MAX,
                    0 <= size,
            ;
        }
        self.byte_add(count * size)
    }

    /// The address `count` elements of `T` back. The caller keeps the result
    /// inside the address space, and inside the allocation the value points
    /// into.
    pub fn sub(self, count: usize) -> (r: Self)
        requires
            self@ - count * size_of::<T>() >= 0,
        ensures
            r@ == self@ - count * size_of::<T>(),
    {
        let size = core::mem::size_of::<T>();
        proof {
            assert(0 <= count * size <= self@) by (nonlinear_arith)
                requires
                    self@ - count * size >= 0,
                    0 <= size,
            ;
        }
        self.byte_sub(count * size)
    }

    /// The address `count` elements of `T` away, in either direction. The
    /// caller keeps the result inside the address space, and inside the
    /// allocation the value points into.
    pub fn offset(self, count: isize) -> (r: Self)
        requires
            0 <= self@ + count * size_of::<T>() <= usize::MAX,
        ensures
            r@ == self@ + count * size_of::<T>(),
    {
        if count >= 0 {
            self.add(count as usize)
        } else {
            let back: usize = (-(count + 1)) as usize + 1;
            proof {
                let size = size_of::<T>() as int;
                assert(back * size == -(count * size)) by (nonlinear_arith)
                    requires
                        back == -count,
                ;
            }
            self.sub(back)
        }
    }
}

} // verus!
