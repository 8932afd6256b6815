//! Sizes and alignments of component types and of arrays of them.

use vstd::prelude::*;

verus! {

/// The size and the alignment, in bytes, of a block of memory.
#[derive(Debug, Clone, Copy, PartialEq, Eq, Structural)]
pub struct Layout {
    pub size: usize,
    pub align: usize,
}

impl Layout {
    /// The alignment is a power of two, and the size, rounded up to the alignment, does not
    /// exceed `isize::MAX`.
    pub open spec fn valid(self) -> bool {
        vstd::layout::valid_layout(self.size, self.align)
    }

    /// A layout that a type can have: its size is a multiple of its alignment.
    pub open spec fn of_type(self) -> bool {
        &&& self.valid()
        &&& self.size % self.align == 0
    }

    /// The size of one element in an array of elements with this layout: the size rounded up
    /// to the next multiple of the alignment.
    pub open spec fn stride(self) -> int {
        self.size + padding(self.size as int, self.align as int)
    }

    /// The layout of the type `T`.
    pub fn new<T>() -> (layout: Layout)
        ensures
            layout.size as nat == vstd::layout::size_of::<T>(),
            layout.align as nat == vstd::layout::align_of::<T>(),
            layout.of_type(),
    {
        vstd::layout::layout_for_type_is_valid::<T>();
        Layout { size: core::mem::size_of::<T>(), align: core::mem::align_of::<T>() }
    }
}

/// The number of bytes between `len` and the next multiple of `align`.
pub open spec fn padding(len: int, align: int) -> int {
    (align - len % align) % align
}

/// A power of two that fits a `usize` is two to the power of less than its number of bits.
proof fn lemma_exponent(align: usize) -> (e: nat)
    requires
        vstd::arithmetic::power2::is_pow2(align as int),
    ensures
        align > 0,
        vstd::arithmetic::power2::pow2(e) == align,
        e < usize::BITS,
{
    broadcast use vstd::arithmetic::power2::is_pow2_equiv;

    assert(vstd::arithmetic::power2::is_pow2_exists(align as int));
    let e = choose|e: nat| vstd::arithmetic::power::pow(2, e) == align;
    vstd::arithmetic::power::lemma_pow_positive(2, e);
    vstd::layout::unsigned_int_max_values();
    if usize::BITS < e {
        vstd::arithmetic::power2::lemma_pow2_strictly_increases(usize::BITS as nat, e);
    }
    e
}

/// Clearing the low bits of `x` below a power of two rounds it down to a multiple of it.
proof fn lemma_mask_rounds_down(x: usize, align: usize)
    requires
        vstd::arithmetic::power2::is_pow2(align as int),
    ensures
        align > 0,
        x & !((align - 1) as usize) == x - x % align,
{
    let e = lemma_exponent(align);
    let mask = (align - 1) as usize;
    assert(vstd::bits::low_bits_mask(e) as usize == mask);
    vstd::bits::lemma_usize_low_bits_mask_is_mod(x, e);
    assert(x & !mask == x - (x & mask)) by (bit_vector);
}

/// The range of `usize` is a multiple of every power of two in it.
proof fn lemma_range_is_multiple(align: usize)
    requires
        vstd::arithmetic::power2::is_pow2(align as int),
    ensures
        align > 0,
        (usize::MAX + 1) % (align as int) == 0,
{
    let e = lemma_exponent(align);
    let rest = (usize::BITS - e) as nat;
    vstd::layout::unsigned_int_max_values();
    vstd::arithmetic::power2::lemma_pow2_adds(e, rest);
    let factor = vstd::arithmetic::power2::pow2(rest) as int;
    vstd::arithmetic::div_mod::lemma_mod_multiples_basic(factor, align as int);
    assert(factor * align == align * factor) by (nonlinear_arith);
}

/// The padding that has to follow a block with the given layout so that the next address is a
/// multiple of `align`.
pub fn padding_needed_for(layout: &Layout, align: usize) -> (needed: usize)
    requires
        vstd::arithmetic::power2::is_pow2(align as int),
    ensures
        needed == padding(layout.size as int, align as int),
{
    let len = layout.size;
    proof {
        lemma_mask_rounds_down(0, align);
    }
    // The sum may wrap around. Then the rounded length is zero, and the padding is what is
    // missing to the end of the range, which is a multiple of every alignment.
    let len_rounded_up = len.wrapping_add(align).wrapping_sub(1) & !align.wrapping_sub(1);
    proof {
        lemma_padding(len, align);
    }
    len_rounded_up.wrapping_sub(len)
}

/// The modular computation of the padding agrees with its definition.
proof fn lemma_padding(len: usize, align: usize)
    requires
        vstd::arithmetic::power2::is_pow2(align as int),
    ensures
        ({
            let rounded = len.wrapping_add(align).wrapping_sub(1) & !align.wrapping_sub(1);
            rounded.wrapping_sub(len) == padding(len as int, align as int)
        }),
{
    lemma_mask_rounds_down(0, align);
    let sum = len.wrapping_add(align).wrapping_sub(1);
    lemma_mask_rounds_down(sum, align);
    lemma_range_is_multiple(align);
    let a = align as int;
    let l = len as int;
    let range = usize::MAX + 1;
    let wide = l + a - 1;
    assert(0 <= l % a < a);
    vstd::arithmetic::div_mod::lemma_fundamental_div_mod(l, a);
    let q = l / a;
    if l % a == 0 {
        assert(padding(l, a) == 0) by {
            vstd::arithmetic::div_mod::lemma_mod_self_0(a);
        }
        // `l` is a multiple of `a` that lies below the end of the range, so the sum fits.
        assert(wide < range) by {
            let k = range / a;
            vstd::arithmetic::div_mod::lemma_fundamental_div_mod(range, a);
            assert(q < k) by (nonlinear_arith)
                requires
                    a * q < a * k,
                    a > 0,
            ;
            assert(a * q + a <= a * k) by (nonlinear_arith)
                requires
                    q < k,
                    a > 0,
            ;
        }
        assert(sum == wide);
        assert(wide % a == a - 1) by {
            assert(wide == a * q + (a - 1));
            vstd::arithmetic::div_mod::lemma_mod_multiples_vanish(q, a - 1, a);
            vstd::arithmetic::div_mod::lemma_small_mod((a - 1) as nat, a as nat);
        }
    } else {
        assert(padding(l, a) == a - l % a) by {
            vstd::arithmetic::div_mod::lemma_small_mod((a - l % a) as nat, a as nat);
        }
        let extra = l % a - 1;
        assert(wide == a * (q + 1) + extra) by (nonlinear_arith)
            requires
                wide == l + a - 1,
                l == a * q + l % a,
                extra == l % a - 1,
        ;
        assert(wide % a == extra) by {
            vstd::arithmetic::div_mod::lemma_mod_multiples_vanish(q + 1, extra, a);
            vstd::arithmetic::div_mod::lemma_small_mod(extra as nat, a as nat);
        }
        if wide < range {
            assert(sum == wide);
        } else {
            // The next multiple of `a` is the end of the range itself.
            let k = range / a;
            vstd::arithmetic::div_mod::lemma_fundamental_div_mod(range, a);
            assert(q + 1 == k) by (nonlinear_arith)
                requires
                    a * q <= l < a * k,
                    l + a - 1 >= a * k,
                    l == a * q + l % a,
                    0 <= l % a < a,
                    a > 0,
            ;
            assert(wide - range == extra);
            assert(sum == extra);
            vstd::arithmetic::div_mod::lemma_small_mod(extra as nat, a as nat);
        }
    }
}

/// The layout of `n` blocks with the given layout, one after the other, and the distance
/// from one block to the next. `None` if the size of the whole does not fit a `usize`.
pub fn repeat_layout(layout: &Layout, n: usize) -> (repeated: Option<(Layout, usize)>)
    requires
        layout.valid(),
    ensures
        match repeated {
            Some((whole, stride)) => {
                &&& stride == layout.stride()
                &&& whole.size == layout.stride() * n
                &&& whole.align == layout.align
            },
            None => layout.stride() * n > usize::MAX,
        },
{
    proof {
        lemma_stride_fits(*layout);
    }
    let padded_size: usize = layout.size + padding_needed_for(layout, layout.align);
    match padded_size.checked_mul(n) {
        Some(alloc_size) => Some((Layout { size: alloc_size, align: layout.align }, padded_size)),
        None => None,
    }
}

/// A valid size, rounded up to its alignment, fits a `usize`.
proof fn lemma_stride_fits(layout: Layout)
    requires
        layout.valid(),
    ensures
        layout.align > 0,
        layout.stride() <= isize::MAX,
        layout.size % layout.align == 0 ==> layout.stride() == layout.size,
{
    lemma_mask_rounds_down(0, layout.align);
    let a = layout.align as int;
    let l = layout.size as int;
    let top = isize::MAX as int;
    vstd::arithmetic::div_mod::lemma_fundamental_div_mod(l, a);
    vstd::arithmetic::div_mod::lemma_fundamental_div_mod(top, a);
    if l % a == 0 {
        vstd::arithmetic::div_mod::lemma_mod_self_0(a);
    } else {
        vstd::arithmetic::div_mod::lemma_small_mod((a - l % a) as nat, a as nat);
        let q = l / a;
        let k = top / a;
        assert(a * q + a <= a * k) by (nonlinear_arith)
            requires
                a * q + l % a <= a * k,
                0 < l % a,
                a > 0,
        ;
    }
}

/// The layout of an array of `n` elements of a type with the given layout. `None` if its size
/// does not fit a `usize`.
pub fn array_layout(layout: &Layout, n: usize) -> (array: Option<Layout>)
    requires
        layout.of_type(),
    ensures
        match array {
            Some(whole) => whole.size == layout.size * n && whole.align == layout.align,
            None => layout.size * n > usize::MAX,
        },
{
    proof {
        lemma_stride_fits(*layout);
    }
    match repeat_layout(layout, n) {
        Some((array_layout, offset)) => {
            assert(layout.size == offset);
            Some(array_layout)
        },
        None => None,
    }
}

} // verus!
