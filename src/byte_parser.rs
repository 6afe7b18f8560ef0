use vstd::prelude::*;
use vstd::slice::slice_subrange;

verus! {

/// Unsigned value of `bytes`, least significant byte first.
pub open spec fn le_value(bytes: Seq<u8>) -> nat
    decreases bytes.len(),
{
    if bytes.len() == 0 {
        0
    } else {
        bytes[0] as nat + 256 * le_value(bytes.drop_first())
    }
}

/// `u`, an unsigned value below `modulus`, read as two's complement.
pub open spec fn signed_of(u: nat, modulus: int) -> int {
    if 2 * u < modulus {
        u as int
    } else {
        u - modulus
    }
}

/// A numeric type of fixed width that can be read from little-endian bytes.
pub trait SupportedType: Sized {
    /// Number of bytes one value occupies.
    spec fn width() -> nat;

    /// The value that exactly `width()` bytes encode, least significant byte first.
    spec fn from_le_spec(bytes: Seq<u8>) -> Self;

    fn byte_width() -> (r: usize)
        ensures
            r as nat == Self::width(),
            r > 0,
    ;

    fn from_le_bytes(bytes: &[u8]) -> (r: Self)
        requires
            bytes@.len() == Self::width(),
        ensures
            r == Self::from_le_spec(bytes@),
    ;
}

impl SupportedType for u8 {
    open spec fn width() -> nat {
        1
    }

    open spec fn from_le_spec(bytes: Seq<u8>) -> u8 {
        le_value(bytes) as u8
    }

    fn byte_width() -> (r: usize) {
        1
    }

    fn from_le_bytes(bytes: &[u8]) -> (r: u8) {
        proof {
            reveal_with_fuel(le_value, 2);
        }
        bytes[0]
    }
}

impl SupportedType for i8 {
    open spec fn width() -> nat {
        1
    }

    open spec fn from_le_spec(bytes: Seq<u8>) -> i8 {
        signed_of(le_value(bytes), 0x100) as i8
    }

    fn byte_width() -> (r: usize) {
        1
    }

    fn from_le_bytes(bytes: &[u8]) -> (r: i8) {
        proof {
            reveal_with_fuel(le_value, 2);
        }
        let u = bytes[0];
        if u < 0x80 {
            u as i8
        } else {
            (u as i16 - 0x100) as i8
        }
    }
}

impl SupportedType for u16 {
    open spec fn width() -> nat {
        2
    }

    open spec fn from_le_spec(bytes: Seq<u8>) -> u16 {
        le_value(bytes) as u16
    }

    fn byte_width() -> (r: usize) {
        2
    }

    fn from_le_bytes(bytes: &[u8]) -> (r: u16) {
        proof {
            reveal_with_fuel(le_value, 3);
        }
        bytes[0] as u16 + 0x100 * (bytes[1] as u16)
    }
}

impl SupportedType for i16 {
    open spec fn width() -> nat {
        2
    }

    open spec fn from_le_spec(bytes: Seq<u8>) -> i16 {
        signed_of(le_value(bytes), 0x1_0000) as i16
    }

    fn byte_width() -> (r: usize) {
        2
    }

    fn from_le_bytes(bytes: &[u8]) -> (r: i16) {
        proof {
            reveal_with_fuel(le_value, 3);
        }
        let u = <u16 as SupportedType>::from_le_bytes(bytes);
        if u < 0x8000 {
            u as i16
        } else {
            (u as i32 - 0x1_0000) as i16
        }
    }
}

impl SupportedType for u32 {
    open spec fn width() -> nat {
        4
    }

    open spec fn from_le_spec(bytes: Seq<u8>) -> u32 {
        le_value(bytes) as u32
    }

    fn byte_width() -> (r: usize) {
        4
    }

    fn from_le_bytes(bytes: &[u8]) -> (r: u32) {
        proof {
            reveal_with_fuel(le_value, 5);
        }
        bytes[0] as u32 + 0x100 * (bytes[1] as u32 + 0x100 * (bytes[2] as u32 + 0x100
            * (bytes[3] as u32)))
    }
}

impl SupportedType for i32 {
    open spec fn width() -> nat {
        4
    }

    open spec fn from_le_spec(bytes: Seq<u8>) -> i32 {
        signed_of(le_value(bytes), 0x1_0000_0000) as i32
    }

    fn byte_width() -> (r: usize) {
        4
    }

    fn from_le_bytes(bytes: &[u8]) -> (r: i32) {
        proof {
            reveal_with_fuel(le_value, 5);
        }
        let u = <u32 as SupportedType>::from_le_bytes(bytes);
        if u < 0x8000_0000 {
            u as i32
        } else {
            (u as i64 - 0x1_0000_0000) as i32
        }
    }
}

/// The values that `bytes` hold back to back, each `T::width()` bytes long; trailing bytes
/// that do not fill a whole value are left out.
pub open spec fn decoded<T: SupportedType>(bytes: Seq<u8>) -> Seq<T> {
    Seq::new(
        bytes.len() / T::width(),
        |i: int| T::from_le_spec(bytes.subrange(i * T::width(), (i + 1) * T::width())),
    )
}

proof fn lemma_chunk_in_bounds(i: int, n: int, w: int, len: int)
    requires
        0 <= i < n,
        w > 0,
        n == len / w,
        len >= 0,
    ensures
        (i + 1) * w <= len,
        i * w + w == (i + 1) * w,
        0 <= i * w,
{
    assert(i * w + w == (i + 1) * w) by (nonlinear_arith);
    assert((i + 1) * w <= n * w) by (nonlinear_arith)
        requires
            i + 1 <= n,
            w > 0,
    ;
    assert(n * w <= len) by (nonlinear_arith)
        requires
            n == len / w,
            w > 0,
            len >= 0,
    ;
    assert(0 <= i * w) by (nonlinear_arith)
        requires
            0 <= i,
            w > 0,
    ;
}

/// Bytes that do not fill a whole value change nothing: appending fewer than `T::width()`
/// bytes to a sequence of whole values decodes to the same values.
pub proof fn lemma_trailing_bytes_dropped<T: SupportedType>(whole: Seq<u8>, extra: Seq<u8>)
    requires
        T::width() > 0,
        whole.len() % T::width() == 0,
        extra.len() < T::width(),
    ensures
        decoded::<T>(whole + extra) == decoded::<T>(whole),
        decoded::<T>(whole + extra).len() == whole.len() / T::width(),
{
    let w = T::width() as int;
    let n = whole.len() as int / w;
    let all = whole + extra;
    assert(whole.len() == n * w) by {
        vstd::arithmetic::div_mod::lemma_fundamental_div_mod(whole.len() as int, w);
    }
    assert(all.len() as int / w == n) by {
        vstd::arithmetic::div_mod::lemma_div_multiples_vanish_fancy(n, extra.len() as int, w);
    }
    assert forall|i: int| 0 <= i < n implies #[trigger] all.subrange(i * w, (i + 1) * w)
        == whole.subrange(i * w, (i + 1) * w) by {
        lemma_chunk_in_bounds(i, n, w, whole.len() as int);
        assert(all.subrange(i * w, (i + 1) * w) =~= whole.subrange(i * w, (i + 1) * w));
    }
    assert(decoded::<T>(all) =~= decoded::<T>(whole));
}

/// Reads `bytes` as consecutive little-endian values of `T`.
pub fn to_type_little_endian<T: SupportedType>(bytes: &[u8]) -> (r: Vec<T>)
    ensures
        r@ == decoded::<T>(bytes@),
        r@.len() == bytes@.len() / T::width(),
{
    let w = T::byte_width();
    let len = bytes.len();
    let n = len / w;
    let mut buffer: Vec<T> = Vec::with_capacity(n);
    let mut i: usize = 0;
    while i < n
        invariant
            w as nat == T::width(),
            w > 0,
            len == bytes@.len(),
            n == bytes@.len() / (w as nat),
            0 <= i <= n,
            buffer@.len() == i,
            forall|j: int|
                0 <= j < i ==> buffer@[j] == T::from_le_spec(
                    #[trigger] bytes@.subrange(j * w, (j + 1) * w),
                ),
        decreases n - i,
    {
        proof {
            lemma_chunk_in_bounds(i as int, n as int, w as int, bytes@.len() as int);
        }
        let start = i * w;
        let chunk = slice_subrange(bytes, start, start + w);
        let value = T::from_le_bytes(chunk);
        buffer.push(value);
        i = i + 1;
    }
    assert(buffer@ =~= decoded::<T>(bytes@));
    buffer
}

} // verus!
