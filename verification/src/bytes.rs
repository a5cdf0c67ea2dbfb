//! Unsigned integers as the bytes that hold them in memory.

use vstd::prelude::*;

verus! {

/// The order in which the bytes of an integer stand in memory.
#[derive(Clone, Copy, Debug, PartialEq, Eq, Structural)]
pub enum ByteOrder {
    /// The least significant byte comes first.
    Little,
    /// The most significant byte comes first.
    Big,
}

/// The number that `bytes` spell in the given order.
pub open spec fn number(order: ByteOrder, bytes: Seq<u8>) -> nat
    decreases bytes.len(),
{
    if bytes.len() == 0 {
        0
    } else {
        match order {
            ByteOrder::Little => bytes.first() as nat + 256 * number(order, bytes.drop_first()),
            ByteOrder::Big => bytes.last() as nat + 256 * number(order, bytes.drop_last()),
        }
    }
}

/// How many numbers `width` bytes can spell.
pub open spec fn capacity(width: nat) -> nat
    decreases width,
{
    if width == 0 {
        1
    } else {
        256 * capacity((width - 1) as nat)
    }
}

/// The `u16` whose two bytes start at offset `at`.
pub open spec fn u16_at(bytes: Seq<u8>, at: int, order: ByteOrder) -> u16 {
    number(order, bytes.subrange(at, at + 2)) as u16
}

/// The `u32` whose four bytes start at offset `at`.
pub open spec fn u32_at(bytes: Seq<u8>, at: int, order: ByteOrder) -> u32 {
    number(order, bytes.subrange(at, at + 4)) as u32
}

/// The `u64` whose eight bytes start at offset `at`.
pub open spec fn u64_at(bytes: Seq<u8>, at: int, order: ByteOrder) -> u64 {
    number(order, bytes.subrange(at, at + 8)) as u64
}

proof fn lemma_capacities()
    ensures
        capacity(2) == 0x1_0000,
        capacity(4) == 0x1_0000_0000,
        capacity(8) == 0x1_0000_0000_0000_0000,
{
    reveal_with_fuel(capacity, 9);
}

proof fn lemma_capacity_grows(a: nat, b: nat)
    requires
        a <= b,
    ensures
        capacity(a) <= capacity(b),
    decreases b,
{
    if a < b {
        lemma_capacity_grows(a, (b - 1) as nat);
    }
}

/// A number that `bytes` spell is below the capacity of their count.
pub proof fn lemma_number_bound(order: ByteOrder, bytes: Seq<u8>)
    ensures
        number(order, bytes) < capacity(bytes.len()),
    decreases bytes.len(),
{
    if bytes.len() > 0 {
        match order {
            ByteOrder::Little => lemma_number_bound(order, bytes.drop_first()),
            ByteOrder::Big => lemma_number_bound(order, bytes.drop_last()),
        }
    }
}

/// Bytes of one count that spell one number in one order are the same bytes.
pub proof fn lemma_number_injective(order: ByteOrder, a: Seq<u8>, b: Seq<u8>)
    requires
        a.len() == b.len(),
        number(order, a) == number(order, b),
    ensures
        a == b,
    decreases a.len(),
{
    if a.len() > 0 {
        match order {
            ByteOrder::Little => {
                lemma_number_injective(order, a.drop_first(), b.drop_first());
                assert forall|i: int| 0 <= i < a.len() implies a[i] == b[i] by {
                    if i > 0 {
                        assert(a.drop_first()[i - 1] == b.drop_first()[i - 1]);
                    }
                }
            },
            ByteOrder::Big => {
                lemma_number_injective(order, a.drop_last(), b.drop_last());
                assert forall|i: int| 0 <= i < a.len() implies a[i] == b[i] by {
                    if i < a.len() - 1 {
                        assert(a.drop_last()[i] == b.drop_last()[i]);
                    }
                }
            },
        }
    }
    assert(a =~= b);
}

/// Zero bytes spell zero, in either order.
pub proof fn lemma_number_of_zeros(order: ByteOrder, bytes: Seq<u8>)
    requires
        forall|i: int| 0 <= i < bytes.len() ==> bytes[i] == 0,
    ensures
        number(order, bytes) == 0,
    decreases bytes.len(),
{
    if bytes.len() > 0 {
        match order {
            ByteOrder::Little => lemma_number_of_zeros(order, bytes.drop_first()),
            ByteOrder::Big => lemma_number_of_zeros(order, bytes.drop_last()),
        }
    }
}

/// Equal fields of four bytes have equal bytes.
pub proof fn lemma_u32_field(a: Seq<u8>, b: Seq<u8>, at: int, order: ByteOrder)
    requires
        0 <= at,
        at + 4 <= a.len(),
        at + 4 <= b.len(),
        u32_at(a, at, order) == u32_at(b, at, order),
    ensures
        forall|i: int| at <= i < at + 4 ==> a[i] == b[i],
{
    let x = a.subrange(at, at + 4);
    let y = b.subrange(at, at + 4);
    lemma_capacities();
    lemma_number_bound(order, x);
    lemma_number_bound(order, y);
    lemma_number_injective(order, x, y);
    assert forall|i: int| at <= i < at + 4 implies a[i] == b[i] by {
        assert(x[i - at] == y[i - at]);
    }
}

/// Equal fields of eight bytes have equal bytes.
pub proof fn lemma_u64_field(a: Seq<u8>, b: Seq<u8>, at: int, order: ByteOrder)
    requires
        0 <= at,
        at + 8 <= a.len(),
        at + 8 <= b.len(),
        u64_at(a, at, order) == u64_at(b, at, order),
    ensures
        forall|i: int| at <= i < at + 8 ==> a[i] == b[i],
{
    let x = a.subrange(at, at + 8);
    let y = b.subrange(at, at + 8);
    lemma_capacities();
    lemma_number_bound(order, x);
    lemma_number_bound(order, y);
    lemma_number_injective(order, x, y);
    assert forall|i: int| at <= i < at + 8 implies a[i] == b[i] by {
        assert(x[i - at] == y[i - at]);
    }
}

/// The number that the `width` bytes from offset `at` on spell.
fn read_number(bytes: &Vec<u8>, at: usize, width: usize, order: ByteOrder) -> (n: u64)
    requires
        width <= 8,
        at + width <= bytes@.len(),
    ensures
        n == number(order, bytes@.subrange(at as int, at + width)),
        n < capacity(width as nat),
{
    let ghost all = bytes@.subrange(at as int, at + width);
    let len: usize = bytes.len();
    let mut n: u64 = 0;
    let mut k: usize = 0;
    assert(match order {
        ByteOrder::Little => all.skip(width as int),
        ByteOrder::Big => all.take(0),
    } =~= Seq::<u8>::empty());
    while k < width
        invariant
            k <= width <= 8,
            at + width <= len == bytes@.len(),
            all == bytes@.subrange(at as int, at + width),
            order is Little ==> n == number(order, all.skip(width - k)),
            order is Big ==> n == number(order, all.take(k as int)),
        decreases width - k,
    {
        let ghost seen = match order {
            ByteOrder::Little => all.skip(width - k),
            ByteOrder::Big => all.take(k as int),
        };
        let ghost seen_next = match order {
            ByteOrder::Little => all.skip(width - k - 1),
            ByteOrder::Big => all.take(k + 1),
        };
        let byte: u8 = match order {
            ByteOrder::Little => bytes[at + (width - 1 - k)],
            ByteOrder::Big => bytes[at + k],
        };
        proof {
            match order {
                ByteOrder::Little => assert(seen_next.drop_first() =~= seen),
                ByteOrder::Big => assert(seen_next.drop_last() =~= seen),
            }
            lemma_number_bound(order, seen_next);
            lemma_capacity_grows((k + 1) as nat, 8);
            lemma_capacities();
        }
        n = n * 256 + byte as u64;
        k = k + 1;
    }
    assert(match order {
        ByteOrder::Little => all.skip(0),
        ByteOrder::Big => all.take(width as int),
    } =~= all);
    proof {
        lemma_number_bound(order, all);
    }
    n
}

/// Reads the `u16` at offset `at`.
pub fn read_u16(bytes: &Vec<u8>, at: usize, order: ByteOrder) -> (n: u16)
    requires
        at + 2 <= bytes@.len(),
    ensures
        n == u16_at(bytes@, at as int, order),
{
    proof {
        lemma_capacities();
    }
    read_number(bytes, at, 2, order) as u16
}

/// Reads the `u32` at offset `at`.
pub fn read_u32(bytes: &Vec<u8>, at: usize, order: ByteOrder) -> (n: u32)
    requires
        at + 4 <= bytes@.len(),
    ensures
        n == u32_at(bytes@, at as int, order),
{
    proof {
        lemma_capacities();
    }
    read_number(bytes, at, 4, order) as u32
}

/// Reads the `u64` at offset `at`.
pub fn read_u64(bytes: &Vec<u8>, at: usize, order: ByteOrder) -> (n: u64)
    requires
        at + 8 <= bytes@.len(),
    ensures
        n == u64_at(bytes@, at as int, order),
{
    proof {
        lemma_capacities();
    }
    read_number(bytes, at, 8, order)
}

/// What two bytes spell, written out.
proof fn lemma_number_of_two(order: ByteOrder, s: Seq<u8>)
    requires
        s.len() == 2,
    ensures
        order is Little ==> number(order, s) == s[0] + 256 * s[1],
        order is Big ==> number(order, s) == s[1] + 256 * s[0],
{
    match order {
        ByteOrder::Little => {
            let s1 = s.drop_first();
            assert(number(order, s1.drop_first()) == 0);
            assert(number(order, s1) == s[1]);
        },
        ByteOrder::Big => {
            let s1 = s.drop_last();
            assert(number(order, s1.drop_last()) == 0);
            assert(number(order, s1) == s[0]);
        },
    }
}

/// What four bytes spell, written out.
proof fn lemma_number_of_four(order: ByteOrder, s: Seq<u8>)
    requires
        s.len() == 4,
    ensures
        order is Little ==> number(order, s) == s[0] + 256 * s[1] + 65536 * s[2] + 16777216 * s[3],
        order is Big ==> number(order, s) == s[3] + 256 * s[2] + 65536 * s[1] + 16777216 * s[0],
{
    match order {
        ByteOrder::Little => {
            let s3 = s.drop_first();
            let s2 = s3.drop_first();
            lemma_number_of_two(order, s2);
            assert(number(order, s3) == s[1] + 256 * number(order, s2));
            assert(number(order, s) == s[0] + 256 * number(order, s3));
        },
        ByteOrder::Big => {
            let s3 = s.drop_last();
            let s2 = s3.drop_last();
            lemma_number_of_two(order, s2);
            assert(number(order, s3) == s[2] + 256 * number(order, s2));
            assert(number(order, s) == s[3] + 256 * number(order, s3));
        },
    }
}

/// What eight bytes spell, written out in two halves of four.
proof fn lemma_number_of_eight(order: ByteOrder, s: Seq<u8>)
    requires
        s.len() == 8,
    ensures
        order is Little ==> number(order, s) == (s[0] + 256 * s[1] + 65536 * s[2] + 16777216 * s[3])
            + 0x1_0000_0000 * (s[4] + 256 * s[5] + 65536 * s[6] + 16777216 * s[7]),
        order is Big ==> number(order, s) == (s[7] + 256 * s[6] + 65536 * s[5] + 16777216 * s[4])
            + 0x1_0000_0000 * (s[3] + 256 * s[2] + 65536 * s[1] + 16777216 * s[0]),
{
    match order {
        ByteOrder::Little => {
            let s7 = s.drop_first();
            let s6 = s7.drop_first();
            let s5 = s6.drop_first();
            let s4 = s5.drop_first();
            lemma_number_of_four(order, s4);
            assert(number(order, s5) == s[3] + 256 * number(order, s4));
            assert(number(order, s6) == s[2] + 256 * number(order, s5));
            assert(number(order, s7) == s[1] + 256 * number(order, s6));
            assert(number(order, s) == s[0] + 256 * number(order, s7));
        },
        ByteOrder::Big => {
            let s7 = s.drop_last();
            let s6 = s7.drop_last();
            let s5 = s6.drop_last();
            let s4 = s5.drop_last();
            lemma_number_of_four(order, s4);
            assert(number(order, s5) == s[4] + 256 * number(order, s4));
            assert(number(order, s6) == s[5] + 256 * number(order, s5));
            assert(number(order, s7) == s[6] + 256 * number(order, s6));
            assert(number(order, s) == s[7] + 256 * number(order, s7));
        },
    }
}

/// The value of a `u16` in memory, byte by byte.
pub proof fn law_u16_at(bytes: Seq<u8>, at: int, order: ByteOrder)
    requires
        0 <= at,
        at + 2 <= bytes.len(),
    ensures
        order is Little ==> u16_at(bytes, at, order) == bytes[at] + 256 * bytes[at + 1],
        order is Big ==> u16_at(bytes, at, order) == bytes[at + 1] + 256 * bytes[at],
{
    lemma_number_of_two(order, bytes.subrange(at, at + 2));
}

/// The value of a `u32` in memory, byte by byte.
pub proof fn law_u32_at(bytes: Seq<u8>, at: int, order: ByteOrder)
    requires
        0 <= at,
        at + 4 <= bytes.len(),
    ensures
        order is Little ==> u32_at(bytes, at, order) == bytes[at] + 256 * bytes[at + 1] + 65536
            * bytes[at + 2] + 16777216 * bytes[at + 3],
        order is Big ==> u32_at(bytes, at, order) == bytes[at + 3] + 256 * bytes[at + 2] + 65536
            * bytes[at + 1] + 16777216 * bytes[at],
{
    lemma_number_of_four(order, bytes.subrange(at, at + 4));
}

/// The value of a `u64` in memory, byte by byte.
pub proof fn law_u64_at(bytes: Seq<u8>, at: int, order: ByteOrder)
    requires
        0 <= at,
        at + 8 <= bytes.len(),
    ensures
        order is Little ==> u64_at(bytes, at, order) == (bytes[at] + 256 * bytes[at + 1] + 65536
            * bytes[at + 2] + 16777216 * bytes[at + 3]) + 0x1_0000_0000 * (bytes[at + 4] + 256
            * bytes[at + 5] + 65536 * bytes[at + 6] + 16777216 * bytes[at + 7]),
        order is Big ==> u64_at(bytes, at, order) == (bytes[at + 7] + 256 * bytes[at + 6] + 65536
            * bytes[at + 5] + 16777216 * bytes[at + 4]) + 0x1_0000_0000 * (bytes[at + 3] + 256
            * bytes[at + 2] + 65536 * bytes[at + 1] + 16777216 * bytes[at]),
{
    lemma_number_of_eight(order, bytes.subrange(at, at + 8));
}

/// The bytes that spell `n` in `width` bytes.
pub open spec fn spell(order: ByteOrder, width: nat, n: nat) -> Seq<u8>
    decreases width,
{
    if width == 0 {
        seq![]
    } else {
        match order {
            ByteOrder::Little => seq![(n % 256) as u8] + spell(order, (width - 1) as nat, n / 256),
            ByteOrder::Big => spell(order, (width - 1) as nat, n / 256).push((n % 256) as u8),
        }
    }
}

/// Writing the number that some bytes spell gives back those bytes.
pub proof fn law_spell_number(order: ByteOrder, bytes: Seq<u8>)
    ensures
        spell(order, bytes.len(), number(order, bytes)) == bytes,
    decreases bytes.len(),
{
    if bytes.len() > 0 {
        match order {
            ByteOrder::Little => law_spell_number(order, bytes.drop_first()),
            ByteOrder::Big => law_spell_number(order, bytes.drop_last()),
        }
    }
    assert(spell(order, bytes.len(), number(order, bytes)) =~= bytes);
}

/// Writing a byte behind what stands before it in memory.
pub proof fn lemma_spell_u8(bytes: Seq<u8>, at: int, order: ByteOrder)
    requires
        0 <= at < bytes.len(),
    ensures
        bytes.take(at) + spell(order, 1, bytes[at] as nat) == bytes.take(at + 1),
{
    reveal_with_fuel(spell, 2);
    assert(bytes.take(at) + spell(order, 1, bytes[at] as nat) =~= bytes.take(at + 1));
}

/// Writing a `u32` behind what stands before it in memory.
pub proof fn lemma_spell_u32(bytes: Seq<u8>, at: int, order: ByteOrder)
    requires
        0 <= at,
        at + 4 <= bytes.len(),
    ensures
        bytes.take(at) + spell(order, 4, u32_at(bytes, at, order) as nat) == bytes.take(at + 4),
{
    let s = bytes.subrange(at, at + 4);
    law_spell_number(order, s);
    lemma_capacities();
    lemma_number_bound(order, s);
    assert(bytes.take(at) + s =~= bytes.take(at + 4));
}

/// Writing a `u64` behind what stands before it in memory.
pub proof fn lemma_spell_u64(bytes: Seq<u8>, at: int, order: ByteOrder)
    requires
        0 <= at,
        at + 8 <= bytes.len(),
    ensures
        bytes.take(at) + spell(order, 8, u64_at(bytes, at, order) as nat) == bytes.take(at + 8),
{
    let s = bytes.subrange(at, at + 8);
    law_spell_number(order, s);
    lemma_capacities();
    lemma_number_bound(order, s);
    assert(bytes.take(at) + s =~= bytes.take(at + 8));
}

/// The four bytes that hold `n`.
pub fn u32_bytes(n: u32, order: ByteOrder) -> (bytes: Vec<u8>)
    ensures
        bytes@.len() == 4,
        number(order, bytes@) == n,
        order is Little ==> n == bytes@[0] + 256 * bytes@[1] + 65536 * bytes@[2] + 16777216
            * bytes@[3],
        order is Big ==> n == bytes@[3] + 256 * bytes@[2] + 65536 * bytes@[1] + 16777216
            * bytes@[0],
{
    let high: u32 = n / 65536;
    let low: u32 = n % 65536;
    let b0: u8 = (low % 256) as u8;
    let b1: u8 = (low / 256) as u8;
    let b2: u8 = (high % 256) as u8;
    let b3: u8 = (high / 256) as u8;
    let bytes: Vec<u8> = match order {
        ByteOrder::Little => vec![b0, b1, b2, b3],
        ByteOrder::Big => vec![b3, b2, b1, b0],
    };
    proof {
        lemma_number_of_four(order, bytes@);
    }
    bytes
}

} // verus!
