use crate::error::{ErrorView, ScheduleError};
use vstd::prelude::*;

verus! {

/// A symbolic calendar value that owns one bit of a 32-bit flag word.
///
/// The valid values of the type stand in one-to-one correspondence with the
/// bit positions below `width()`.
pub trait CalendarFlag: Sized {
    /// The number of bit positions that the type uses.
    spec fn width() -> nat;

    /// Whether the value lies in the domain of the type.
    spec fn valid(&self) -> bool;

    /// The bit position of a valid value.
    spec fn index(&self) -> nat;

    /// The value that owns bit position `i`.
    spec fn from_index(i: nat) -> Self;

    /// The width is positive and fits the flag word.
    proof fn lemma_width()
        ensures
            0 < Self::width() <= 32,
    ;

    /// Every valid value has a position below the width and is found again from it.
    proof fn lemma_index(x: Self)
        requires
            x.valid(),
        ensures
            x.index() < Self::width(),
            Self::from_index(x.index()) == x,
    ;

    /// Every position below the width belongs to a valid value.
    proof fn lemma_from_index(i: nat)
        requires
            i < Self::width(),
        ensures
            Self::from_index(i).valid(),
            Self::from_index(i).index() == i,
    ;

    /// The number of bit positions that the type uses.
    fn flag_width() -> (w: u32)
        ensures
            w == Self::width(),
    ;

    /// The bit position of the value, or `None` for a value outside the domain.
    fn bit_index(&self) -> (i: Option<u32>)
        ensures
            self.valid() ==> i == Some(self.index() as u32),
            !self.valid() ==> i is None,
    ;

    /// The value that owns bit position `i`.
    fn flag_at(i: u32) -> (x: Self)
        requires
            i < Self::width(),
        ensures
            x == Self::from_index(i as nat),
    ;
}

/// The flag word in which only bit `i` is set.
pub open spec fn flag_bit(i: nat) -> u32 {
    1u32 << i
}

/// Whether bit `i` of `mask` is set.
pub open spec fn bit_set(mask: u32, i: nat) -> bool {
    mask & flag_bit(i) != 0
}

/// Whether every member of `items` lies in the domain of its type.
pub open spec fn all_valid<T: CalendarFlag>(items: Seq<T>) -> bool {
    forall|k: int| 0 <= k < items.len() ==> (#[trigger] items[k]).valid()
}

/// The flag word of a collection: the bitwise OR of its members' bits, zero when empty.
pub open spec fn encode_spec<T: CalendarFlag>(items: Seq<T>) -> u32
    decreases items.len(),
{
    if items.len() == 0 {
        0
    } else {
        encode_spec(items.drop_last()) | flag_bit(items.last().index())
    }
}

/// The values whose bits are set in `mask`, among the positions below `n`, by rising position.
pub open spec fn decode_below<T: CalendarFlag>(mask: u32, n: nat) -> Seq<T>
    decreases n,
{
    if n == 0 {
        Seq::empty()
    } else {
        let rest = decode_below::<T>(mask, (n - 1) as nat);
        if bit_set(mask, (n - 1) as nat) {
            rest.push(T::from_index((n - 1) as nat))
        } else {
            rest
        }
    }
}

/// The values whose bits are set in `mask`, by rising position.
pub open spec fn decode_spec<T: CalendarFlag>(mask: u32) -> Seq<T> {
    decode_below::<T>(mask, T::width())
}

/// Whether `mask` sets no bit outside the positions that the type uses.
pub open spec fn representable<T: CalendarFlag>(mask: u32) -> bool {
    forall|i: nat| T::width() <= i < 32 ==> !#[trigger] bit_set(mask, i)
}

/// The message of the error for a calendar value outside its domain.
pub open spec fn out_of_range_message() -> Seq<char> {
    "A calendar value lies outside its valid range."@
}

/// The message of the error for a flag word with a bit that no value owns.
pub open spec fn unknown_bits_message() -> Seq<char> {
    "The bit mask sets a bit that stands for no calendar value."@
}

proof fn lemma_bit_of_or(m: u32, i: u32, j: u32)
    requires
        i < 32,
        j < 32,
    ensures
        bit_set(m | flag_bit(i as nat), j as nat) <==> (bit_set(m, j as nat) || i == j),
        !bit_set(0, j as nat),
{
    assert(((m | (1u32 << i)) & (1u32 << j) != 0) <==> ((m & (1u32 << j) != 0) || i == j))
        by (bit_vector)
        requires
            i < 32,
            j < 32,
    ;
    assert(0u32 & (1u32 << j) == 0) by (bit_vector);
}

/// A bit is set in the flag word of a collection exactly when a member owns it.
pub proof fn lemma_encode_bit<T: CalendarFlag>(items: Seq<T>, i: nat)
    requires
        all_valid(items),
        i < 32,
    ensures
        bit_set(encode_spec(items), i) <==> exists|k: int|
            0 <= k < items.len() && (#[trigger] items[k]).index() == i,
    decreases items.len(),
{
    if items.len() == 0 {
        lemma_bit_of_or(0, 0, i as u32);
    } else {
        let front = items.drop_last();
        let last = items.last();
        T::lemma_index(last);
        T::lemma_width();
        lemma_encode_bit(front, i);
        lemma_bit_of_or(encode_spec(front), last.index() as u32, i as u32);
        if bit_set(encode_spec(items), i) {
            if last.index() == i {
                assert(items[items.len() - 1].index() == i);
            } else {
                let k = choose|k: int| 0 <= k < front.len() && (#[trigger] front[k]).index() == i;
                assert(items[k].index() == i);
            }
        }
        if exists|k: int| 0 <= k < items.len() && (#[trigger] items[k]).index() == i {
            let k = choose|k: int| 0 <= k < items.len() && (#[trigger] items[k]).index() == i;
            if k < front.len() {
                assert(front[k].index() == i);
            }
        }
    }
}

/// Two flag words with the same bits are equal.
proof fn lemma_same_bits(a: u32, b: u32)
    requires
        forall|j: nat| j < 32 ==> (bit_set(a, j) <==> bit_set(b, j)),
    ensures
        a == b,
{
    assert(bit_set(a, 0) <==> bit_set(b, 0));
    assert(bit_set(a, 1) <==> bit_set(b, 1));
    assert(bit_set(a, 2) <==> bit_set(b, 2));
    assert(bit_set(a, 3) <==> bit_set(b, 3));
    assert(bit_set(a, 4) <==> bit_set(b, 4));
    assert(bit_set(a, 5) <==> bit_set(b, 5));
    assert(bit_set(a, 6) <==> bit_set(b, 6));
    assert(bit_set(a, 7) <==> bit_set(b, 7));
    assert(bit_set(a, 8) <==> bit_set(b, 8));
    assert(bit_set(a, 9) <==> bit_set(b, 9));
    assert(bit_set(a, 10) <==> bit_set(b, 10));
    assert(bit_set(a, 11) <==> bit_set(b, 11));
    assert(bit_set(a, 12) <==> bit_set(b, 12));
    assert(bit_set(a, 13) <==> bit_set(b, 13));
    assert(bit_set(a, 14) <==> bit_set(b, 14));
    assert(bit_set(a, 15) <==> bit_set(b, 15));
    assert(bit_set(a, 16) <==> bit_set(b, 16));
    assert(bit_set(a, 17) <==> bit_set(b, 17));
    assert(bit_set(a, 18) <==> bit_set(b, 18));
    assert(bit_set(a, 19) <==> bit_set(b, 19));
    assert(bit_set(a, 20) <==> bit_set(b, 20));
    assert(bit_set(a, 21) <==> bit_set(b, 21));
    assert(bit_set(a, 22) <==> bit_set(b, 22));
    assert(bit_set(a, 23) <==> bit_set(b, 23));
    assert(bit_set(a, 24) <==> bit_set(b, 24));
    assert(bit_set(a, 25) <==> bit_set(b, 25));
    assert(bit_set(a, 26) <==> bit_set(b, 26));
    assert(bit_set(a, 27) <==> bit_set(b, 27));
    assert(bit_set(a, 28) <==> bit_set(b, 28));
    assert(bit_set(a, 29) <==> bit_set(b, 29));
    assert(bit_set(a, 30) <==> bit_set(b, 30));
    assert(bit_set(a, 31) <==> bit_set(b, 31));
    assert(a == b) by (bit_vector)
        requires
            ((a & (1u32 << 0u32)) != 0) == ((b & (1u32 << 0u32)) != 0),
            ((a & (1u32 << 1u32)) != 0) == ((b & (1u32 << 1u32)) != 0),
            ((a & (1u32 << 2u32)) != 0) == ((b & (1u32 << 2u32)) != 0),
            ((a & (1u32 << 3u32)) != 0) == ((b & (1u32 << 3u32)) != 0),
            ((a & (1u32 << 4u32)) != 0) == ((b & (1u32 << 4u32)) != 0),
            ((a & (1u32 << 5u32)) != 0) == ((b & (1u32 << 5u32)) != 0),
            ((a & (1u32 << 6u32)) != 0) == ((b & (1u32 << 6u32)) != 0),
            ((a & (1u32 << 7u32)) != 0) == ((b & (1u32 << 7u32)) != 0),
            ((a & (1u32 << 8u32)) != 0) == ((b & (1u32 << 8u32)) != 0),
            ((a & (1u32 << 9u32)) != 0) == ((b & (1u32 << 9u32)) != 0),
            ((a & (1u32 << 10u32)) != 0) == ((b & (1u32 << 10u32)) != 0),
            ((a & (1u32 << 11u32)) != 0) == ((b & (1u32 << 11u32)) != 0),
            ((a & (1u32 << 12u32)) != 0) == ((b & (1u32 << 12u32)) != 0),
            ((a & (1u32 << 13u32)) != 0) == ((b & (1u32 << 13u32)) != 0),
            ((a & (1u32 << 14u32)) != 0) == ((b & (1u32 << 14u32)) != 0),
            ((a & (1u32 << 15u32)) != 0) == ((b & (1u32 << 15u32)) != 0),
            ((a & (1u32 << 16u32)) != 0) == ((b & (1u32 << 16u32)) != 0),
            ((a & (1u32 << 17u32)) != 0) == ((b & (1u32 << 17u32)) != 0),
            ((a & (1u32 << 18u32)) != 0) == ((b & (1u32 << 18u32)) != 0),
            ((a & (1u32 << 19u32)) != 0) == ((b & (1u32 << 19u32)) != 0),
            ((a & (1u32 << 20u32)) != 0) == ((b & (1u32 << 20u32)) != 0),
            ((a & (1u32 << 21u32)) != 0) == ((b & (1u32 << 21u32)) != 0),
            ((a & (1u32 << 22u32)) != 0) == ((b & (1u32 << 22u32)) != 0),
            ((a & (1u32 << 23u32)) != 0) == ((b & (1u32 << 23u32)) != 0),
            ((a & (1u32 << 24u32)) != 0) == ((b & (1u32 << 24u32)) != 0),
            ((a & (1u32 << 25u32)) != 0) == ((b & (1u32 << 25u32)) != 0),
            ((a & (1u32 << 26u32)) != 0) == ((b & (1u32 << 26u32)) != 0),
            ((a & (1u32 << 27u32)) != 0) == ((b & (1u32 << 27u32)) != 0),
            ((a & (1u32 << 28u32)) != 0) == ((b & (1u32 << 28u32)) != 0),
            ((a & (1u32 << 29u32)) != 0) == ((b & (1u32 << 29u32)) != 0),
            ((a & (1u32 << 30u32)) != 0) == ((b & (1u32 << 30u32)) != 0),
            ((a & (1u32 << 31u32)) != 0) == ((b & (1u32 << 31u32)) != 0),
    ;
}

/// What `decode_below` holds: valid values, by rising position, one for each set bit below `n`.
pub proof fn lemma_decode_below<T: CalendarFlag>(mask: u32, n: nat)
    requires
        n <= T::width(),
    ensures
        all_valid(decode_below::<T>(mask, n)),
        forall|k: int|
            0 <= k < decode_below::<T>(mask, n).len() ==> {
                &&& (#[trigger] decode_below::<T>(mask, n)[k]).index() < n
                &&& bit_set(mask, decode_below::<T>(mask, n)[k].index())
            },
        forall|a: int, b: int|
            0 <= a < b < decode_below::<T>(mask, n).len() ==> (#[trigger] decode_below::<T>(
                mask,
                n,
            )[a]).index() < (#[trigger] decode_below::<T>(mask, n)[b]).index(),
        forall|j: nat|
            j < n && bit_set(mask, j) ==> exists|k: int|
                0 <= k < decode_below::<T>(mask, n).len() && (#[trigger] decode_below::<T>(
                    mask,
                    n,
                )[k]).index() == j,
        decode_below::<T>(mask, n).len() <= n,
    decreases n,
{
    if n > 0 {
        let m = (n - 1) as nat;
        let rest = decode_below::<T>(mask, m);
        let full = decode_below::<T>(mask, n);
        lemma_decode_below::<T>(mask, m);
        T::lemma_from_index(m);
        if bit_set(mask, m) {
            assert(full == rest.push(T::from_index(m)));
            assert(full[full.len() - 1].index() == m);
            assert forall|k: int| 0 <= k < full.len() implies {
                &&& (#[trigger] full[k]).index() < n
                &&& bit_set(mask, full[k].index())
                &&& full[k].valid()
            } by {
                if k < rest.len() {
                    assert(full[k] == rest[k]);
                }
            }
            assert forall|a: int, b: int| 0 <= a < b < full.len() implies (#[trigger] full[a]).index()
                < (#[trigger] full[b]).index() by {
                assert(full[a] == rest[a]);
                if b < rest.len() {
                    assert(full[b] == rest[b]);
                }
            }
        } else {
            assert(full == rest);
        }
        assert forall|j: nat| j < n && bit_set(mask, j) implies exists|k: int|
            0 <= k < full.len() && (#[trigger] full[k]).index() == j by {
            if j < m {
                let k = choose|k: int| 0 <= k < rest.len() && (#[trigger] rest[k]).index() == j;
                assert(full[k] == rest[k]);
            } else {
                assert(full[full.len() - 1].index() == j);
            }
        }
    }
}

/// Encoding then decoding gives back the members of the collection: each of
/// them once, by rising bit position, and nothing else.
pub proof fn law_decode_encode<T: CalendarFlag>(items: Seq<T>)
    requires
        all_valid(items),
    ensures
        representable::<T>(encode_spec(items)),
        decode_spec::<T>(encode_spec(items)).to_set() == items.to_set(),
        decode_spec::<T>(encode_spec(items)).no_duplicates(),
        all_valid(decode_spec::<T>(encode_spec(items))),
{
    let mask = encode_spec(items);
    let back = decode_spec::<T>(mask);
    T::lemma_width();
    lemma_decode_below::<T>(mask, T::width());
    assert forall|i: nat| T::width() <= i < 32 implies !#[trigger] bit_set(mask, i) by {
        lemma_encode_bit(items, i);
        if bit_set(mask, i) {
            let k = choose|k: int| 0 <= k < items.len() && (#[trigger] items[k]).index() == i;
            T::lemma_index(items[k]);
        }
    }
    assert forall|x: T| back.to_set().contains(x) <==> items.to_set().contains(x) by {
        if back.contains(x) {
            let k = choose|k: int| 0 <= k < back.len() && back[k] == x;
            assert(back[k].valid());
            T::lemma_index(x);
            lemma_encode_bit(items, x.index());
            let h = choose|h: int| 0 <= h < items.len() && (#[trigger] items[h]).index() == x.index();
            T::lemma_index(items[h]);
            assert(items[h] == x);
        }
        if items.contains(x) {
            let h = choose|h: int| 0 <= h < items.len() && items[h] == x;
            assert(items[h].valid());
            T::lemma_index(x);
            lemma_encode_bit(items, x.index());
            let k = choose|k: int| 0 <= k < back.len() && (#[trigger] back[k]).index() == x.index();
            T::lemma_index(back[k]);
            assert(back[k] == x);
        }
    }
    assert(back.to_set() =~= items.to_set());
    assert forall|a: int, b: int| 0 <= a < back.len() && 0 <= b < back.len() && a != b implies back[a]
        != back[b] by {
        if a < b {
            assert(back[a].index() < back[b].index());
        } else {
            assert(back[b].index() < back[a].index());
        }
    }
}

/// Whether the members of `items` stand by rising bit position, each once.
pub open spec fn rising<T: CalendarFlag>(items: Seq<T>) -> bool {
    forall|a: int, b: int|
        0 <= a < b < items.len() ==> (#[trigger] items[a]).index() < (#[trigger] items[b]).index()
}

/// Two collections of valid values by rising bit position that hold the same
/// values are the same collection.
proof fn lemma_rising_unique<T: CalendarFlag>(a: Seq<T>, b: Seq<T>)
    requires
        all_valid(a),
        all_valid(b),
        rising(a),
        rising(b),
        a.to_set() == b.to_set(),
    ensures
        a == b,
    decreases a.len(),
{
    if a.len() == 0 {
        if b.len() > 0 {
            assert(b.to_set().contains(b[0]));
            assert(a.contains(b[0]));
        }
        assert(a =~= b);
    } else {
        let x = a.last();
        assert(a.to_set().contains(x));
        assert(b.contains(x));
        let k = choose|k: int| 0 <= k < b.len() && b[k] == x;
        let y = b.last();
        assert(b.to_set().contains(y));
        assert(a.contains(y));
        let h = choose|h: int| 0 <= h < a.len() && a[h] == y;
        assert(x.index() == y.index()) by {
            if k < b.len() - 1 {
                assert(b[k].index() < b[b.len() - 1].index());
            }
            if h < a.len() - 1 {
                assert(a[h].index() < a[a.len() - 1].index());
            }
        }
        T::lemma_index(x);
        T::lemma_index(y);
        assert(x == y);
        let a0 = a.drop_last();
        let b0 = b.drop_last();
        assert forall|z: T| a0.to_set().contains(z) <==> b0.to_set().contains(z) by {
            if a0.contains(z) {
                let i = choose|i: int| 0 <= i < a0.len() && a0[i] == z;
                assert(a[i] == z);
                assert(a[i].index() < a[a.len() - 1].index());
                assert(a.to_set().contains(z));
                assert(b.contains(z));
                let j = choose|j: int| 0 <= j < b.len() && b[j] == z;
                assert(j < b.len() - 1);
                assert(b0[j] == z);
            }
            if b0.contains(z) {
                let j = choose|j: int| 0 <= j < b0.len() && b0[j] == z;
                assert(b[j] == z);
                assert(b[j].index() < b[b.len() - 1].index());
                assert(b.to_set().contains(z));
                assert(a.contains(z));
                let i = choose|i: int| 0 <= i < a.len() && a[i] == z;
                assert(i < a.len() - 1);
                assert(a0[i] == z);
            }
        }
        assert(a0.to_set() =~= b0.to_set());
        assert(all_valid(a0)) by {
            assert forall|i: int| 0 <= i < a0.len() implies (#[trigger] a0[i]).valid() by {
                assert(a0[i] == a[i]);
            }
        }
        assert(all_valid(b0)) by {
            assert forall|i: int| 0 <= i < b0.len() implies (#[trigger] b0[i]).valid() by {
                assert(b0[i] == b[i]);
            }
        }
        assert(rising(a0)) by {
            assert forall|i: int, j: int| 0 <= i < j < a0.len() implies (#[trigger] a0[i]).index() < (
            #[trigger] a0[j]).index() by {
                assert(a0[i] == a[i] && a0[j] == a[j]);
            }
        }
        assert(rising(b0)) by {
            assert forall|i: int, j: int| 0 <= i < j < b0.len() implies (#[trigger] b0[i]).index() < (
            #[trigger] b0[j]).index() by {
                assert(b0[i] == b[i] && b0[j] == b[j]);
            }
        }
        lemma_rising_unique(a0, b0);
        assert(a =~= a0.push(x));
        assert(b =~= b0.push(y));
    }
}

/// Encoding then decoding gives back the very collection, when its members
/// stand by rising bit position, each once.
pub proof fn law_decode_encode_rising<T: CalendarFlag>(items: Seq<T>)
    requires
        all_valid(items),
        rising(items),
    ensures
        decode_spec::<T>(encode_spec(items)) == items,
{
    let back = decode_spec::<T>(encode_spec(items));
    law_decode_encode(items);
    T::lemma_width();
    lemma_decode_below::<T>(encode_spec(items), T::width());
    lemma_rising_unique(back, items);
}

/// Decoding then encoding gives back the flag word, when it sets no bit
/// outside the positions that the type uses.
pub proof fn law_encode_decode<T: CalendarFlag>(mask: u32)
    requires
        representable::<T>(mask),
    ensures
        all_valid(decode_spec::<T>(mask)),
        encode_spec(decode_spec::<T>(mask)) == mask,
{
    let back = decode_spec::<T>(mask);
    T::lemma_width();
    lemma_decode_below::<T>(mask, T::width());
    assert forall|j: nat| j < 32 implies (bit_set(encode_spec(back), j) <==> bit_set(mask, j)) by {
        lemma_encode_bit(back, j);
        if bit_set(mask, j) {
            assert(j < T::width());
        }
    }
    lemma_same_bits(encode_spec(back), mask);
}

/// Duplicate members do not change the flag word: it depends only on which
/// values occur in the collection.
pub proof fn law_encode_by_members<T: CalendarFlag>(a: Seq<T>, b: Seq<T>)
    requires
        all_valid(a),
        all_valid(b),
        a.to_set() == b.to_set(),
    ensures
        encode_spec(a) == encode_spec(b),
{
    assert forall|j: nat| j < 32 implies (bit_set(encode_spec(a), j) <==> bit_set(
        encode_spec(b),
        j,
    )) by {
        lemma_encode_bit(a, j);
        lemma_encode_bit(b, j);
        if bit_set(encode_spec(a), j) {
            let k = choose|k: int| 0 <= k < a.len() && (#[trigger] a[k]).index() == j;
            assert(a.to_set().contains(a[k]));
            assert(b.contains(a[k]));
            let h = choose|h: int| 0 <= h < b.len() && b[h] == a[k];
            assert(b[h].index() == j);
        }
        if bit_set(encode_spec(b), j) {
            let k = choose|k: int| 0 <= k < b.len() && (#[trigger] b[k]).index() == j;
            assert(b.to_set().contains(b[k]));
            assert(a.contains(b[k]));
            let h = choose|h: int| 0 <= h < a.len() && a[h] == b[k];
            assert(a[h].index() == j);
        }
    }
    lemma_same_bits(encode_spec(a), encode_spec(b));
}

/// Folds a collection of calendar values into one flag word by bitwise OR.
///
/// An empty collection gives zero. Fails with an out-of-range error when a
/// member lies outside the domain of its type.
pub fn encode<T: CalendarFlag>(items: &Vec<T>) -> (r: Result<u32, ScheduleError>)
    ensures
        match r {
            Ok(mask) => all_valid(items@) && mask == encode_spec(items@),
            Err(e) => !all_valid(items@) && e@ == ErrorView::out_of_range(out_of_range_message()),
        },
{
    let mut mask: u32 = 0;
    let mut k: usize = 0;
    while k < items.len()
        invariant
            k <= items.len(),
            all_valid(items@.take(k as int)),
            mask == encode_spec(items@.take(k as int)),
        decreases items.len() - k,
    {
        match items[k].bit_index() {
            None => {
                assert(!items@[k as int].valid());
                return Err(
                    ScheduleError::out_of_range("A calendar value lies outside its valid range."),
                );
            },
            Some(i) => {
                proof {
                    T::lemma_index(items@[k as int]);
                    T::lemma_width();
                    let next = items@.take(k as int + 1);
                    assert(next.drop_last() =~= items@.take(k as int));
                    assert(next.last() == items@[k as int]);
                    assert forall|h: int| 0 <= h < next.len() implies (#[trigger] next[h]).valid() by {
                        if h < k {
                            assert(items@.take(k as int)[h] == next[h]);
                        }
                    }
                }
                mask = mask | (1u32 << i);
                k = k + 1;
            },
        }
    }
    assert(items@.take(k as int) =~= items@);
    Ok(mask)
}

/// Folds a collection of calendar values, all of them in their domain, into
/// one flag word by bitwise OR.
pub(crate) fn encode_valid<T: CalendarFlag>(items: &Vec<T>) -> (mask: u32)
    requires
        all_valid(items@),
    ensures
        mask == encode_spec(items@),
{
    match encode(items) {
        Ok(mask) => mask,
        Err(_) => unreached(),
    }
}

/// Recovers from a flag word the calendar values whose bits it sets, by rising
/// bit position.
///
/// Fails with an out-of-range error when the word sets a bit that stands for
/// no value of the type.
pub fn decode<T: CalendarFlag>(mask: u32) -> (r: Result<Vec<T>, ScheduleError>)
    ensures
        match r {
            Ok(items) => representable::<T>(mask) && items@ == decode_spec::<T>(mask),
            Err(e) => !representable::<T>(mask) && e@ == ErrorView::out_of_range(
                unknown_bits_message(),
            ),
        },
{
    let width = T::flag_width();
    proof {
        T::lemma_width();
    }
    let mut items: Vec<T> = Vec::new();
    let mut i: u32 = 0;
    while i < width
        invariant
            i <= width,
            width == T::width(),
            width <= 32,
            items@ == decode_below::<T>(mask, i as nat),
        decreases width - i,
    {
        if mask & (1u32 << i) != 0 {
            items.push(T::flag_at(i));
        }
        i = i + 1;
    }
    while i < 32
        invariant
            width <= i <= 32,
            width == T::width(),
            forall|j: nat| width <= j < i ==> !#[trigger] bit_set(mask, j),
        decreases 32 - i,
    {
        if mask & (1u32 << i) != 0 {
            assert(bit_set(mask, i as nat));
            return Err(
                ScheduleError::out_of_range(
                    "The bit mask sets a bit that stands for no calendar value.",
                ),
            );
        }
        i = i + 1;
    }
    Ok(items)
}

/// Whether `mask` sets the bit of `x`; `false` for a value outside the domain.
pub fn contains<T: CalendarFlag>(mask: u32, x: &T) -> (r: bool)
    ensures
        r == (x.valid() && bit_set(mask, x.index())),
{
    match x.bit_index() {
        None => false,
        Some(i) => {
            proof {
                T::lemma_index(*x);
                T::lemma_width();
            }
            mask & (1u32 << i) != 0
        },
    }
}

} // verus!
