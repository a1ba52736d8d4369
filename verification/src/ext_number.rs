//! External subscriber number information element (EN 300 392-2 clause
//! 14.8.21): dialled digits packed four bits each, most significant first.
//! Digits 0-9 are nibbles 0-9, `*` is 10 and `#` is 11; up to 32 digits fit
//! the 128-bit value.

use vstd::prelude::*;
use vstd::string::*;

use crate::cc_bs::CcBsSubentity;

verus! {

/// Most digits an encoded number holds.
pub const MAX_EXT_NUMBER_DIGITS: usize = 32;

/// Type 3 element identifier of the external subscriber number.
pub const EXT_SUBSCRIBER_NUM_ELEM_ID: u64 = 2;

/// A generic type 3 information element: identifier, length in bits, and
/// up to 128 bits of content right-aligned in `data`.
#[derive(Clone, Copy, Debug, PartialEq, Eq, Structural)]
pub struct Type3FieldGeneric {
    pub field_id: u64,
    pub len: usize,
    pub data: u128,
}

/// The nibble that encodes dialled character `c`, if it is encodable.
pub open spec fn nibble_of_char(c: char) -> Option<u8> {
    if c == '0' {
        Some(0u8)
    } else if c == '1' {
        Some(1u8)
    } else if c == '2' {
        Some(2u8)
    } else if c == '3' {
        Some(3u8)
    } else if c == '4' {
        Some(4u8)
    } else if c == '5' {
        Some(5u8)
    } else if c == '6' {
        Some(6u8)
    } else if c == '7' {
        Some(7u8)
    } else if c == '8' {
        Some(8u8)
    } else if c == '9' {
        Some(9u8)
    } else if c == '*' {
        Some(10u8)
    } else if c == '#' {
        Some(11u8)
    } else {
        None
    }
}

/// The character that nibble `n` stands for; nibbles 12-15 stand for none.
pub open spec fn char_of_nibble(n: u8) -> Option<char> {
    if n == 0 {
        Some('0')
    } else if n == 1 {
        Some('1')
    } else if n == 2 {
        Some('2')
    } else if n == 3 {
        Some('3')
    } else if n == 4 {
        Some('4')
    } else if n == 5 {
        Some('5')
    } else if n == 6 {
        Some('6')
    } else if n == 7 {
        Some('7')
    } else if n == 8 {
        Some('8')
    } else if n == 9 {
        Some('9')
    } else if n == 10 {
        Some('*')
    } else if n == 11 {
        Some('#')
    } else {
        None
    }
}

/// The encodable characters of `s`, in order (everything else is ignored).
pub open spec fn dialled_digits(s: Seq<char>) -> Seq<char>
    decreases s.len(),
{
    if s.len() == 0 {
        Seq::empty()
    } else {
        let prev = dialled_digits(s.drop_last());
        if nibble_of_char(s.last()) is Some {
            prev.push(s.last())
        } else {
            prev
        }
    }
}

/// The nibbles of the encodable characters of `s`, in order.
pub open spec fn dialled_nibbles(s: Seq<char>) -> Seq<u8>
    decreases s.len(),
{
    if s.len() == 0 {
        Seq::empty()
    } else {
        let prev = dialled_nibbles(s.drop_last());
        match nibble_of_char(s.last()) {
            Some(n) => prev.push(n),
            None => prev,
        }
    }
}

/// `s` cut to its first 32 entries.
pub open spec fn first_digits<A>(s: Seq<A>) -> Seq<A> {
    if s.len() <= MAX_EXT_NUMBER_DIGITS {
        s
    } else {
        s.take(MAX_EXT_NUMBER_DIGITS as int)
    }
}

/// 16 to the power `k`.
pub open spec fn pow16(k: nat) -> nat
    decreases k,
{
    if k == 0 {
        1
    } else {
        16 * pow16((k - 1) as nat)
    }
}

/// The number whose base-16 digits, most significant first, are `ns`.
pub open spec fn pack_nibbles(ns: Seq<u8>) -> nat
    decreases ns.len(),
{
    if ns.len() == 0 {
        0
    } else {
        (pack_nibbles(ns.drop_last()) * 16 + ns.last()) as nat
    }
}

/// Nibble `i` of the `count` lowest nibbles of `data`, counted from the
/// most significant one.
pub open spec fn nibble_at(data: u128, count: nat, i: int) -> u8 {
    ((data as nat / pow16((count - 1 - i) as nat)) % 16) as u8
}

/// The characters of the first `k` of the `count` lowest nibbles of `data`.
pub open spec fn unpacked_digits(data: u128, count: nat, k: nat) -> Seq<char>
    decreases k,
{
    if k == 0 {
        Seq::empty()
    } else {
        let prev = unpacked_digits(data, count, (k - 1) as nat);
        match char_of_nibble(nibble_at(data, count, k - 1)) {
            Some(c) => prev.push(c),
            None => prev,
        }
    }
}

/// Number of digits that a field of `len` bits holds.
pub open spec fn digit_count(len: usize) -> nat {
    if len / 4 <= MAX_EXT_NUMBER_DIGITS {
        (len / 4) as nat
    } else {
        MAX_EXT_NUMBER_DIGITS as nat
    }
}

/// `String::push`: appends one character to the string.
#[verifier::external_body]
pub(crate) fn string_push(s: &mut String, c: char)
    ensures
        final(s)@ == old(s)@.push(c),
{
    s.push(c)
}

fn nibble_of_char_exec(c: char) -> (r: Option<u8>)
    ensures
        r == nibble_of_char(c),
{
    match c {
        '0' => Some(0),
        '1' => Some(1),
        '2' => Some(2),
        '3' => Some(3),
        '4' => Some(4),
        '5' => Some(5),
        '6' => Some(6),
        '7' => Some(7),
        '8' => Some(8),
        '9' => Some(9),
        '*' => Some(10),
        '#' => Some(11),
        _ => None,
    }
}

fn char_of_nibble_exec(n: u8) -> (r: Option<char>)
    ensures
        r == char_of_nibble(n),
{
    match n {
        0 => Some('0'),
        1 => Some('1'),
        2 => Some('2'),
        3 => Some('3'),
        4 => Some('4'),
        5 => Some('5'),
        6 => Some('6'),
        7 => Some('7'),
        8 => Some('8'),
        9 => Some('9'),
        10 => Some('*'),
        11 => Some('#'),
        _ => None,
    }
}

/// 16^(k+1) is 16 times 16^k.
pub proof fn lemma_pow16_succ(k: nat)
    ensures
        pow16(k + 1) == 16 * pow16(k),
        pow16(k) >= 1,
    decreases k,
{
    if k > 0 {
        lemma_pow16_succ((k - 1) as nat);
    }
}

/// Packing `k` nibbles gives less than 16^k.
pub proof fn lemma_pack_bound(ns: Seq<u8>)
    requires
        forall|i: int| 0 <= i < ns.len() ==> ns[i] < 16,
    ensures
        pack_nibbles(ns) < pow16(ns.len()),
    decreases ns.len(),
{
    if ns.len() > 0 {
        let p = ns.drop_last();
        assert forall|i: int| 0 <= i < p.len() implies p[i] < 16 by {
            assert(p[i] == ns[i]);
        }
        lemma_pack_bound(p);
        lemma_pow16_succ(p.len());
        let h = pack_nibbles(p);
        let q = pow16(p.len());
        assert(ns.last() < 16);
        assert(h * 16 + ns.last() < q * 16) by (nonlinear_arith)
            requires
                h < q,
                ns.last() < 16,
        ;
    }
}


/// Nibble `i` (from the most significant end) of the packed value of `ns` is `ns[i]`.
pub proof fn lemma_nibble_at_pack(ns: Seq<u8>, i: int)
    requires
        forall|j: int| 0 <= j < ns.len() ==> ns[j] < 16,
        0 <= i < ns.len(),
        ns.len() <= 32,
    ensures
        pack_nibbles(ns) < pow16(32),
        nibble_at(pack_nibbles(ns) as u128, ns.len() as nat, i) == ns[i],
    decreases ns.len(),
{
    let n = ns.len();
    let p = ns.drop_last();
    assert forall|j: int| 0 <= j < p.len() implies p[j] < 16 by {
        assert(p[j] == ns[j]);
    }
    lemma_pack_bound(ns);
    lemma_pow16_mono(n as nat, 32);
    let h = pack_nibbles(p);
    let x = pack_nibbles(ns);
    assert(x == h * 16 + ns.last());
    assert(x / 16 == h && x % 16 == ns.last()) by {
        vstd::arithmetic::div_mod::lemma_fundamental_div_mod_converse(x as int, 16, h as int, ns.last() as int);
    }
    assert(pow16(32) == 0x100000000000000000000000000000000) by {
        reveal_with_fuel(pow16, 33);
    }
    assert((x as u128) as nat == x);
    if i == n - 1 {
        assert(pow16(0) == 1);
        assert(x / 1 == x);
    } else {
        lemma_nibble_at_pack(p, i);
        let k = (n - 2 - i) as nat;
        lemma_pack_bound(p);
        lemma_pow16_mono(p.len(), 32);
        assert((h as u128) as nat == h);
        lemma_pow16_succ(k);
        assert(x / pow16(k + 1) == (x / 16) / pow16(k)) by {
            vstd::arithmetic::div_mod::lemma_div_denominator(x as int, 16, pow16(k) as int);
        }
        assert((n - 1 - i) as nat == k + 1);
        assert(((p.len() - 1 - i) as nat) == k);
        assert(p[i] == ns[i]);
    }
}

/// 16^a is at most 16^b when a is at most b.
pub proof fn lemma_pow16_mono(a: nat, b: nat)
    requires
        a <= b,
    ensures
        pow16(a) <= pow16(b),
    decreases b,
{
    if a < b {
        lemma_pow16_mono(a, (b - 1) as nat);
        lemma_pow16_succ((b - 1) as nat);
    }
}

impl CcBsSubentity {
    /// Decodes an external subscriber number: the characters of the
    /// field's lowest `len / 4` nibbles (at most 32), most significant first;
    /// nibbles 12-15 stand for no character.
    pub fn decode_external_subscriber_number(field: &Type3FieldGeneric) -> (r: String)
        ensures
            r@ == unpacked_digits(field.data, digit_count(field.len), digit_count(field.len)),
    {
        let mut digits = String::new();
        if field.len == 0 {
            return digits;
        }
        let nibble_count: usize = if field.len / 4 <= MAX_EXT_NUMBER_DIGITS {
            field.len / 4
        } else {
            MAX_EXT_NUMBER_DIGITS
        };
        let ghost count = digit_count(field.len);
        let mut i: usize = 0;
        while i < nibble_count
            invariant
                0 <= i <= nibble_count,
                nibble_count == count,
                count <= 32,
                digits@ == unpacked_digits(field.data, count, i as nat),
            decreases nibble_count - i,
        {
            let exp = nibble_count - 1 - i;
            let mut p: u128 = 1;
            let mut e: usize = 0;
            while e < exp
                invariant
                    0 <= e <= exp,
                    exp < 32,
                    p == pow16(e as nat),
                decreases exp - e,
            {
                proof {
                    lemma_pow16_succ(e as nat);
                    lemma_pow16_mono((e + 1) as nat, 31);
                    assert(pow16(31) == 0x10000000000000000000000000000000) by {
                        reveal_with_fuel(pow16, 32);
                    }
                }
                p = p * 16;
                e = e + 1;
            }
            proof {
                lemma_pow16_succ(e as nat);
            }
            let nibble = ((field.data / p) % 16) as u8;
            if let Some(c) = char_of_nibble_exec(nibble) {
                string_push(&mut digits, c);
            }
            i = i + 1;
        }
        digits
    }

    /// Encodes the dialled digits of `number` (0-9, `*`, `#`; every other
    /// character is ignored), keeping the first 32; `None` when there is no
    /// digit at all.
    pub fn encode_external_subscriber_number(number: &str) -> (r: Option<Type3FieldGeneric>)
        ensures
            ({
                let ns = first_digits(dialled_nibbles(number@));
                if ns.len() == 0 {
                    r is None
                } else {
                    r == Some(
                        Type3FieldGeneric {
                            field_id: EXT_SUBSCRIBER_NUM_ELEM_ID,
                            len: (ns.len() * 4) as usize,
                            data: pack_nibbles(ns) as u128,
                        },
                    )
                }
            }),
    {
        let n = number.unicode_len();
        proof {
            assert(number@.take(n as int) =~= number@);
        }
        let mut nibbles: Vec<u8> = Vec::new();
        let mut i: usize = 0;
        while i < n
            invariant
                0 <= i <= n,
                n == number@.len(),
                number@.take(n as int) == number@,
                nibbles@ == first_digits(dialled_nibbles(number@.take(i as int))),
                forall|j: int| 0 <= j < nibbles@.len() ==> nibbles@[j] < 16,
            ensures
                nibbles@ == first_digits(dialled_nibbles(number@)),
                forall|j: int| 0 <= j < nibbles@.len() ==> nibbles@[j] < 16,
            decreases n - i,
        {
            let c = number.get_char(i);
            proof {
                assert(number@.take(i as int + 1).drop_last() =~= number@.take(i as int));
                assert(number@.take(i as int + 1).last() == c);
            }
            match nibble_of_char_exec(c) {
                Some(nibble) => {
                    let ghost prev = dialled_nibbles(number@.take(i as int));
                    proof {
                        if prev.len() >= MAX_EXT_NUMBER_DIGITS {
                            assert(prev.push(nibble).take(32) =~= prev.take(32));
                        }
                    }
                    if nibbles.len() == MAX_EXT_NUMBER_DIGITS {
                        proof {
                            assert(prev.len() >= 32);
                            assert(dialled_nibbles(number@.take(i as int + 1)) == prev.push(nibble));
                            lemma_first_digits_stays(number@, i as int + 1, n as int);
                            assert(number@.take(n as int) =~= number@);
                        }
                        break;
                    }
                    nibbles.push(nibble);
                },
                None => {},
            }
            i = i + 1;
            proof {
                if i == n {
                    assert(number@.take(n as int) =~= number@);
                }
            }
        }
        if nibbles.len() == 0 {
            return None;
        }
        let len_bits = nibbles.len() * 4;
        let mut data: u128 = 0;
        let mut k: usize = 0;
        while k < nibbles.len()
            invariant
                0 <= k <= nibbles@.len(),
                nibbles@.len() <= 32,
                forall|j: int| 0 <= j < nibbles@.len() ==> nibbles@[j] < 16,
                data == pack_nibbles(nibbles@.take(k as int)),
            decreases nibbles@.len() - k,
        {
            proof {
                lemma_pack_step(nibbles@, k as int);
            }
            data = data * 16 + nibbles[k] as u128;
            k = k + 1;
        }
        proof {
            assert(nibbles@.take(nibbles@.len() as int) =~= nibbles@);
        }
        Some(Type3FieldGeneric { field_id: EXT_SUBSCRIBER_NUM_ELEM_ID, len: len_bits, data })
    }
}

/// Appending nibble `k` of `ns` to the packed first `k` nibbles gives the
/// packed first `k + 1`, which still fits in 128 bits.
proof fn lemma_pack_step(ns: Seq<u8>, k: int)
    requires
        0 <= k < ns.len(),
        ns.len() <= 32,
        forall|j: int| 0 <= j < ns.len() ==> ns[j] < 16,
    ensures
        pack_nibbles(ns.take(k + 1)) == pack_nibbles(ns.take(k)) * 16 + ns[k],
        pack_nibbles(ns.take(k + 1)) < 0x100000000000000000000000000000000,
{
    let t = ns.take(k + 1);
    assert(t.drop_last() =~= ns.take(k));
    assert(forall|j: int| 0 <= j < t.len() ==> t[j] == ns[j]);
    lemma_pack_bound(t);
    lemma_pow16_mono(t.len(), 32);
    assert(pow16(32) == 0x100000000000000000000000000000000) by {
        reveal_with_fuel(pow16, 33);
    }
}

/// Once 32 digits have been collected, further characters do not change the
/// first 32.
pub proof fn lemma_first_digits_stays(s: Seq<char>, a: int, b: int)
    requires
        0 <= a <= b <= s.len(),
        dialled_nibbles(s.take(a)).len() > MAX_EXT_NUMBER_DIGITS,
    ensures
        first_digits(dialled_nibbles(s.take(b))) == first_digits(dialled_nibbles(s.take(a))),
    decreases b - a,
{
    if a < b {
        lemma_first_digits_stays(s, a, b - 1);
        let t = s.take(b);
        assert(t.drop_last() =~= s.take(b - 1));
        lemma_dialled_nibbles_len_mono(s, a, b - 1);
        let prev = dialled_nibbles(s.take(b - 1));
        match nibble_of_char(t.last()) {
            Some(n) => {
                assert(prev.push(n).take(32) =~= prev.take(32));
            },
            None => {},
        }
    }
}

/// Reading more characters never shortens the digit list.
pub proof fn lemma_dialled_nibbles_len_mono(s: Seq<char>, a: int, b: int)
    requires
        0 <= a <= b <= s.len(),
    ensures
        dialled_nibbles(s.take(a)).len() <= dialled_nibbles(s.take(b)).len(),
    decreases b - a,
{
    if a < b {
        lemma_dialled_nibbles_len_mono(s, a, b - 1);
        assert(s.take(b).drop_last() =~= s.take(b - 1));
    }
}


/// The characters that the nibbles `ns` stand for.
pub open spec fn nibble_chars(ns: Seq<u8>) -> Seq<char> {
    Seq::new(ns.len(), |j: int| char_of_nibble(ns[j])->0)
}

/// The dialled characters are the characters of the dialled nibbles, and
/// every dialled nibble is a digit, `*` or `#`.
pub proof fn lemma_dialled_digits_nibbles(s: Seq<char>)
    ensures
        dialled_digits(s) == nibble_chars(dialled_nibbles(s)),
        forall|j: int| 0 <= j < dialled_nibbles(s).len() ==> #[trigger] dialled_nibbles(s)[j] <= 11,
    decreases s.len(),
{
    if s.len() > 0 {
        lemma_dialled_digits_nibbles(s.drop_last());
        let c = s.last();
        match nibble_of_char(c) {
            Some(n) => {
                assert(char_of_nibble(n) == Some(c));
                assert(dialled_digits(s) =~= nibble_chars(dialled_nibbles(s)));
                let d = dialled_nibbles(s);
                assert forall|j: int| 0 <= j < d.len() implies #[trigger] d[j] <= 11 by {
                    if j < d.len() - 1 {
                        assert(d[j] == dialled_nibbles(s.drop_last())[j]);
                    }
                }
            },
            None => {},
        }
    } else {
        assert(dialled_digits(s) =~= nibble_chars(dialled_nibbles(s)));
    }
}

/// Unpacking the first `k` nibbles of a packed digit list gives back the
/// first `k` characters.
pub proof fn lemma_unpack_pack(ns: Seq<u8>, k: nat)
    requires
        forall|j: int| 0 <= j < ns.len() ==> #[trigger] ns[j] <= 11,
        ns.len() <= 32,
        k <= ns.len(),
    ensures
        unpacked_digits(pack_nibbles(ns) as u128, ns.len() as nat, k) == nibble_chars(ns).take(k as int),
    decreases k,
{
    if k > 0 {
        lemma_unpack_pack(ns, (k - 1) as nat);
        assert forall|j: int| 0 <= j < ns.len() implies ns[j] < 16 by {
            assert(ns[j] <= 11);
        }
        lemma_nibble_at_pack(ns, k - 1);
        assert(ns[k - 1] <= 11);
        assert(nibble_chars(ns).take(k as int) =~= nibble_chars(ns).take(k - 1).push(
            char_of_nibble(ns[k - 1])->0,
        ));
    } else {
        assert(nibble_chars(ns).take(0) =~= Seq::<char>::empty());
    }
}

/// The dialling code of EN 300 392-2 clause 14.8.21: a decimal digit is
/// coded as its value, `*` as 10 and `#` as 11; no other character has a
/// code, and each of these nibbles decodes to the character it codes.
pub proof fn lemma_dial_code_table(c: char, n: u8)
    ensures
        nibble_of_char(c) == Some(n) <==> ((n <= 9 && c as u32 == '0' as u32 + n) || (n == 10 && c == '*') || (n
            == 11 && c == '#')),
        char_of_nibble(n) == Some(c) <==> ((n <= 9 && c as u32 == '0' as u32 + n) || (n == 10 && c == '*') || (n
            == 11 && c == '#')),
        nibble_of_char(c) is None <==> !('0' <= c <= '9' || c == '*' || c == '#'),
{
}

/// Decoding an encoded number gives back its dialled digits (0-9, `*`,
/// `#`, in order, other characters dropped), cut to the first 32.
pub proof fn lemma_ext_number_round_trip(s: Seq<char>)
    requires
        first_digits(dialled_nibbles(s)).len() > 0,
    ensures
        ({
            let ns = first_digits(dialled_nibbles(s));
            let len = (ns.len() * 4) as usize;
            unpacked_digits(pack_nibbles(ns) as u128, digit_count(len), digit_count(len)) == first_digits(
                dialled_digits(s),
            )
        }),
{
    lemma_dialled_digits_nibbles(s);
    let d = dialled_nibbles(s);
    let ns = first_digits(d);
    assert forall|j: int| 0 <= j < ns.len() implies #[trigger] ns[j] <= 11 by {
        assert(ns[j] == d[j]);
    }
    let len = (ns.len() * 4) as usize;
    assert(digit_count(len) == ns.len());
    lemma_unpack_pack(ns, ns.len() as nat);
    assert(nibble_chars(ns).take(ns.len() as int) =~= nibble_chars(ns));
    assert(nibble_chars(ns) =~= first_digits(nibble_chars(d)));
}

/// The decimal numeral of `n`, most significant digit first.
pub open spec fn decimal_string(n: nat) -> Seq<char>
    decreases n,
{
    if n < 10 {
        seq![char_of_nibble(n as u8)->0]
    } else {
        decimal_string(n / 10).push(char_of_nibble((n % 10) as u8)->0)
    }
}

/// The decimal numeral of `n`.
pub fn decimal_string_of(n: u32) -> (r: String)
    ensures
        r@ == decimal_string(n as nat),
    decreases n,
{
    if n < 10 {
        let mut s = String::new();
        let c = match char_of_nibble_exec(n as u8) {
            Some(c) => c,
            None => '0',
        };
        string_push(&mut s, c);
        proof {
            assert(s@ =~= seq![char_of_nibble(n as u8)->0]);
        }
        s
    } else {
        let mut s = decimal_string_of(n / 10);
        let c = match char_of_nibble_exec((n % 10) as u8) {
            Some(c) => c,
            None => '0',
        };
        string_push(&mut s, c);
        s
    }
}

} // verus!
