//! Room codes: short rendezvous tokens of the shape `U/SSSS-SSSS-SSSS-SSSS`
//! that encode a 64-bit seed over a 32-symbol alphabet, most significant
//! 5-bit group first.
//!
//! Codes are generated from a fresh random seed and checked for shape only.
//! No decoder is offered. None is needed to join a room, and
//! [`lemma_room_code_determines_seed`] shows that one could be written: a
//! code determines its seed.

use crate::error::Error;
use rand::Rng;
use vstd::arithmetic::div_mod::{lemma_basic_div, lemma_div_denominator};
use vstd::prelude::*;

verus! {

/// `String::push` appends one character to the end of the string.
pub assume_specification[ String::push ](s: &mut String, ch: char)
    ensures
        final(s)@ == old(s)@.push(ch),
;

/// Draws 64 bits from the thread-local generator of `rand` with
/// `rand::thread_rng().gen()`. Nothing is claimed of the value: every `u64`
/// may come back, and two calls may differ.
#[verifier::external_body]
fn random_seed() -> (seed: u64) {
    rand::thread_rng().gen()
}

/// Number of symbols in an encoded seed.
pub const SYMBOLS: usize = 16;

/// Number of `-`-separated parts in a room code.
pub const SEGMENTS: usize = 4;

/// Number of characters in the shortest text with the shape of a room code:
/// the prefix, 16 symbols and three separators.
const SHORTEST: u8 = 21;

/// The 32 symbols, in the order of the values they stand for.
pub open spec fn alphabet() -> Seq<char> {
    "ABCDEFGHIJKLMNOPQRSTUVWXYZ234567"@
}

/// 32 to the power `e`.
pub open spec fn pow32(e: nat) -> nat
    decreases e,
{
    if e == 0 {
        1
    } else {
        32 * pow32((e - 1) as nat)
    }
}

/// The 5-bit group of `seed` at `index`, where group 0 is the most
/// significant of the 16 and group 15 holds the lowest five bits.
pub open spec fn group(seed: u64, index: int) -> int {
    (seed as int / pow32((15 - index) as nat) as int) % 32
}

/// The 16 symbols that encode `seed`, most significant group first.
pub open spec fn encode_spec(seed: u64) -> Seq<char> {
    Seq::new(SYMBOLS as nat, |i: int| alphabet()[group(seed, i)])
}

/// The room code of `seed`: `U/`, then the 16 symbols in four groups of four
/// joined by `-`.
pub open spec fn room_code_spec(seed: u64) -> Seq<char> {
    let e = encode_spec(seed);
    seq!['U', '/'] + e.subrange(0, 4) + seq!['-'] + e.subrange(4, 8) + seq!['-'] + e.subrange(
        8,
        12,
    ) + seq!['-'] + e.subrange(12, 16)
}

/// True if `code` begins with `U/`.
pub open spec fn has_prefix(code: Seq<char>) -> bool {
    code.len() >= 2 && code[0] == 'U' && code[1] == '/'
}

/// The parts of `s` between the occurrences of `sep`. There is always at
/// least one part, and a part may be empty.
pub open spec fn split_on(s: Seq<char>, sep: char) -> Seq<Seq<char>>
    decreases s.len(),
{
    if s.len() == 0 {
        seq![Seq::<char>::empty()]
    } else {
        let before = split_on(s.drop_last(), sep);
        if s.last() == sep {
            before.push(Seq::<char>::empty())
        } else {
            before.update(before.len() - 1, before.last().push(s.last()))
        }
    }
}

/// The symbols of a code with four parts: the first part without its two
/// prefix characters, followed by the other three.
pub open spec fn combined(parts: Seq<Seq<char>>) -> Seq<char> {
    parts[0].skip(2) + parts[1] + parts[2] + parts[3]
}

/// The shape check of a room code. It looks neither at the alphabet nor at
/// the length of a single part.
pub open spec fn validate_spec(code: Seq<char>) -> Result<(), Error> {
    let parts = split_on(code, '-');
    if !has_prefix(code) {
        Err(Error::Prefix)
    } else if parts.len() != SEGMENTS {
        Err(Error::SegmentCount)
    } else if combined(parts).len() < SYMBOLS {
        Err(Error::Length)
    } else {
        Ok(())
    }
}

/// The sum of the lengths of `parts`.
pub open spec fn total_len(parts: Seq<Seq<char>>) -> nat
    decreases parts.len(),
{
    if parts.len() == 0 {
        0
    } else {
        total_len(parts.drop_last()) + parts.last().len()
    }
}

/// The character code of each symbol: the letters from `A` on for the
/// values below 26, the digits from `2` on for the rest.
proof fn lemma_symbol_code(v: int)
    requires
        0 <= v < 32,
    ensures
        alphabet().len() == 32,
        alphabet()[v] == (if v < 26 {
            65 + v
        } else {
            24 + v
        }) as u8 as char,
{
    reveal_strlit("ABCDEFGHIJKLMNOPQRSTUVWXYZ234567");
}

/// The symbol that stands for `value`.
fn symbol_of(value: u8) -> (c: char)
    requires
        value < 32,
    ensures
        c == alphabet()[value as int],
{
    proof {
        lemma_symbol_code(value as int);
    }
    if value < 26 {
        (65u8 + value) as char
    } else {
        (24u8 + value) as char
    }
}

/// The 16 symbols of `num`, most significant group first.
fn encode_symbols(num: u64) -> (symbols: Vec<char>)
    ensures
        symbols@ == encode_spec(num),
{
    let mut low_first: Vec<char> = Vec::new();
    let mut n: u64 = num;
    let mut k: usize = 0;
    assert(pow32(0) == 1);
    while k < SYMBOLS
        invariant
            k <= 16,
            low_first@.len() == k,
            n as int == num as int / pow32(k as nat) as int,
            forall|j: int| 0 <= j < k ==> low_first@[j] == alphabet()[group(num, 15 - j)],
        decreases 16 - k,
    {
        proof {
            assert(n & 0x1f == n % 32) by (bit_vector);
        }
        let value: u8 = (n & 0x1f) as u8;
        proof {
            assert(n >> 5 == n / 32) by (bit_vector);
            lemma_pow32_positive(k as nat);
            lemma_div_denominator(num as int, pow32(k as nat) as int, 32);
            assert(pow32((k + 1) as nat) == 32 * pow32(k as nat));
            assert(group(num, 15 - k) == value as int);
        }
        low_first.push(symbol_of(value));
        n = n >> 5;
        k = k + 1;
    }
    let mut symbols: Vec<char> = Vec::new();
    let mut left: usize = SYMBOLS;
    while left > 0
        invariant
            left <= 16,
            low_first@.len() == 16,
            symbols@.len() == 16 - left,
            forall|j: int| 0 <= j < 16 ==> low_first@[j] == alphabet()[group(num, 15 - j)],
            forall|i: int| 0 <= i < 16 - left ==> symbols@[i] == alphabet()[group(num, i)],
        decreases left,
    {
        left = left - 1;
        symbols.push(low_first[left]);
    }
    assert(symbols@ =~= encode_spec(num));
    symbols
}

/// Appends `symbols[from..from + count]` to `text`.
fn push_symbols(text: &mut String, symbols: &Vec<char>, from: usize, count: usize)
    requires
        from + count <= symbols.len(),
    ensures
        final(text)@ == old(text)@ + symbols@.subrange(from as int, from + count),
{
    let mut i: usize = 0;
    while i < count
        invariant
            i <= count,
            from + count <= symbols.len(),
            text@ == old(text)@ + symbols@.subrange(from as int, from + i),
        decreases count - i,
    {
        text.push(symbols[from + i]);
        i = i + 1;
        assert(text@ =~= old(text)@ + symbols@.subrange(from as int, from + i));
    }
}

/// Encodes `num` into 16 symbols of the alphabet, most significant 5-bit
/// group first. The result depends on `num` alone.
pub fn base32_encode(num: u64) -> (encoded: String)
    ensures
        encoded@ == encode_spec(num),
{
    let symbols = encode_symbols(num);
    let mut encoded = String::new();
    push_symbols(&mut encoded, &symbols, 0, SYMBOLS);
    assert(encoded@ =~= encode_spec(num));
    encoded
}

/// The room code of `seed`: `U/` and the 16 symbols of the seed in four
/// groups of four joined by `-`. The result depends on `seed` alone.
pub fn room_code_from_seed(seed: u64) -> (code: String)
    ensures
        code@ == room_code_spec(seed),
{
    let symbols = encode_symbols(seed);
    let mut code = String::new();
    code.push('U');
    code.push('/');
    push_symbols(&mut code, &symbols, 0, 4);
    code.push('-');
    push_symbols(&mut code, &symbols, 4, 4);
    code.push('-');
    push_symbols(&mut code, &symbols, 8, 4);
    code.push('-');
    push_symbols(&mut code, &symbols, 12, 4);
    assert(code@ =~= room_code_spec(seed));
    code
}

/// Generates the room code of a fresh random seed.
///
/// The name hint must be present, but takes no part in the code: the seed is
/// drawn from a non-deterministic source and nothing else enters the result.
/// No registry of codes is kept, so two calls may give the same code.
pub fn create_room(room_name: Option<&str>) -> (r: Result<String, Error>)
    ensures
        room_name is None ==> r == Err::<String, Error>(Error::NullRoomName),
        room_name is Some ==> r is Ok && exists|seed: u64|
            r->Ok_0@ == #[trigger] room_code_spec(seed),
{
    match room_name {
        None => Err(Error::NullRoomName),
        Some(_) => {
            let seed = random_seed();
            Ok(room_code_from_seed(seed))
        },
    }
}

/// `n`, or `cap` if `n` is larger.
spec fn capped(n: int, cap: int) -> int {
    if n < cap {
        n
    } else {
        cap
    }
}

/// What the first `read` characters of `code` allow of its prefix.
spec fn prefix_so_far(code: Seq<char>, read: int) -> bool {
    (read >= 1 ==> code[0] == 'U') && (read >= 2 ==> code[1] == '/')
}

/// Checks the shape of a room code: the prefix `U/`, four parts between
/// `-`, and at least 16 characters in the parts once the prefix is taken
/// off the first. The seed is not decoded and the alphabet is not checked.
pub fn validate_format(code: &str) -> (r: Result<(), Error>)
    ensures
        r == validate_spec(code@),
{
    // One pass over the characters. Both counters stop one past the value
    // that the decision needs, so neither can overflow.
    let mut seen: u8 = 0;
    let mut parts: u8 = 1;
    let mut prefix_ok: bool = true;
    proof {
        assert(code@.take(0) =~= Seq::<char>::empty());
    }
    for c in it: code.chars()
        invariant
            it.seq() == code@,
            seen == capped(it.index() as int, SHORTEST as int),
            parts == capped(split_on(code@.take(it.index() as int), '-').len() as int, 5),
            prefix_ok == prefix_so_far(code@, it.index() as int),
    {
        proof {
            let i = it.index() as int;
            assert(c == code@[i]);
            assert(code@.take(i + 1).drop_last() =~= code@.take(i));
            assert(code@.take(i + 1).last() == c);
            lemma_split_shape(code@.take(i), '-');
        }
        if seen == 0 && c != 'U' {
            prefix_ok = false;
        }
        if seen == 1 && c != '/' {
            prefix_ok = false;
        }
        if c == '-' && parts < 5 {
            parts = parts + 1;
        }
        if seen < SHORTEST {
            seen = seen + 1;
        }
    }
    proof {
        assert(code@.take(code@.len() as int) =~= code@);
        lemma_split_shape(code@, '-');
        if has_prefix(code@) {
            lemma_first_part(code@, '-');
            if split_on(code@, '-').len() == 4 {
                lemma_total_len_of_four(split_on(code@, '-'));
            }
        }
    }
    if !(seen >= 2 && prefix_ok) {
        Err(Error::Prefix)
    } else if parts != 4 {
        Err(Error::SegmentCount)
    } else if seen < SHORTEST {
        Err(Error::Length)
    } else {
        Ok(())
    }
}

/// Checks that a room code is present and has the shape of one.
pub fn join_room(room_code: Option<&str>) -> (r: Result<(), Error>)
    ensures
        r == match room_code {
            None => Err::<(), Error>(Error::NullRoomCode),
            Some(code) => validate_spec(code@),
        },
{
    match room_code {
        None => Err(Error::NullRoomCode),
        Some(code) => validate_format(code),
    }
}

/// Splitting gives one part more than there are separators, and the parts
/// hold every other character.
pub proof fn lemma_split_shape(s: Seq<char>, sep: char)
    ensures
        split_on(s, sep).len() >= 1,
        total_len(split_on(s, sep)) + split_on(s, sep).len() - 1 == s.len(),
    decreases s.len(),
{
    if s.len() == 0 {
        let parts = split_on(s, sep);
        assert(parts.drop_last() =~= Seq::<Seq<char>>::empty());
        assert(total_len(parts.drop_last()) == 0);
    } else {
        lemma_split_shape(s.drop_last(), sep);
        let before = split_on(s.drop_last(), sep);
        let parts = split_on(s, sep);
        if s.last() == sep {
            assert(parts.drop_last() =~= before);
        } else {
            assert(parts.drop_last() =~= before.drop_last());
        }
    }
}

/// A text whose first two characters are no separators keeps them in its
/// first part.
proof fn lemma_first_part(s: Seq<char>, sep: char)
    requires
        s.len() >= 2,
        s[0] != sep,
        s[1] != sep,
    ensures
        split_on(s, sep).len() >= 1,
        split_on(s, sep)[0].len() >= 2,
    decreases s.len(),
{
    lemma_split_shape(s, sep);
    if s.len() == 2 {
        let one = s.drop_last();
        assert(one.drop_last().len() == 0);
        assert(split_on(one.drop_last(), sep) =~= seq![Seq::<char>::empty()]);
        assert(split_on(one, sep).len() == 1);
        assert(split_on(one, sep)[0].len() == 1);
        assert(split_on(s, sep)[0].len() == 2);
    } else {
        lemma_first_part(s.drop_last(), sep);
        lemma_split_shape(s.drop_last(), sep);
    }
}

proof fn lemma_total_len_of_four(parts: Seq<Seq<char>>)
    requires
        parts.len() == 4,
    ensures
        total_len(parts) == parts[0].len() + parts[1].len() + parts[2].len() + parts[3].len(),
{
    let three = parts.drop_last();
    let two = three.drop_last();
    let one = two.drop_last();
    assert(one.drop_last().len() == 0);
    assert(total_len(one.drop_last()) == 0);
    assert(total_len(one) == parts[0].len());
    assert(total_len(two) == total_len(one) + parts[1].len());
    assert(total_len(three) == total_len(two) + parts[2].len());
}

/// No symbol of the alphabet is the separator `-`, and two values have the
/// same symbol only if they are equal.
pub proof fn lemma_alphabet_symbols()
    ensures
        alphabet().len() == 32,
        forall|v: int| 0 <= v < 32 ==> #[trigger] alphabet()[v] != '-',
        forall|u: int, v: int|
            0 <= u < 32 && 0 <= v < 32 && #[trigger] alphabet()[u] == #[trigger] alphabet()[v]
                ==> u == v,
{
    lemma_symbol_code(0);
    assert forall|v: int| 0 <= v < 32 implies #[trigger] alphabet()[v] != '-' by {
        lemma_symbol_code(v);
    }
    assert forall|u: int, v: int|
        0 <= u < 32 && 0 <= v < 32 && #[trigger] alphabet()[u] == #[trigger] alphabet()[v]
            implies u == v by {
        lemma_symbol_code(u);
        lemma_symbol_code(v);
    }
}

/// Every group of a seed is a value of the alphabet.
proof fn lemma_group_range(seed: u64, index: int)
    ensures
        0 <= group(seed, index) < 32,
{
    lemma_pow32_positive((15 - index) as nat);
}

/// Appending characters that are no separators adds no part.
proof fn lemma_split_plain(s: Seq<char>, t: Seq<char>, sep: char)
    requires
        forall|i: int| 0 <= i < t.len() ==> t[i] != sep,
    ensures
        split_on(s + t, sep).len() == split_on(s, sep).len(),
    decreases t.len(),
{
    if t.len() == 0 {
        assert(s + t =~= s);
    } else {
        lemma_split_plain(s, t.drop_last(), sep);
        lemma_split_shape(s + t.drop_last(), sep);
        assert((s + t).drop_last() =~= s + t.drop_last());
        assert((s + t).last() == t.last());
    }
}

/// Appending a separator adds one part.
proof fn lemma_split_separator(s: Seq<char>, sep: char)
    ensures
        split_on(s + seq![sep], sep).len() == split_on(s, sep).len() + 1,
{
    assert((s + seq![sep]).drop_last() =~= s);
    assert((s + seq![sep]).last() == sep);
}

/// Every generated code passes the shape check, whatever its seed.
pub proof fn lemma_generated_code_is_valid(seed: u64)
    ensures
        room_code_spec(seed).len() == 21,
        validate_spec(room_code_spec(seed)) == Ok::<(), Error>(()),
{
    let e = encode_spec(seed);
    lemma_alphabet_symbols();
    assert forall|i: int| 0 <= i < 16 implies e[i] != '-' by {
        lemma_group_range(seed, i);
    }
    let dash = seq!['-'];
    let c0 = seq!['U', '/'];
    let c1 = c0 + e.subrange(0, 4);
    let c2 = c1 + dash;
    let c3 = c2 + e.subrange(4, 8);
    let c4 = c3 + dash;
    let c5 = c4 + e.subrange(8, 12);
    let c6 = c5 + dash;
    let code = c6 + e.subrange(12, 16);
    assert(code == room_code_spec(seed));
    assert(Seq::<char>::empty() + c0 =~= c0);
    lemma_split_plain(Seq::<char>::empty(), c0, '-');
    lemma_split_plain(c0, e.subrange(0, 4), '-');
    lemma_split_separator(c1, '-');
    lemma_split_plain(c2, e.subrange(4, 8), '-');
    lemma_split_separator(c3, '-');
    lemma_split_plain(c4, e.subrange(8, 12), '-');
    lemma_split_separator(c5, '-');
    lemma_split_plain(c6, e.subrange(12, 16), '-');
    assert(split_on(code, '-').len() == 4);
    assert(code[0] == 'U' && code[1] == '/');
    lemma_split_shape(code, '-');
    lemma_first_part(code, '-');
    lemma_total_len_of_four(split_on(code, '-'));
}

/// Two seeds whose groups agree down to group `15 - k` agree above their
/// lowest `5 * k` bits.
proof fn lemma_quotients_agree(a: u64, b: u64, k: nat)
    requires
        k <= 16,
        forall|i: int| 0 <= i < 16 ==> group(a, i) == group(b, i),
    ensures
        a as int / pow32(k) as int == b as int / pow32(k) as int,
    decreases 16 - k,
{
    lemma_pow32_positive(k);
    if k == 16 {
        assert(pow32(16) == 0x1_0000_0000_0000_0000_0000) by {
            reveal_with_fuel(pow32, 17);
        }
        lemma_basic_div(a as int, pow32(16) as int);
        lemma_basic_div(b as int, pow32(16) as int);
    } else {
        lemma_quotients_agree(a, b, k + 1);
        assert(pow32(k + 1) == 32 * pow32(k));
        lemma_div_denominator(a as int, pow32(k) as int, 32);
        lemma_div_denominator(b as int, pow32(k) as int, 32);
        assert(group(a, 15 - k) == group(b, 15 - k));
    }
}

/// A code determines its seed: two seeds with the same 16 symbols are equal.
pub proof fn lemma_encoding_is_injective(a: u64, b: u64)
    requires
        encode_spec(a) == encode_spec(b),
    ensures
        a == b,
{
    lemma_alphabet_symbols();
    assert forall|i: int| 0 <= i < 16 implies group(a, i) == group(b, i) by {
        lemma_group_range(a, i);
        lemma_group_range(b, i);
        assert(encode_spec(a)[i] == alphabet()[group(a, i)]);
        assert(encode_spec(b)[i] == alphabet()[group(b, i)]);
    }
    lemma_quotients_agree(a, b, 0);
    assert(pow32(0) == 1);
}

/// A room code determines its seed: two seeds with the same code are equal.
pub proof fn lemma_room_code_determines_seed(a: u64, b: u64)
    requires
        room_code_spec(a) == room_code_spec(b),
    ensures
        a == b,
{
    let place = |i: int| 2 + i + i / 4;
    assert forall|i: int| 0 <= i < 16 implies encode_spec(a)[i] == encode_spec(b)[i] by {
        assert(room_code_spec(a)[place(i)] == encode_spec(a)[i]);
        assert(room_code_spec(b)[place(i)] == encode_spec(b)[i]);
    }
    assert(encode_spec(a) =~= encode_spec(b));
    lemma_encoding_is_injective(a, b);
}

proof fn lemma_pow32_positive(e: nat)
    ensures
        pow32(e) > 0,
    decreases e,
{
    if e > 0 {
        lemma_pow32_positive((e - 1) as nat);
    }
}

} // verus!
