use vstd::prelude::*;

verus! {

/// The lowercase hexadecimal digit (or decimal digit) for a value below 16.
pub open spec fn digit_char(d: int) -> char {
    if d == 0 {
        '0'
    } else if d == 1 {
        '1'
    } else if d == 2 {
        '2'
    } else if d == 3 {
        '3'
    } else if d == 4 {
        '4'
    } else if d == 5 {
        '5'
    } else if d == 6 {
        '6'
    } else if d == 7 {
        '7'
    } else if d == 8 {
        '8'
    } else if d == 9 {
        '9'
    } else if d == 10 {
        'a'
    } else if d == 11 {
        'b'
    } else if d == 12 {
        'c'
    } else if d == 13 {
        'd'
    } else if d == 14 {
        'e'
    } else {
        'f'
    }
}

/// The decimal notation of a number, without leading zeros.
pub open spec fn decimal_spec(x: nat) -> Seq<char>
    decreases x,
{
    if x < 10 {
        seq![digit_char(x as int)]
    } else {
        decimal_spec(x / 10).push(digit_char((x % 10) as int))
    }
}

/// The lowest `width` hexadecimal digits of a number, most significant first.
pub open spec fn hex_spec(x: nat, width: nat) -> Seq<char>
    decreases width,
{
    if width == 0 {
        seq![]
    } else {
        hex_spec(x / 16, (width - 1) as nat).push(digit_char((x % 16) as int))
    }
}

/// The hexadecimal digits of a number, zero-padded to at least `width` digits.
pub open spec fn hex_at_least_spec(x: nat, width: nat) -> Seq<char>
    decreases x, width,
{
    if x < 16 && width <= 1 {
        seq![digit_char(x as int)]
    } else {
        hex_at_least_spec(
            x / 16,
            if width > 0 {
                (width - 1) as nat
            } else {
                0nat
            },
        ).push(digit_char((x % 16) as int))
    }
}

/// One step of the 64-bit FNV-1a hash.
pub open spec fn fnv_step(hash: u64, byte: u8) -> u64 {
    (hash ^ (byte as u64)).wrapping_mul(0x0000_0100_0000_01b3u64)
}

/// The FNV-1a hash of `bytes`, continued from `hash`.
pub open spec fn fnv_fold(hash: u64, bytes: Seq<u8>) -> u64
    decreases bytes.len(),
{
    if bytes.len() == 0 {
        hash
    } else {
        fnv_fold(fnv_step(hash, bytes[0]), bytes.drop_first())
    }
}

/// The 64-bit FNV-1a hash of `bytes`.
pub open spec fn fnv1a(bytes: Seq<u8>) -> u64 {
    fnv_fold(0xcbf2_9ce4_8422_2325u64, bytes)
}

/// The digit character for a value below 16.
pub fn digit(d: u64) -> (c: char)
    requires
        d < 16,
    ensures
        c == digit_char(d as int),
{
    match d {
        0 => '0',
        1 => '1',
        2 => '2',
        3 => '3',
        4 => '4',
        5 => '5',
        6 => '6',
        7 => '7',
        8 => '8',
        9 => '9',
        10 => 'a',
        11 => 'b',
        12 => 'c',
        13 => 'd',
        14 => 'e',
        _ => 'f',
    }
}

/// The decimal notation of a number.
pub fn decimal(x: u64) -> (text: Vec<char>)
    ensures
        text@ == decimal_spec(x as nat),
    decreases x,
{
    if x < 10 {
        let mut text = Vec::new();
        text.push(digit(x));
        text
    } else {
        let mut text = decimal(x / 10);
        text.push(digit(x % 10));
        text
    }
}

/// The lowest `width` hexadecimal digits of a number, zero-padded.
pub fn hex(x: u64, width: usize) -> (text: Vec<char>)
    ensures
        text@ == hex_spec(x as nat, width as nat),
    decreases width,
{
    if width == 0 {
        Vec::new()
    } else {
        let mut text = hex(x / 16, width - 1);
        text.push(digit(x % 16));
        text
    }
}

/// The hexadecimal notation of a number, zero-padded to at least `width` digits.
pub fn hex_at_least(x: u64, width: usize) -> (text: Vec<char>)
    ensures
        text@ == hex_at_least_spec(x as nat, width as nat),
    decreases x, width,
{
    if x < 16 && width <= 1 {
        let mut text = Vec::new();
        text.push(digit(x));
        text
    } else {
        let rest = if width > 0 {
            width - 1
        } else {
            0
        };
        let mut text = hex_at_least(x / 16, rest);
        text.push(digit(x % 16));
        text
    }
}

/// The decimal notation of a wide number.
pub fn decimal_wide(x: u128) -> (text: Vec<char>)
    ensures
        text@ == decimal_spec(x as nat),
    decreases x,
{
    if x < 10 {
        let mut text = Vec::new();
        text.push(digit(x as u64));
        text
    } else {
        let mut text = decimal_wide(x / 10);
        text.push(digit((x % 10) as u64));
        text
    }
}

/// Hashing two byte runs one after the other is hashing their concatenation.
pub proof fn lemma_fnv_fold_concat(hash: u64, a: Seq<u8>, b: Seq<u8>)
    ensures
        fnv_fold(fnv_fold(hash, a), b) == fnv_fold(hash, a + b),
    decreases a.len(),
{
    if a.len() > 0 {
        assert((a + b).drop_first() =~= a.drop_first() + b);
        lemma_fnv_fold_concat(fnv_step(hash, a[0]), a.drop_first(), b);
    } else {
        assert(a + b =~= b);
    }
}

/// Continues an FNV-1a hash over more bytes.
pub fn fnv_continue(hash: u64, bytes: &[u8]) -> (result: u64)
    ensures
        result == fnv_fold(hash, bytes@),
{
    let mut h = hash;
    let mut i: usize = 0;
    assert(bytes@.skip(0) =~= bytes@);
    while i < bytes.len()
        invariant
            i <= bytes@.len(),
            fnv_fold(h, bytes@.skip(i as int)) == fnv_fold(hash, bytes@),
        decreases bytes@.len() - i,
    {
        assert(bytes@.skip(i as int).drop_first() =~= bytes@.skip(i + 1));
        h = (h ^ (bytes[i] as u64)).wrapping_mul(0x0000_0100_0000_01b3u64);
        i = i + 1;
    }
    assert(bytes@.skip(i as int) =~= Seq::<u8>::empty());
    h
}

} // verus!
