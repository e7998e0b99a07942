//! Content hashing of fetched payloads.

use vstd::prelude::*;
use crate::util::calendar::CalendarDate;

verus! {

/// The 64-bit FNV-1a offset basis.
pub const FNV_OFFSET: u64 = 0xcbf29ce484222325;

/// The 64-bit FNV prime.
pub const FNV_PRIME: u64 = 0x100000001b3;

/// FNV-1a over the bytes, starting from `h`.
pub open spec fn fnv_fold(bs: Seq<u8>, h: u64) -> u64
    decreases bs.len(),
{
    if bs.len() == 0 {
        h
    } else {
        fnv_fold(bs.drop_first(), vstd::wrapping::u64_specs::wrapping_mul(h ^ (bs[0] as u64), FNV_PRIME))
    }
}

/// FNV-1a of a text's UTF-8 bytes, starting from `h`.
pub fn fnv_hash(text: &str, h: u64) -> (r: u64)
    ensures
        r == fnv_fold(vstd::utf8::encode_utf8(text@), h),
{
    let bytes = text.as_bytes();
    let ghost all = bytes@;
    let mut hash = h;
    let mut i: usize = 0;
    proof {
        assert(all.subrange(0, all.len() as int) =~= all);
    }
    while i < bytes.len()
        invariant
            all == bytes@,
            all == vstd::utf8::encode_utf8(text@),
            i <= all.len(),
            fnv_fold(all, h) == fnv_fold(all.subrange(i as int, all.len() as int), hash),
        decreases bytes.len() - i,
    {
        proof {
            assert(all.subrange(i as int, all.len() as int).drop_first() =~= all.subrange(
                i + 1,
                all.len() as int,
            ));
        }
        hash = (hash ^ (bytes[i] as u64)).wrapping_mul(FNV_PRIME);
        i = i + 1;
    }
    proof {
        assert(all.subrange(all.len() as int, all.len() as int) =~= Seq::<u8>::empty());
    }
    hash
}

pub open spec fn hex_char(d: nat) -> char {
    if d < 10 {
        ((d + 48) as u32) as char
    } else {
        ((d + 87) as u32) as char
    }
}

/// The low `n` hexadecimal digits of `h`, most significant first, zero-padded.
pub open spec fn hex_digits(h: nat, n: nat) -> Seq<char>
    decreases n,
{
    if n == 0 {
        Seq::empty()
    } else {
        hex_digits(h / 16, (n - 1) as nat).push(hex_char(h % 16))
    }
}

fn hex_digit(d: u64) -> (r: char)
    requires
        d < 16,
    ensures
        r == hex_char(d as nat),
{
    if d < 10 {
        ((d as u8) + 48) as char
    } else {
        ((d as u8) + 87) as char
    }
}

/// Sixteen lowercase hexadecimal digits of a 64-bit value.
pub fn hex16(h: u64) -> (r: String)
    ensures
        r@ == hex_digits(h as nat, 16),
{
    let mut digits: Vec<char> = Vec::new();
    let mut k: u64 = 0;
    let mut rest: u64 = h;
    while k < 16
        invariant
            k <= 16,
            digits@.len() == k,
            hex_digits(h as nat, 16) == hex_digits(rest as nat, (16 - k) as nat) + digits@,
        decreases 16 - k,
    {
        let d = hex_digit(rest % 16);
        let ghost old_digits = digits@;
        digits.insert(0, d);
        proof {
            assert(digits@ =~= seq![d] + old_digits);
            assert(hex_digits(rest as nat, (16 - k) as nat) == hex_digits(
                (rest / 16) as nat,
                (16 - k - 1) as nat,
            ).push(hex_char((rest % 16) as nat)));
            assert(hex_digits((rest / 16) as nat, (16 - k - 1) as nat).push(d) + old_digits
                =~= hex_digits((rest / 16) as nat, (16 - k - 1) as nat) + digits@);
        }
        rest = rest / 16;
        k = k + 1;
    }
    proof {
        assert(hex_digits(rest as nat, 0) + digits@ =~= digits@);
    }
    crate::util::text::string_of(&digits)
}

/// FNV-1a hash of the text's UTF-8 bytes as sixteen lowercase hexadecimal
/// digits.
pub fn content_hash_string(input: &str) -> (r: String)
    ensures
        r@ == hex_digits(fnv_fold(vstd::utf8::encode_utf8(input@), FNV_OFFSET) as nat, 16),
{
    hex16(fnv_hash(input, FNV_OFFSET))
}

/// Among the dates of the fixture directories that hold the wanted file, the
/// position of the latest one not after the run date (the last such position
/// when two are equal); none when every date is later.
pub open spec fn fixture_choice(dates: Seq<CalendarDate>, run_date: CalendarDate, i: int) -> bool {
    &&& 0 <= i < dates.len()
    &&& dates[i].day_number <= run_date.day_number
    &&& forall|k: int|
        0 <= k < dates.len() && (#[trigger] dates[k]).day_number <= run_date.day_number ==> dates[k].day_number
            < dates[i].day_number || (dates[k].day_number == dates[i].day_number && k <= i)
}

pub fn choose_fixture_date(dates: &Vec<CalendarDate>, run_date: &CalendarDate) -> (r: Option<usize>)
    ensures
        match r {
            Some(i) => fixture_choice(dates@, *run_date, i as int),
            None => forall|k: int| 0 <= k < dates@.len() ==> (#[trigger] dates@[k]).day_number > run_date.day_number,
        },
{
    let mut best: Option<usize> = None;
    let mut i: usize = 0;
    while i < dates.len()
        invariant
            i <= dates@.len(),
            match best {
                Some(b) => b < i && dates@[b as int].day_number <= run_date.day_number && forall|k: int|
                    0 <= k < i && (#[trigger] dates@[k]).day_number <= run_date.day_number ==> dates@[k].day_number
                        < dates@[b as int].day_number || (dates@[k].day_number == dates@[b as int].day_number && k
                        <= b),
                None => forall|k: int| 0 <= k < i ==> (#[trigger] dates@[k]).day_number > run_date.day_number,
            },
        decreases dates.len() - i,
    {
        if dates[i].day_number <= run_date.day_number {
            match best {
                Some(b) => {
                    if dates[i].day_number >= dates[b].day_number {
                        best = Some(i);
                    }
                },
                None => {
                    best = Some(i);
                },
            }
        }
        i = i + 1;
    }
    best
}

} // verus!
