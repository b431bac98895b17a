//! Spotify ids as text.
use librespot_core::spotify_id::{SpotifyAudioType, SpotifyId};
use vstd::arithmetic::div_mod::lemma_div_denominator;
use vstd::arithmetic::power::{lemma_pow_positive, pow};
use vstd::prelude::*;

verus! {

/// The number of characters in the text of an id.
pub const BASE62_LEN: usize = 22;

/// The base 62 digit `d`: the decimal digits, then the small letters, then the capital letters.
pub open spec fn base62_digit(d: nat) -> char {
    if d < 10 {
        ('0' as u32 + d) as char
    } else if d < 36 {
        ('a' as u32 + (d - 10)) as char
    } else {
        ('A' as u32 + (d - 36)) as char
    }
}

/// The last `len` base 62 digits of `n`, most significant first.
pub open spec fn base62_digits(n: nat, len: nat) -> Seq<char>
    decreases len,
{
    if len == 0 {
        Seq::empty()
    } else {
        base62_digits(n / 62, (len - 1) as nat).push(base62_digit(n % 62))
    }
}

/// The text of the id `n`.
pub open spec fn base62(n: nat) -> Seq<char> {
    base62_digits(n, BASE62_LEN as nat)
}

/// `librespot_core::spotify_id::SpotifyId::to_base62`, on the id `id` of a track.
///
/// The call never fails, and returns the id in base 62, padded with zeros to a fixed length. It
/// does not look at the audio type.
#[verifier::external_body]
pub(crate) fn to_base62(id: u128) -> (r: Option<String>)
    ensures
        r is Some,
        r->0@ == base62(id as nat),
{
    SpotifyId { id, audio_type: SpotifyAudioType::Track }.to_base62().ok()
}

spec fn power_of_62(k: nat) -> nat
    decreases k,
{
    if k == 0 {
        1
    } else {
        62 * power_of_62((k - 1) as nat)
    }
}

proof fn lemma_base62_digits_len(n: nat, len: nat)
    ensures
        base62_digits(n, len).len() == len,
    decreases len,
{
    if len > 0 {
        lemma_base62_digits_len(n / 62, (len - 1) as nat);
    }
}

proof fn lemma_base62_digits_injective(a: nat, b: nat, len: nat)
    requires
        a < power_of_62(len),
        b < power_of_62(len),
        base62_digits(a, len) == base62_digits(b, len),
    ensures
        a == b,
    decreases len,
{
    if len > 0 {
        let k = (len - 1) as nat;
        let (x, y) = (base62_digits(a / 62, k), base62_digits(b / 62, k));
        assert(x.push(base62_digit(a % 62)).last() == y.push(base62_digit(b % 62)).last());
        assert(x.push(base62_digit(a % 62)).drop_last() =~= x);
        assert(y.push(base62_digit(b % 62)).drop_last() =~= y);
        lemma_base62_digit_injective(a % 62, b % 62);
        lemma_base62_digits_injective(a / 62, b / 62, k);
    }
}

proof fn lemma_base62_digit_injective(a: nat, b: nat)
    requires
        a < 62,
        b < 62,
        base62_digit(a) == base62_digit(b),
    ensures
        a == b,
{
    assert forall|d: nat| d < 62 implies #[trigger] base62_digit(d) as nat == if d < 10 {
        48 + d
    } else if d < 36 {
        87 + d
    } else {
        29 + d
    } by {}
}

/// The text of an id has a fixed length.
pub proof fn base62_has_fixed_length(n: nat)
    ensures
        base62(n).len() == BASE62_LEN,
{
    lemma_base62_digits_len(n, BASE62_LEN as nat);
}

/// Different ids have different texts.
pub proof fn base62_is_injective(a: u128, b: u128)
    requires
        base62(a as nat) == base62(b as nat),
    ensures
        a == b,
{
    reveal_with_fuel(power_of_62, 23);
    lemma_base62_digits_injective(a as nat, b as nat, BASE62_LEN as nat);
}

proof fn lemma_base62_digit_at(n: nat, len: nat, i: int)
    requires
        0 <= i < len,
    ensures
        base62_digits(n, len).len() == len,
        base62_digits(n, len)[i] == base62_digit(
            ((n as int / pow(62, (len - 1 - i) as nat)) % 62) as nat,
        ),
    decreases len,
{
    reveal(pow);
    let k = (len - 1) as nat;
    lemma_base62_digits_len(n / 62, k);
    if i == k {
        assert(pow(62, 0) == 1);
    } else {
        let e = (k - 1 - i) as nat;
        lemma_base62_digit_at(n / 62, k, i);
        lemma_pow_positive(62, e);
        lemma_div_denominator(n as int, 62, pow(62, e));
        assert(pow(62, (len - 1 - i) as nat) == 62 * pow(62, e));
    }
}

/// The text of an id has 22 characters. The one at each place stands for what the power of 62
/// of that place calls for: the digits from `0` on, the small letters from `a` on, and the
/// capital letters from `A` on.
pub proof fn base62_digits_are_right(n: nat)
    ensures
        base62(n).len() == 22,
        forall|i: int|
            0 <= i < 22 ==> (#[trigger] base62(n)[i]) as int == {
                let d = (n as int / pow(62, (21 - i) as nat)) % 62;
                if d < 10 {
                    48 + d
                } else if d < 36 {
                    97 + (d - 10)
                } else {
                    65 + (d - 36)
                }
            },
{
    base62_has_fixed_length(n);
    assert forall|i: int| 0 <= i < 22 implies (#[trigger] base62(n)[i]) as int == ({
        let d = (n as int / pow(62, (21 - i) as nat)) % 62;
        if d < 10 {
            48 + d
        } else if d < 36 {
            97 + (d - 10)
        } else {
            65 + (d - 36)
        }
    }) by {
        lemma_base62_digit_at(n, 22, i);
    }
}

} // verus!
