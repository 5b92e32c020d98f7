//! The Internet checksum (RFC 1071) as used in the ICMPv4 header.
use vstd::prelude::*;
use vstd::arithmetic::div_mod::{lemma_fundamental_div_mod, lemma_mod_multiples_vanish};

verus! {

/// The `k`-th big-endian 16-bit word of `s`; a trailing odd byte is the
/// high byte of a word whose low byte is zero.
pub open spec fn word_at(s: Seq<u8>, k: int) -> int {
    s[2 * k] as int * 256 + if 2 * k + 1 < s.len() {
        s[2 * k + 1] as int
    } else {
        0int
    }
}

/// Number of 16-bit words that cover `s`.
pub open spec fn word_count(s: Seq<u8>) -> nat {
    ((s.len() + 1) / 2) as nat
}

/// Plain sum of the first `n` words of `s`.
pub open spec fn word_sum(s: Seq<u8>, n: nat) -> int
    decreases n,
{
    if n == 0 {
        0
    } else {
        word_sum(s, (n - 1) as nat) + word_at(s, n - 1)
    }
}

/// Folds the carries above bit 15 back into the low 16 bits until none is left.
pub open spec fn fold_carries(x: nat) -> nat
    decreases x,
{
    if x < 0x10000 {
        x
    } else {
        fold_carries((x % 0x10000 + x / 0x10000) as nat)
    }
}

/// The checksum of `s`: the one's complement of the folded word sum.
pub open spec fn icmp_checksum(s: Seq<u8>) -> u16 {
    (0xffff - fold_carries(word_sum(s, word_count(s)) as nat)) as u16
}

/// Closed form of the carry fold: zero stays zero, and a positive sum lands
/// in `1..=0xffff` with the same residue modulo `0xffff`.
pub open spec fn ones_residue(x: nat) -> nat {
    if x == 0 {
        0
    } else {
        ((x - 1) % 0xffff + 1) as nat
    }
}

/// The carry fold agrees with its closed form.
pub proof fn lemma_fold_carries_closed(x: nat)
    ensures
        fold_carries(x) == ones_residue(x),
    decreases x,
{
    if x >= 0x10000 {
        let q = x as int / 0x10000;
        let y = x as int % 0x10000 + q;
        lemma_fundamental_div_mod(x as int, 0x10000);
        lemma_mod_multiples_vanish(q, y - 1, 0xffff);
        assert(x as int - 1 == 0xffff * q + (y - 1));
        lemma_fold_carries_closed(y as nat);
    }
}

/// Folding a partial sum before adding more words does not change the result.
pub proof fn lemma_fold_carries_absorbs(a: nat, w: nat)
    ensures
        fold_carries(fold_carries(a) + w) == fold_carries(a + w),
{
    lemma_fold_carries_closed(a);
    lemma_fold_carries_closed(a + w);
    lemma_fold_carries_closed(fold_carries(a) + w);
    if a > 0 {
        let q = (a - 1) as int / 0xffff;
        let f = fold_carries(a) as int;
        lemma_fundamental_div_mod(a - 1, 0xffff);
        assert(a + w - 1 == 0xffff * q + (f + w - 1));
        lemma_mod_multiples_vanish(q, f + w - 1, 0xffff);
    }
}

/// Each word is at most `0xffff`, so a sum of `n` words is at most `n * 0xffff`.
pub proof fn lemma_word_sum_bounds(s: Seq<u8>, n: nat)
    requires
        n <= word_count(s),
    ensures
        0 <= word_sum(s, n) <= n * 0xffff,
    decreases n,
{
    if n > 0 {
        lemma_word_sum_bounds(s, (n - 1) as nat);
    }
}

/// Computes the ICMP checksum of `packet`. The sum is kept folded after each
/// word, so no length of input can overflow it.
pub fn calculate_icmp_checksum(packet: &[u8]) -> (r: u16)
    ensures
        r == icmp_checksum(packet@),
{
    let n = packet.len();
    let mut sum: u32 = 0;
    let mut i: usize = 0;
    while i < n
        invariant
            n == packet@.len(),
            i <= n,
            i % 2 == 0 || i == n,
            sum < 0x10000,
            sum == fold_carries(word_sum(packet@, ((i + 1) / 2) as nat) as nat),
        decreases n - i,
    {
        let ghost k: nat = (i / 2) as nat;
        let word: u32 = if n - i >= 2 {
            packet[i] as u32 * 256 + packet[i + 1] as u32
        } else {
            packet[i] as u32 * 256
        };
        assert(word == word_at(packet@, k as int));
        proof {
            lemma_word_sum_bounds(packet@, k);
            lemma_fold_carries_absorbs(word_sum(packet@, k) as nat, word as nat);
        }
        let total: u32 = sum + word;
        assert((total & 0xffff) + (total >> 16) == total % 0x10000 + total / 0x10000
            && total % 0x10000 + total / 0x10000 < 0x10000) by (bit_vector)
            requires
                total < 0x1ffff,
        ;
        sum = (total & 0xffff) + (total >> 16);
        assert(fold_carries(total as nat) == sum) by {
            if total >= 0x10000 {
                assert(fold_carries(sum as nat) == sum);
            }
        }
        if n - i >= 2 {
            i = i + 2;
        } else {
            i = n;
        }
        assert((i + 1) / 2 == k + 1);
    }
    let folded: u16 = sum as u16;
    let r: u16 = !folded;
    assert(r == 0xffff - folded) by (bit_vector)
        requires
            r == !folded,
    ;
    r
}

/// `s` with the 16-bit value `c` written big-endian into bytes 2 and 3,
/// where the ICMP header keeps its checksum.
pub open spec fn with_checksum_field(s: Seq<u8>, c: u16) -> Seq<u8> {
    s.update(2, (c / 256) as u8).update(3, (c % 256) as u8)
}

proof fn lemma_word_sum_with_field(s: Seq<u8>, c: u16, n: nat)
    requires
        s.len() >= 4,
        s[2] == 0,
        s[3] == 0,
        n <= word_count(s),
    ensures
        word_sum(with_checksum_field(s, c), n) == word_sum(s, n) + if n >= 2 {
            c as int
        } else {
            0
        },
    decreases n,
{
    let t = with_checksum_field(s, c);
    if n > 0 {
        lemma_word_sum_with_field(s, c, (n - 1) as nat);
        let k = n - 1;
        if k == 1 {
            assert(word_at(s, 1) == 0);
            assert(word_at(t, 1) == c as int);
        } else {
            assert(word_at(t, k) == word_at(s, k));
        }
    }
}

/// A packet whose checksum field was zero when it was checksummed, and into
/// which that checksum was then written, checksums to zero.
pub proof fn lemma_checksum_verifies(s: Seq<u8>)
    requires
        s.len() >= 4,
        s[2] == 0,
        s[3] == 0,
    ensures
        icmp_checksum(with_checksum_field(s, icmp_checksum(s))) == 0,
{
    let c = icmp_checksum(s);
    let t = with_checksum_field(s, c);
    let a = word_sum(s, word_count(s));
    lemma_word_sum_bounds(s, word_count(s));
    lemma_fold_carries_closed(a as nat);
    assert(c as int == 0xffff - fold_carries(a as nat));
    lemma_word_sum_with_field(s, c, word_count(s));
    assert(word_count(t) == word_count(s));
    let b = word_sum(t, word_count(t));
    assert(b == a + c);
    lemma_fold_carries_closed(b as nat);
    if a > 0 {
        let q = (a - 1) / 0xffff;
        lemma_fundamental_div_mod(a - 1, 0xffff);
        assert(b - 1 == 0xffff * q + 0xfffe);
        lemma_mod_multiples_vanish(q, 0xfffe, 0xffff);
    }
}

} // verus!
