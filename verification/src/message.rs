//! Construction of the canonical signable message: ASCII-hex encoding of
//! byte strings, decimal length rendering, and the framed message that the
//! Ethereum `personal_sign` convention expects.

use vstd::prelude::*;

verus! {

/// The ASCII code of the hex digit for a nibble: `0`..`9` then `a`..`f`.
pub open spec fn hex_digit_of(n: u8) -> u8
    recommends
        n < 16,
{
    if n < 10 {
        (48 + n) as u8
    } else {
        (87 + n) as u8
    }
}

/// ASCII-hex encoding of a byte string: two digits per byte, high nibble
/// first, lower-case.
pub open spec fn hex_of(data: Seq<u8>) -> Seq<u8>
    decreases data.len(),
{
    if data.len() == 0 {
        Seq::empty()
    } else {
        hex_of(data.drop_last()) + seq![
            hex_digit_of(data.last() / 16),
            hex_digit_of(data.last() % 16),
        ]
    }
}

pub proof fn lemma_hex_of_len(data: Seq<u8>)
    ensures
        hex_of(data).len() == 2 * data.len(),
    decreases data.len(),
{
    if data.len() > 0 {
        lemma_hex_of_len(data.drop_last());
    }
}

/// Converts binary data into lower-case ASCII-encoded hex, twice the length.
pub fn to_ascii_hex(data: &Vec<u8>) -> (r: Vec<u8>)
    ensures
        r@ == hex_of(data@),
{
    let mut r: Vec<u8> = Vec::new();
    let mut i: usize = 0;
    while i < data.len()
        invariant
            i <= data@.len(),
            r@ == hex_of(data@.subrange(0, i as int)),
        decreases data@.len() - i,
    {
        let b = data[i];
        let hi: u8 = b / 16;
        let lo: u8 = b % 16;
        r.push(if hi < 10 { 48 + hi } else { 87 + hi });
        r.push(if lo < 10 { 48 + lo } else { 87 + lo });
        proof {
            let pre = data@.subrange(0, i as int);
            let cur = data@.subrange(0, i + 1 as int);
            assert(cur.drop_last() =~= pre);
            assert(cur.last() == data@[i as int]);
            assert(r@ =~= hex_of(pre) + seq![
                hex_digit_of(b / 16),
                hex_digit_of(b % 16),
            ]);
        }
        i += 1;
    }
    proof {
        assert(data@.subrange(0, data@.len() as int) =~= data@);
    }
    r
}

/// The decimal ASCII rendering of `n` by repeated division: no leading
/// zeros, most significant digit first; empty for zero.
pub open spec fn decimal_of(n: nat) -> Seq<u8>
    decreases n,
{
    if n == 0 {
        Seq::empty()
    } else {
        decimal_of(n / 10).push((48 + n % 10) as u8)
    }
}

/// Appends the decimal rendering of `n` to `v`.
fn push_decimal(v: &mut Vec<u8>, n: usize)
    ensures
        final(v)@ == old(v)@ + decimal_of(n as nat),
    decreases n,
{
    if n == 0 {
        proof {
            assert(old(v)@ + decimal_of(0) =~= old(v)@);
        }
        return ;
    }
    push_decimal(v, n / 10);
    let digit: u8 = 48 + (n % 10) as u8;
    v.push(digit);
    proof {
        assert(old(v)@ + decimal_of(n as nat) =~= (old(v)@ + decimal_of(n as nat / 10)).push(
            digit,
        ));
    }
}

/// The fixed framing prefix, the ASCII bytes of
/// `"\x19Ethereum Signed Message:\n"`.
pub open spec fn eth_prefix() -> Seq<u8> {
    seq![
        0x19u8, 69u8, 116u8, 104u8, 101u8, 114u8, 101u8, 117u8, 109u8, 32u8, 83u8, 105u8,
        103u8, 110u8, 101u8, 100u8, 32u8, 77u8, 101u8, 115u8, 115u8, 97u8, 103u8, 101u8,
        58u8, 10u8,
    ]
}

/// The fixed application tag, the ASCII bytes of `"acala evm:"`.
pub open spec fn app_tag() -> Seq<u8> {
    seq![97u8, 99u8, 97u8, 108u8, 97u8, 32u8, 101u8, 118u8, 109u8, 58u8]
}

/// The fixed derivation tag, the ASCII bytes of `"evm:"`.
pub open spec fn evm_tag() -> Seq<u8> {
    seq![101u8, 118u8, 109u8, 58u8]
}

pub fn eth_prefix_vec() -> (r: Vec<u8>)
    ensures
        r@ == eth_prefix(),
{
    let mut r: Vec<u8> = Vec::new();
    r.push(0x19);
    r.push(69);
    r.push(116);
    r.push(104);
    r.push(101);
    r.push(114);
    r.push(101);
    r.push(117);
    r.push(109);
    r.push(32);
    r.push(83);
    r.push(105);
    r.push(103);
    r.push(110);
    r.push(101);
    r.push(100);
    r.push(32);
    r.push(77);
    r.push(101);
    r.push(115);
    r.push(115);
    r.push(97);
    r.push(103);
    r.push(101);
    r.push(58);
    r.push(10);
    proof {
        assert(r@ =~= eth_prefix());
    }
    r
}

pub fn app_tag_vec() -> (r: Vec<u8>)
    ensures
        r@ == app_tag(),
{
    let mut r: Vec<u8> = Vec::new();
    r.push(97);
    r.push(99);
    r.push(97);
    r.push(108);
    r.push(97);
    r.push(32);
    r.push(101);
    r.push(118);
    r.push(109);
    r.push(58);
    proof {
        assert(r@ =~= app_tag());
    }
    r
}

pub fn evm_tag_vec() -> (r: Vec<u8>)
    ensures
        r@ == evm_tag(),
{
    let mut r: Vec<u8> = Vec::new();
    r.push(101);
    r.push(118);
    r.push(109);
    r.push(58);
    proof {
        assert(r@ =~= evm_tag());
    }
    r
}

/// Appends the contents of `src` to `dst`.
pub fn append_bytes(dst: &mut Vec<u8>, src: &Vec<u8>)
    ensures
        final(dst)@ == old(dst)@ + src@,
{
    let mut i: usize = 0;
    while i < src.len()
        invariant
            i <= src@.len(),
            dst@ == old(dst)@ + src@.subrange(0, i as int),
        decreases src@.len() - i,
    {
        dst.push(src[i]);
        proof {
            assert(old(dst)@ + src@.subrange(0, i + 1 as int) =~= (old(dst)@ + src@.subrange(
                0,
                i as int,
            )).push(src@[i as int]));
        }
        i += 1;
    }
    proof {
        assert(src@.subrange(0, src@.len() as int) =~= src@);
    }
}

/// The message that the Ethereum `personal_sign` convention signs: framing
/// prefix, the decimal length of tag plus payload plus extra, then the
/// application tag, the payload and the extra bytes.
pub open spec fn signable_message_of(what: Seq<u8>, extra: Seq<u8>) -> Seq<u8> {
    eth_prefix() + decimal_of((app_tag().len() + what.len() + extra.len()) as nat) + app_tag()
        + what + extra
}

/// Constructs the canonical signable message over `what` and `extra`.
pub fn ethereum_signable_message(what: &Vec<u8>, extra: &Vec<u8>) -> (r: Vec<u8>)
    requires
        what@.len() + extra@.len() + 10 <= usize::MAX,
    ensures
        r@ == signable_message_of(what@, extra@),
{
    let tag = app_tag_vec();
    let l: usize = tag.len() + what.len() + extra.len();
    let mut v = eth_prefix_vec();
    push_decimal(&mut v, l);
    append_bytes(&mut v, &tag);
    append_bytes(&mut v, what);
    append_bytes(&mut v, extra);
    proof {
        assert(v@ =~= signable_message_of(what@, extra@));
    }
    v
}

} // verus!
