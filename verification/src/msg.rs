use vstd::prelude::*;
use vstd::string::*;

use crate::byteops::push_slice;

verus! {

/// A claim to be proven by a foreign-chain signature. The claimed address
/// is the one the recovered signer must match, byte for byte.
#[derive(Clone, Debug, PartialEq)]
pub struct ClaimMsg {
    pub gift_claiming_address: String,
}

/// One coin of the host chain: a denomination and an amount.
#[derive(Clone, Debug, PartialEq)]
pub struct Coin {
    pub denom: String,
    pub amount: u128,
}

/// The fee block of a chain-specific signed payload.
#[derive(Clone, Debug, PartialEq)]
pub struct Fee {
    pub gas: u128,
    pub amount: Coin,
}

/// One message of a chain-specific signed payload.
#[derive(Clone, Debug, PartialEq)]
pub struct Msg {
    pub signer: String,
    pub data: Vec<u8>,
}

/// A transaction-shaped signed payload for the native chain's scheme.
#[derive(Clone, Debug, PartialEq)]
pub struct Tx {
    pub chain_id: String,
    pub account_number: u64,
    pub sequence: u64,
    pub fee: Fee,
    pub msgs: Vec<Msg>,
    pub memo: String,
}

/// A native-chain signature with the key that made it.
#[derive(Clone, Debug, PartialEq)]
pub struct Signature {
    pub pub_key: String,
    pub signature: Vec<u8>,
}

/// The ASCII code of the lowercase hex digit for a value below 16.
pub open spec fn lower_hex_char(v: u8) -> u8
    recommends
        v < 16,
{
    if v < 10 {
        (48 + v) as u8
    } else {
        (87 + v) as u8
    }
}

/// How one byte of a string appears inside a canonical JSON string: quote
/// and backslash get a backslash escape, control bytes get their short
/// escape or the four-digit `u` form, and every other byte stands as it is.
pub open spec fn escape_byte(b: u8) -> Seq<u8> {
    if b == 34 {
        seq![92u8, 34u8]
    } else if b == 92 {
        seq![92u8, 92u8]
    } else if b == 8 {
        seq![92u8, 98u8]
    } else if b == 9 {
        seq![92u8, 116u8]
    } else if b == 10 {
        seq![92u8, 110u8]
    } else if b == 12 {
        seq![92u8, 102u8]
    } else if b == 13 {
        seq![92u8, 114u8]
    } else if b < 32 {
        seq![92u8, 117u8, 48u8, 48u8, lower_hex_char(b / 16), lower_hex_char(b % 16)]
    } else {
        seq![b]
    }
}

/// A byte string escaped for the inside of a JSON string literal.
pub open spec fn json_escaped(s: Seq<u8>) -> Seq<u8>
    decreases s.len(),
{
    if s.len() == 0 {
        Seq::empty()
    } else {
        escape_byte(s[0]) + json_escaped(s.skip(1))
    }
}

proof fn lemma_json_escaped_snoc(a: Seq<u8>, x: u8)
    ensures
        json_escaped(a.push(x)) == json_escaped(a) + escape_byte(x),
    decreases a.len(),
{
    reveal_with_fuel(json_escaped, 3);
    if a.len() == 0 {
        assert(a.push(x)[0] == x);
        assert(a.push(x).skip(1) =~= Seq::<u8>::empty());
        assert(json_escaped(a.push(x)) =~= json_escaped(a) + escape_byte(x));
    } else {
        assert(a.push(x)[0] == a[0]);
        assert(a.push(x).skip(1) =~= a.skip(1).push(x));
        lemma_json_escaped_snoc(a.skip(1), x);
        assert(json_escaped(a.push(x)) =~= json_escaped(a) + escape_byte(x));
    }
}

/// Appends the JSON-escaped form of `s` to `out`.
fn push_escaped(out: &mut Vec<u8>, s: &[u8])
    ensures
        final(out)@ == old(out)@ + json_escaped(s@),
{
    let mut i: usize = 0;
    while i < s.len()
        invariant
            i <= s.len(),
            out@ == old(out)@ + json_escaped(s@.take(i as int)),
        decreases s.len() - i,
    {
        let b = s[i];
        if b == 34 {
            out.push(92);
            out.push(34);
        } else if b == 92 {
            out.push(92);
            out.push(92);
        } else if b == 8 {
            out.push(92);
            out.push(98);
        } else if b == 9 {
            out.push(92);
            out.push(116);
        } else if b == 10 {
            out.push(92);
            out.push(110);
        } else if b == 12 {
            out.push(92);
            out.push(102);
        } else if b == 13 {
            out.push(92);
            out.push(114);
        } else if b < 32 {
            out.push(92);
            out.push(117);
            out.push(48);
            out.push(48);
            let hi = b / 16;
            let lo = b % 16;
            out.push(if hi < 10 {
                48 + hi
            } else {
                87 + hi
            });
            out.push(if lo < 10 {
                48 + lo
            } else {
                87 + lo
            });
        } else {
            out.push(b);
        }
        proof {
            assert(s@.take(i + 1) =~= s@.take(i as int).push(s@[i as int]));
            lemma_json_escaped_snoc(s@.take(i as int), s@[i as int]);
            assert(out@ =~= old(out)@ + json_escaped(s@.take(i + 1)));
        }
        i = i + 1;
    }
    proof {
        assert(s@.take(s@.len() as int) =~= s@);
    }
}

/// The canonical serialized form of a claim: one JSON object holding the
/// claimed address under its field name, with the address escaped as JSON
/// demands.
pub open spec fn serialized_claim(addr: Seq<char>) -> Seq<u8> {
    vstd::utf8::encode_utf8("{\"gift_claiming_address\":\""@) + json_escaped(
        vstd::utf8::encode_utf8(addr),
    ) + vstd::utf8::encode_utf8("\"}"@)
}

/// Serializes a claim to its canonical textual form.
pub fn serialize_claim(claim_msg: &ClaimMsg) -> (r: Vec<u8>)
    ensures
        r@ == serialized_claim(claim_msg.gift_claiming_address@),
{
    let mut out: Vec<u8> = Vec::new();
    push_slice(&mut out, "{\"gift_claiming_address\":\"".as_bytes());
    push_escaped(&mut out, claim_msg.gift_claiming_address.as_str().as_bytes());
    push_slice(&mut out, "\"}".as_bytes());
    proof {
        assert(out@ =~= serialized_claim(claim_msg.gift_claiming_address@));
    }
    out
}

} // verus!
