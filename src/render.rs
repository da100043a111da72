use vstd::prelude::*;
use vstd::string::StringExecFns;

use crate::preprocess::TrieProof;

verus! {

/// The lower-case hexadecimal digit of `d` (below 16).
pub open spec fn hex_digit(d: nat) -> Seq<char> {
    if d == 0 { "0"@ }
    else if d == 1 { "1"@ }
    else if d == 2 { "2"@ }
    else if d == 3 { "3"@ }
    else if d == 4 { "4"@ }
    else if d == 5 { "5"@ }
    else if d == 6 { "6"@ }
    else if d == 7 { "7"@ }
    else if d == 8 { "8"@ }
    else if d == 9 { "9"@ }
    else if d == 10 { "a"@ }
    else if d == 11 { "b"@ }
    else if d == 12 { "c"@ }
    else if d == 13 { "d"@ }
    else if d == 14 { "e"@ }
    else { "f"@ }
}

/// The hexadecimal digits of `n`, most significant first, without leading zeros.
pub open spec fn hex_digits(n: nat) -> Seq<char>
    decreases n,
{
    if n < 16 {
        hex_digit(n)
    } else {
        hex_digits(n / 16) + hex_digit(n % 16)
    }
}

/// `n` as `0x` followed by at least two hexadecimal digits.
pub open spec fn hex_literal(n: nat) -> Seq<char> {
    if n < 16 {
        "0x0"@ + hex_digits(n)
    } else {
        "0x"@ + hex_digits(n)
    }
}

/// One indented line per byte, each ending in a comma.
pub open spec fn byte_lines(b: Seq<u8>) -> Seq<char>
    decreases b.len(),
{
    if b.len() == 0 {
        Seq::empty()
    } else {
        byte_lines(b.drop_last()) + "    "@ + hex_literal(b.last() as nat) + ",\n"@
    }
}

/// A byte array written one hexadecimal byte per line, `[]` when empty.
pub open spec fn byte_array(b: Seq<u8>) -> Seq<char> {
    if b.len() == 0 {
        "[]"@
    } else {
        "[\n"@ + byte_lines(b) + "]"@
    }
}

/// The TOML table named `name` with the four entries of a record.
pub open spec fn toml_table(
    name: Seq<char>,
    key: Seq<u8>,
    proof: Seq<u8>,
    depth: nat,
    value: Seq<u8>,
) -> Seq<char> {
    "["@ + name + "]\nkey = "@ + byte_array(key) + "\nproof = "@ + byte_array(proof)
        + "\ndepth = "@ + hex_literal(depth) + "\nvalue = "@ + byte_array(value)
}

fn push_hex_digit(s: &mut String, d: usize)
    requires
        d < 16,
    ensures
        final(s)@ == old(s)@ + hex_digit(d as nat),
{
    let t: &str = if d == 0 { "0" }
    else if d == 1 { "1" }
    else if d == 2 { "2" }
    else if d == 3 { "3" }
    else if d == 4 { "4" }
    else if d == 5 { "5" }
    else if d == 6 { "6" }
    else if d == 7 { "7" }
    else if d == 8 { "8" }
    else if d == 9 { "9" }
    else if d == 10 { "a" }
    else if d == 11 { "b" }
    else if d == 12 { "c" }
    else if d == 13 { "d" }
    else if d == 14 { "e" }
    else { "f" };
    s.append(t);
}

fn push_hex_digits(s: &mut String, n: usize)
    ensures
        final(s)@ == old(s)@ + hex_digits(n as nat),
    decreases n,
{
    if n >= 16 {
        push_hex_digits(s, n / 16);
    }
    push_hex_digit(s, n % 16);
}

fn push_hex_literal(s: &mut String, n: usize)
    ensures
        final(s)@ == old(s)@ + hex_literal(n as nat),
{
    if n < 16 {
        s.append("0x0");
    } else {
        s.append("0x");
    }
    push_hex_digits(s, n);
}

fn push_byte_array(s: &mut String, b: &Vec<u8>)
    ensures
        final(s)@ == old(s)@ + byte_array(b@),
{
    if b.len() == 0 {
        s.append("[]");
        return;
    }
    s.append("[\n");
    let ghost start = s@;
    let mut i: usize = 0;
    while i < b.len()
        invariant
            i <= b@.len(),
            s@ == start + byte_lines(b@.subrange(0, i as int)),
        decreases b@.len() - i,
    {
        s.append("    ");
        push_hex_literal(s, b[i] as usize);
        s.append(",\n");
        proof {
            let next = b@.subrange(0, i + 1);
            assert(next.drop_last() =~= b@.subrange(0, i as int));
        }
        i = i + 1;
    }
    assert(b@.subrange(0, b@.len() as int) =~= b@);
    s.append("]");
}

impl TrieProof {
    /// The record as a TOML table named `proof_name`: key, proof and value as
    /// arrays of hexadecimal bytes, depth as a hexadecimal integer.
    pub fn to_toml_string(&self, proof_name: &str) -> (r: String)
        ensures
            r@ == toml_table(proof_name@, self.key@, self.proof@, self.depth as nat, self.value@),
    {
        let mut s = String::new();
        s.append("[");
        s.append(proof_name);
        s.append("]\nkey = ");
        push_byte_array(&mut s, &self.key);
        s.append("\nproof = ");
        push_byte_array(&mut s, &self.proof);
        s.append("\ndepth = ");
        push_hex_literal(&mut s, self.depth);
        s.append("\nvalue = ");
        push_byte_array(&mut s, &self.value);
        s
    }
}

} // verus!
