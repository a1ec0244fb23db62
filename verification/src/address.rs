use vstd::prelude::*;
use vstd::string::{StrSliceExecFns, StringExecFns};

verus! {

/// Hexadecimal digits of a standard address after its `0x`.
pub const ADDRESS_DIGITS: usize = 64;

/// The address without one leading `0x`, if it has one.
pub open spec fn without_prefix(address: Seq<char>) -> Seq<char> {
    if address.len() >= 2 && address[0] == '0' && address[1] == 'x' {
        address.subrange(2, address.len() as int)
    } else {
        address
    }
}

/// `count` zeros.
pub open spec fn zeros(count: nat) -> Seq<char> {
    Seq::new(count, |i: int| '0')
}

/// The zeros that bring `digits` characters to the standard length.
pub open spec fn padding(digits: nat) -> Seq<char> {
    if digits < ADDRESS_DIGITS {
        zeros((ADDRESS_DIGITS - digits) as nat)
    } else {
        zeros(0)
    }
}

/// The standard form of an address or table handle: `0x`, then the address
/// without its own `0x`, with zeros in front that bring it to 64 characters.
pub open spec fn standardized(address: Seq<char>) -> Seq<char> {
    seq!['0', 'x'] + padding(without_prefix(address).len()) + without_prefix(address)
}

/// Brings an address or table handle to its standard form.
pub fn standardize_address(handle: &str) -> (r: String)
    ensures
        r@ == standardized(handle@),
{
    let n = handle.unicode_len();
    let body = if n >= 2 && handle.get_char(0) == '0' && handle.get_char(1) == 'x' {
        handle.substring_char(2, n)
    } else {
        handle
    };
    let digits = body.unicode_len();
    assert(body@ == without_prefix(handle@));
    proof {
        reveal_strlit("0x");
        reveal_strlit("0");
    }
    let mut out = String::from_str("0x");
    assert(out@ =~= seq!['0', 'x'] + zeros(0));
    let mut i: usize = digits;
    while i < ADDRESS_DIGITS
        invariant
            digits <= i,
            digits < ADDRESS_DIGITS ==> i <= ADDRESS_DIGITS,
            digits >= ADDRESS_DIGITS ==> i == digits,
            out@ == seq!['0', 'x'] + zeros((i - digits) as nat),
            "0"@ == seq!['0'],
        decreases ADDRESS_DIGITS - i,
    {
        out.append("0");
        assert(out@ =~= seq!['0', 'x'] + zeros((i + 1 - digits) as nat));
        i = i + 1;
    }
    assert(zeros((i - digits) as nat) == padding(digits as nat));
    out.append(body);
    out
}

/// An address in standard form stays as it is.
pub proof fn lemma_standardize_twice(address: Seq<char>)
    ensures
        standardized(standardized(address)) == standardized(address),
{
    let body = without_prefix(address);
    let once = standardized(address);
    let rest = padding(body.len()) + body;
    assert(once =~= seq!['0', 'x'] + rest);
    assert(once.len() >= 2 && once[0] == '0' && once[1] == 'x');
    assert(without_prefix(once) =~= rest);
    assert(rest.len() >= ADDRESS_DIGITS);
    assert(padding(rest.len()) =~= Seq::<char>::empty());
    assert(standardized(once) =~= once);
}

} // verus!
