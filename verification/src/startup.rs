use crate::text::push_char;
use vstd::prelude::*;

verus! {

/// The address at which the application is reached from outside.
pub struct ApplicationBaseUrl(pub String);

/// The character of a decimal digit.
pub open spec fn digit_char(d: nat) -> char {
    (48 + d) as char
}

/// The decimal notation of `n`, without leading zeros.
pub open spec fn decimal(n: nat) -> Seq<char>
    decreases n,
{
    if n < 10 {
        seq![digit_char(n)]
    } else {
        decimal(n / 10).push(digit_char(n % 10))
    }
}

/// The number that a sequence of decimal digit characters denotes, most
/// significant digit first.
pub open spec fn numeral_value(s: Seq<char>) -> int
    decreases s.len(),
{
    if s.len() == 0 {
        0
    } else {
        10 * numeral_value(s.drop_last()) + (s.last() as int - 48)
    }
}

/// Law: `decimal(n)` is the standard base-10 numeral of `n`: it is made of
/// the digits `0`-`9`, the number its digits denote is `n`, it has no leading
/// zero, and zero is written `0`.
pub proof fn lemma_decimal_is_numeral(n: nat)
    ensures
        decimal(n).len() > 0,
        forall|i: int| 0 <= i < decimal(n).len() ==> '0' <= #[trigger] decimal(n)[i] <= '9',
        numeral_value(decimal(n)) == n,
        n > 0 ==> decimal(n)[0] != '0',
        n == 0 ==> decimal(n) == seq!['0'],
    decreases n,
{
    let d = digit_char(n % 10);
    assert(d as int == 48 + n % 10);
    if n < 10 {
        assert(decimal(n).drop_last() =~= Seq::<char>::empty());
        assert(decimal(n).last() == d);
        assert(numeral_value(decimal(n)) == 10 * numeral_value(Seq::<char>::empty()) + (d as int - 48));
    } else {
        lemma_decimal_is_numeral(n / 10);
        let q = decimal(n / 10);
        assert(decimal(n) == q.push(d));
        assert(decimal(n).drop_last() =~= q);
        assert(decimal(n)[0] == q[0]);
        assert(decimal(n).last() == d);
        assert(numeral_value(decimal(n)) == 10 * numeral_value(q) + (d as int - 48));
        assert(10 * (n / 10) + n % 10 == n);
        assert forall|i: int| 0 <= i < decimal(n).len() implies '0' <= #[trigger] decimal(n)[i]
            <= '9' by {
            if i < q.len() {
                assert(decimal(n)[i] == q[i]);
            }
        }
    }
}

/// Appends the decimal notation of `n` to `s`.
fn push_decimal(s: &mut String, n: u16)
    ensures
        final(s)@ == old(s)@ + decimal(n as nat),
    decreases n,
{
    if n >= 10 {
        push_decimal(s, n / 10);
    }
    let d: u8 = (n % 10) as u8;
    let c = (48u8 + d) as char;
    push_char(s, c);
    assert(s@ =~= old(s)@ + decimal(n as nat)) by {
        if n >= 10 {
            assert(decimal(n as nat) == decimal((n / 10) as nat).push(digit_char((n % 10) as nat)));
        }
    }
}

/// The `host:port` address the application listens on.
pub fn listen_address(host: &str, port: u16) -> (address: String)
    ensures
        address@ == host@ + ":"@ + decimal(port as nat),
{
    let mut address = String::from_str(host);
    address.append(":");
    push_decimal(&mut address, port);
    address
}

} // verus!
