use vstd::prelude::*;

verus! {

/// Calls `String::push`, which appends one character.
#[verifier::external_body]
pub(crate) fn push_char(s: &mut String, c: char)
    ensures
        final(s)@ == old(s)@.push(c),
{
    s.push(c)
}

/// The character of a decimal digit.
pub open spec fn digit_char(d: nat) -> char {
    (48 + d) as char
}

/// The decimal writing of a natural number, without leading zeros.
pub open spec fn decimal(n: nat) -> Seq<char>
    decreases n,
{
    if n < 10 {
        seq![digit_char(n)]
    } else {
        decimal(n / 10).push(digit_char(n % 10))
    }
}

/// The decimal writing of a port number.
pub fn port_decimal(port: u16) -> (s: String)
    ensures
        s@ == decimal(port as nat),
{
    // Digits from the least significant one.
    let mut digits: Vec<char> = Vec::new();
    let mut n: u16 = port;
    assert(digits@.reverse() =~= Seq::<char>::empty());
    assert(decimal(port as nat) =~= decimal(n as nat) + digits@.reverse());
    while n >= 10
        invariant
            decimal(port as nat) == decimal(n as nat) + digits@.reverse(),
        decreases n,
    {
        let d = n % 10;
        assert(decimal(n as nat) == decimal((n / 10) as nat).push(digit_char((n % 10) as nat)));
        let ghost before = digits@;
        digits.push(((48 + d) as u8) as char);
        assert(digits@.reverse() =~= seq![digit_char(d as nat)] + before.reverse());
        assert(decimal(port as nat) =~= decimal((n / 10) as nat) + digits@.reverse());
        n = n / 10;
    }
    let ghost before = digits@;
    digits.push(((48 + n) as u8) as char);
    assert(digits@.reverse() =~= seq![digit_char(n as nat)] + before.reverse());
    assert(decimal(port as nat) =~= digits@.reverse());
    let mut s = String::new();
    let mut i = digits.len();
    while i > 0
        invariant
            i <= digits@.len(),
            s@ =~= digits@.reverse().take((digits@.len() - i) as int),
        decreases i,
    {
        i = i - 1;
        push_char(&mut s, digits[i]);
    }
    assert(digits@.reverse().take(digits@.len() as int) =~= digits@.reverse());
    s
}

/// The address a listener binds: the host, a colon and the port in decimal.
pub fn listen_address(host: &str, port: u16) -> (a: String)
    ensures
        a@ == host@ + ":"@ + decimal(port as nat),
{
    let mut a = String::from_str(host);
    a.append(":");
    let p = port_decimal(port);
    a.append(p.as_str());
    a
}

} // verus!
