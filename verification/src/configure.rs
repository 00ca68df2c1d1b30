//! Settings of the service and the address it listens on.
use vstd::prelude::*;

verus! {

/// The decimal digit character for a value below 10.
pub open spec fn digit_char(d: int) -> char {
    (48 + d) as char
}

/// The decimal text of a number, without leading zeros.
pub open spec fn decimal(n: nat) -> Seq<char>
    decreases n,
{
    if n < 10 {
        seq![digit_char(n as int)]
    } else {
        decimal(n / 10).push(digit_char((n % 10) as int))
    }
}

/// The value of a text read as a base-10 numeral, each character counting
/// as its distance from `'0'`.
pub open spec fn numeral_value(text: Seq<char>) -> int
    decreases text.len(),
{
    if text.len() == 0 {
        0
    } else {
        numeral_value(text.drop_last()) * 10 + (text.last() as int - 48)
    }
}

/// The decimal text of a number is a non-empty run of the digits `0`-`9`,
/// without a leading zero unless the number is 0, and read as a base-10
/// numeral it gives the number back.
pub proof fn decimal_reads_back(n: nat)
    ensures
        numeral_value(decimal(n)) == n,
        decimal(n).len() > 0,
        forall|i: int| 0 <= i < decimal(n).len() ==> 48 <= #[trigger] (decimal(n)[i] as int) <= 57,
        decimal(n)[0] == '0' ==> n == 0,
    decreases n,
{
    let last = (n % 10) as int;
    assert(digit_char(last) as int == 48 + last);
    if n >= 10 {
        decimal_reads_back(n / 10);
        assert(decimal(n).last() == digit_char(last));
        assert(numeral_value(decimal(n)) == numeral_value(decimal(n).drop_last()) * 10 + last);
        assert((n / 10) * 10 + n % 10 == n) by (nonlinear_arith);
        let d = decimal(n / 10);
        assert(decimal(n).drop_last() =~= d);
        assert(decimal(n)[0] == d[0]);
        assert forall|i: int| 0 <= i < decimal(n).len() implies 48 <= #[trigger] (decimal(n)[i] as int) <= 57 by {
            if i < d.len() {
                assert(decimal(n)[i] == d[i]);
            }
        }
    } else {
        assert(decimal(n).drop_last() =~= Seq::<char>::empty());
        assert(numeral_value(decimal(n)) == numeral_value(Seq::<char>::empty()) * 10 + last);
    }
}

fn digit_text(d: u32) -> (t: &'static str)
    requires
        d < 10,
    ensures
        t@ == seq![digit_char(d as int)],
        t@.len() == 1 && t@[0] as int == 48 + d,
{
    proof {
        reveal_strlit("0");
        reveal_strlit("1");
        reveal_strlit("2");
        reveal_strlit("3");
        reveal_strlit("4");
        reveal_strlit("5");
        reveal_strlit("6");
        reveal_strlit("7");
        reveal_strlit("8");
        reveal_strlit("9");
        assert(digit_char(d as int) as int == 48 + d);
    }
    match d {
        0 => "0",
        1 => "1",
        2 => "2",
        3 => "3",
        4 => "4",
        5 => "5",
        6 => "6",
        7 => "7",
        8 => "8",
        _ => "9",
    }
}

/// Appends the decimal text of `n` to `out`.
pub fn push_decimal(out: &mut String, n: u32)
    ensures
        final(out)@ == old(out)@ + decimal(n as nat),
        final(out)@.subrange(0, old(out)@.len() as int) == old(out)@,
        numeral_value(final(out)@.skip(old(out)@.len() as int)) == n,
    decreases n,
{
    if n >= 10 {
        push_decimal(out, n / 10);
    }
    out.append(digit_text(n % 10));
    proof {
        decimal_reads_back(n as nat);
        assert(out@.skip(old(out)@.len() as int) =~= decimal(n as nat));
        assert(out@.subrange(0, old(out)@.len() as int) =~= old(out)@);
        if n >= 10 {
            assert(decimal(n as nat) == decimal((n / 10) as nat).push(digit_char((n % 10) as int)));
        }
    }
}

/// The settings read from the environment (variables with prefix `APP_`).
#[derive(Debug, Clone)]
pub struct Configure {
    pub host: String,
    pub port: u32,
    pub mongo_db_url: String,
    pub postgres_db_url: String,
}

impl Configure {
    /// The address to listen on: the host, a colon, and the port in decimal.
    pub fn listener(&self) -> (addr: String)
        ensures
            addr@ == self.host@ + ":"@ + decimal(self.port as nat),
            addr@.subrange(0, self.host@.len() as int) == self.host@,
            addr@[self.host@.len() as int] == ':',
            numeral_value(addr@.skip(self.host@.len() as int + 1)) == self.port,
    {
        let mut addr = self.host.clone();
        addr.append(":");
        push_decimal(&mut addr, self.port);
        proof {
            reveal_strlit(":");
            decimal_reads_back(self.port as nat);
            assert(addr@.skip(self.host@.len() as int + 1) =~= decimal(self.port as nat));
            assert(addr@.subrange(0, self.host@.len() as int) =~= self.host@);
        }
        addr
    }
}

} // verus!
