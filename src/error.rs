use vstd::prelude::*;

verus! {

/// A failure of the session tool: a one-line message and the exit code that
/// the process ends with.
pub struct WemuxError {
    msg: String,
    code: i32,
}

impl WemuxError {
    pub closed spec fn spec_msg(&self) -> Seq<char> {
        self.msg@
    }

    pub closed spec fn spec_code(&self) -> i32 {
        self.code
    }

    pub fn new(msg: &str, code: i32) -> (r: Self)
        ensures
            r.spec_msg() == msg@,
            r.spec_code() == code,
    {
        WemuxError { msg: String::from_str(msg), code }
    }

    pub fn msg(&self) -> (r: String)
        ensures
            r@ == self.spec_msg(),
    {
        self.msg.clone()
    }

    pub fn code(&self) -> (r: i32)
        ensures
            r == self.spec_code(),
    {
        self.code
    }
}

/// The decimal digits, in order.
pub open spec fn digits() -> Seq<char> {
    "0123456789"@
}

/// Decimal notation of a natural number, without leading zeros.
pub open spec fn dec_nat(n: nat) -> Seq<char>
    decreases n,
{
    if n < 10 {
        digits().subrange(n as int, n as int + 1)
    } else {
        dec_nat(n / 10) + digits().subrange((n % 10) as int, (n % 10) as int + 1)
    }
}

/// Decimal notation of an integer, with a leading `-` when it is negative.
pub open spec fn dec_seq(n: int) -> Seq<char> {
    if n < 0 {
        "-"@ + dec_nat((-n) as nat)
    } else {
        dec_nat(n as nat)
    }
}

fn decimal_nat(n: u32) -> (r: String)
    ensures
        r@ == dec_nat(n as nat),
    decreases n,
{
    let ds = "0123456789";
    proof {
        reveal_strlit("0123456789");
    }
    if n < 10 {
        String::from_str(ds.substring_char(n as usize, n as usize + 1))
    } else {
        let d = (n % 10) as usize;
        let head = decimal_nat(n / 10);
        head.concat(ds.substring_char(d, d + 1))
    }
}

/// Renders an integer in decimal, as `{}` formatting does.
pub fn decimal(n: i32) -> (r: String)
    ensures
        r@ == dec_seq(n as int),
{
    if n < 0 {
        let m: u32 = if n == i32::MIN { 2147483648u32 } else { (-n) as u32 };
        String::from_str("-").concat(decimal_nat(m).as_str())
    } else {
        decimal_nat(n as u32)
    }
}

} // verus!
