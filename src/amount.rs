//! Rendering of smallest-unit amounts in the display unit.
use vstd::prelude::*;

verus! {

/// Smallest units in one display unit.
pub const UNITS_PER_COIN: u64 = 1_000_000_000;

/// Number of decimal places between the smallest unit and the display unit.
pub const DECIMALS: u64 = 9;

pub open spec fn digit_char(d: nat) -> char {
    if d == 0 { '0' }
    else if d == 1 { '1' }
    else if d == 2 { '2' }
    else if d == 3 { '3' }
    else if d == 4 { '4' }
    else if d == 5 { '5' }
    else if d == 6 { '6' }
    else if d == 7 { '7' }
    else if d == 8 { '8' }
    else { '9' }
}

/// Decimal digits of `n`, most significant first, without leading zeros.
pub open spec fn decimal(n: nat) -> Seq<char>
    decreases n,
{
    if n < 10 {
        seq![digit_char(n)]
    } else {
        decimal(n / 10).push(digit_char(n % 10))
    }
}

/// The lowest `width` decimal digits of `n`, zero-padded on the left.
pub open spec fn padded(n: nat, width: nat) -> Seq<char>
    decreases width,
{
    if width == 0 {
        Seq::empty()
    } else {
        padded(n / 10, (width - 1) as nat).push(digit_char(n % 10))
    }
}

/// `s` without its trailing zeros, keeping at least one character.
pub open spec fn trim_zeros(s: Seq<char>) -> Seq<char>
    decreases s.len(),
{
    if s.len() > 1 && s.last() == '0' {
        trim_zeros(s.drop_last())
    } else {
        s
    }
}

/// An amount of smallest units written in the display unit: the whole part,
/// a point, and the fraction without trailing zeros (at least one digit).
pub open spec fn coin_text(units: u64) -> Seq<char> {
    decimal((units / UNITS_PER_COIN) as nat) + seq!['.'] + trim_zeros(
        padded((units % UNITS_PER_COIN) as nat, DECIMALS as nat),
    )
}

fn digit_str(d: u64) -> (r: &'static str)
    requires
        d < 10,
    ensures
        r@ == seq![digit_char(d as nat)],
{
    proof {
        reveal_strlit("0");
        reveal_strlit("1");
        reveal_strlit("2");
        reveal_strlit("3");
        reveal_strlit("4");
        reveal_strlit("5");
        reveal_strlit("6");
        reveal_strlit("7");
        reveal_strlit("8");
        reveal_strlit("9");
    }
    if d == 0 { "0" }
    else if d == 1 { "1" }
    else if d == 2 { "2" }
    else if d == 3 { "3" }
    else if d == 4 { "4" }
    else if d == 5 { "5" }
    else if d == 6 { "6" }
    else if d == 7 { "7" }
    else if d == 8 { "8" }
    else { "9" }
}

/// Appends the digits `ds[lo..]`, last element first.
fn append_reversed(out: &mut String, ds: &Vec<u64>, lo: usize)
    requires
        lo <= ds@.len(),
        forall|i: int| 0 <= i < ds@.len() ==> ds@[i] < 10,
    ensures
        final(out)@ == old(out)@ + reversed_digits(ds@.subrange(lo as int, ds@.len() as int)),
{
    let ghost tail = ds@.subrange(lo as int, ds@.len() as int);
    let mut k: usize = ds.len();
    while k > lo
        invariant
            lo <= k <= ds@.len(),
            tail == ds@.subrange(lo as int, ds@.len() as int),
            forall|i: int| 0 <= i < ds@.len() ==> ds@[i] < 10,
            out@ == old(out)@ + reversed_digits(tail).subrange(0, ds@.len() - k),
        decreases k,
    {
        k = k - 1;
        let s = digit_str(ds[k]);
        out.append(s);
        assert(reversed_digits(tail).subrange(0, ds@.len() - k) =~= reversed_digits(tail).subrange(
            0,
            ds@.len() - k - 1,
        ).push(digit_char(ds@[k as int] as nat)));
    }
    assert(reversed_digits(tail).subrange(0, tail.len() as int) =~= reversed_digits(tail));
}

proof fn lemma_reversed_push(ds: Seq<u64>, d: u64)
    ensures
        reversed_digits(ds.push(d)) == seq![digit_char(d as nat)] + reversed_digits(ds),
{
    assert(reversed_digits(ds.push(d)) =~= seq![digit_char(d as nat)] + reversed_digits(ds));
}

/// Decimal digits of `n`, least significant first.
fn whole_digits(n: u64) -> (ds: Vec<u64>)
    ensures
        reversed_digits(ds@) == decimal(n as nat),
        forall|i: int| 0 <= i < ds@.len() ==> ds@[i] < 10,
{
    let mut ds: Vec<u64> = Vec::new();
    let mut m: u64 = n;
    loop
        invariant
            decimal(n as nat) == decimal(m as nat) + reversed_digits(ds@),
            forall|i: int| 0 <= i < ds@.len() ==> ds@[i] < 10,
        decreases m,
    {
        proof {
            lemma_reversed_push(ds@, m % 10);
        }
        ds.push(m % 10);
        if m < 10 {
            assert(decimal(n as nat) =~= reversed_digits(ds@));
            return ds;
        }
        assert(decimal(m as nat) == decimal((m / 10) as nat).push(digit_char((m % 10) as nat)));
        assert(decimal(n as nat) =~= decimal((m / 10) as nat) + reversed_digits(ds@));
        m = m / 10;
    }
}

/// The lowest `width` decimal digits of `n`, least significant first.
fn low_digits(n: u64, width: usize) -> (ds: Vec<u64>)
    ensures
        ds@.len() == width,
        reversed_digits(ds@) == padded(n as nat, width as nat),
        forall|i: int| 0 <= i < ds@.len() ==> ds@[i] < 10,
{
    let mut ds: Vec<u64> = Vec::new();
    let mut m: u64 = n;
    let mut k: usize = 0;
    while k < width
        invariant
            k <= width,
            ds@.len() == k,
            padded(n as nat, width as nat) == padded(m as nat, (width - k) as nat)
                + reversed_digits(ds@),
            forall|i: int| 0 <= i < ds@.len() ==> ds@[i] < 10,
        decreases width - k,
    {
        proof {
            lemma_reversed_push(ds@, m % 10);
        }
        assert(padded(m as nat, (width - k) as nat) == padded(
            (m / 10) as nat,
            (width - k - 1) as nat,
        ).push(digit_char((m % 10) as nat)));
        ds.push(m % 10);
        assert(padded(n as nat, width as nat) =~= padded((m / 10) as nat, (width - k - 1) as nat)
            + reversed_digits(ds@));
        m = m / 10;
        k = k + 1;
    }
    assert(padded(m as nat, 0) =~= Seq::<char>::empty());
    assert(padded(n as nat, width as nat) =~= reversed_digits(ds@));
    ds
}

/// Writes `n` in decimal.
pub fn decimal_text(n: u64) -> (r: String)
    ensures
        r@ == decimal(n as nat),
{
    let mut out = String::new();
    let ds = whole_digits(n);
    append_reversed(&mut out, &ds, 0);
    assert(ds@.subrange(0, ds@.len() as int) =~= ds@);
    out
}

/// Writes `units` smallest units in the display unit (`1500000000` as `1.5`).
pub fn coin_amount_text(units: u64) -> (r: String)
    ensures
        r@ == coin_text(units),
{
    let mut out = String::new();
    let whole = whole_digits(units / UNITS_PER_COIN);
    append_reversed(&mut out, &whole, 0);
    assert(whole@.subrange(0, whole@.len() as int) =~= whole@);
    proof {
        reveal_strlit(".");
    }
    out.append(".");
    let frac = low_digits(units % UNITS_PER_COIN, 9);
    let mut lo: usize = 0;
    assert(frac@.subrange(0, 9) =~= frac@);
    while lo < 8 && frac[lo] == 0
        invariant
            lo <= 8,
            frac@.len() == 9,
            forall|i: int| 0 <= i < frac@.len() ==> frac@[i] < 10,
            trim_zeros(reversed_digits(frac@)) == trim_zeros(
                reversed_digits(frac@.subrange(lo as int, 9)),
            ),
        decreases 8 - lo,
    {
        let ghost t = frac@.subrange(lo as int, 9);
        assert(t =~= frac@.subrange(lo as int + 1, 9).insert(0, frac@[lo as int]));
        assert(reversed_digits(t).drop_last() =~= reversed_digits(frac@.subrange(lo as int + 1, 9)));
        lo = lo + 1;
    }
    let ghost t = frac@.subrange(lo as int, 9);
    assert(reversed_digits(t).last() == digit_char(frac@[lo as int] as nat));
    append_reversed(&mut out, &frac, lo);
    out
}

/// The characters of the digits in `ds`, last element first.
pub open spec fn reversed_digits(ds: Seq<u64>) -> Seq<char> {
    Seq::new(ds.len(), |i: int| digit_char(ds[ds.len() - 1 - i] as nat))
}

} // verus!
