use vstd::prelude::*;

verus! {

/// The character of the decimal digit `d`.
pub open spec fn digit_char(d: nat) -> char {
    (48 + d) as char
}

/// The decimal representation of `n`, most significant digit first, with no
/// leading zeros.
pub open spec fn decimal(n: nat) -> Seq<char>
    decreases n,
{
    if n < 10 {
        seq![digit_char(n)]
    } else {
        decimal(n / 10).push(digit_char(n % 10))
    }
}

/// The name given to a layer that is added when the stack holds `n` layers.
pub open spec fn spec_layer_name(n: nat) -> Seq<char> {
    "Layer "@ + decimal(n)
}

fn digit_str(d: usize) -> (r: &'static str)
    requires
        d < 10,
    ensures
        r@ == seq![digit_char(d as nat)],
{
    proof {
        reveal_strlit("0");
        reveal_strlit("1");
        reveal_strlit("2");
        reveal_strlit("3");
        reveal_strlit("4");
        reveal_strlit("5");
        reveal_strlit("6");
        reveal_strlit("7");
        reveal_strlit("8");
        reveal_strlit("9");
    }
    if d == 0 {
        "0"
    } else if d == 1 {
        "1"
    } else if d == 2 {
        "2"
    } else if d == 3 {
        "3"
    } else if d == 4 {
        "4"
    } else if d == 5 {
        "5"
    } else if d == 6 {
        "6"
    } else if d == 7 {
        "7"
    } else if d == 8 {
        "8"
    } else {
        "9"
    }
}

/// Appends the decimal representation of `n` to `s`.
pub fn push_decimal(s: &mut String, n: usize)
    ensures
        final(s)@ == old(s)@ + decimal(n as nat),
    decreases n,
{
    if n >= 10 {
        push_decimal(s, n / 10);
    }
    s.append(digit_str(n % 10));
    proof {
        if n >= 10 {
            assert(decimal(n as nat) == decimal((n / 10) as nat).push(digit_char((n % 10) as nat)));
        }
    }
}

/// The name of a layer added to a stack of `n` layers: "Layer " followed by
/// `n` in decimal.
pub fn layer_name(n: usize) -> (r: String)
    ensures
        r@ == spec_layer_name(n as nat),
{
    let mut s = String::from_str("Layer ");
    push_decimal(&mut s, n);
    s
}

/// The value of a string of decimal digits, read in base 10.
pub open spec fn base10_value(s: Seq<char>) -> int
    decreases s.len(),
{
    if s.len() == 0 {
        0
    } else {
        base10_value(s.drop_last()) * 10 + (s.last() as int - '0' as int)
    }
}

/// The decimal representation of `n` is a non-empty string of the
/// characters '0' to '9' that reads back, in base 10, as `n`; it starts
/// with '0' only for `n == 0`.
pub proof fn lemma_decimal_reads_back(n: nat)
    ensures
        decimal(n).len() >= 1,
        forall|i: int| 0 <= i < decimal(n).len() ==> '0' <= #[trigger] decimal(n)[i] <= '9',
        base10_value(decimal(n)) == n,
        n > 0 ==> decimal(n)[0] != '0',
    decreases n,
{
    assert('0' as int == 48);
    if n < 10 {
        assert(decimal(n).drop_last() =~= Seq::<char>::empty());
        assert(digit_char(n) as int == 48 + n);
        assert(base10_value(decimal(n)) == base10_value(decimal(n).drop_last()) * 10 + (
        decimal(n).last() as int - '0' as int));
    } else {
        let q = n / 10;
        let r = n % 10;
        assert(digit_char(r) as int == 48 + r);
        lemma_decimal_reads_back(q);
        let d = decimal(n);
        assert(d.drop_last() =~= decimal(q));
        assert(d.last() == digit_char(r));
        assert(base10_value(d) == base10_value(d.drop_last()) * 10 + (d.last() as int - '0' as int));
        assert(base10_value(d.drop_last()) == q);
        assert(n == q * 10 + r);
        assert(d[0] == decimal(q)[0]);
        assert forall|i: int| 0 <= i < d.len() implies '0' <= #[trigger] d[i] <= '9' by {
            if i < d.len() - 1 {
                assert(d[i] == decimal(q)[i]);
            }
        }
    }
}

/// The name of the layer added to a stack of `n` layers is "Layer " followed
/// by the decimal digits of `n`, which read back in base 10 as `n`; so layers
/// added at different counts get different names.
pub proof fn lemma_layer_name(n: nat, m: nat)
    ensures
        spec_layer_name(n).len() > 6,
        spec_layer_name(n).take(6) == "Layer "@,
        forall|i: int| 6 <= i < spec_layer_name(n).len() ==> '0' <= #[trigger] spec_layer_name(n)[i] <= '9',
        base10_value(spec_layer_name(n).skip(6)) == n,
        n != m ==> spec_layer_name(n) != spec_layer_name(m),
{
    reveal_strlit("Layer ");
    lemma_decimal_reads_back(n);
    lemma_decimal_reads_back(m);
    assert(spec_layer_name(n).take(6) =~= "Layer "@);
    assert(spec_layer_name(n).skip(6) =~= decimal(n));
    assert(spec_layer_name(m).skip(6) =~= decimal(m));
    assert forall|i: int| 6 <= i < spec_layer_name(n).len() implies '0' <= #[trigger] spec_layer_name(n)[i] <= '9' by {
        assert(spec_layer_name(n)[i] == decimal(n)[i - 6]);
    }
}

} // verus!
