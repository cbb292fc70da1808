//! Construction of the metadata namespace's composite keys.
//!
//! A metadata entry is keyed by `"{dataset_identifier}:{version}"`. Only the
//! cache builds this string, from a structured (identifier, version) pair, so
//! the format cannot drift between writers and readers. Distinct pairs never
//! collide: the version's decimal digits contain no `':'`, so the last `':'`
//! of a key always separates the identifier from the version.

use vstd::prelude::*;
use vstd::string::StringExecFns;

verus! {

/// The decimal digit character for `d` (0 through 9).
pub open spec fn digit_char(d: nat) -> char {
    if d == 0 {
        '0'
    } else if d == 1 {
        '1'
    } else if d == 2 {
        '2'
    } else if d == 3 {
        '3'
    } else if d == 4 {
        '4'
    } else if d == 5 {
        '5'
    } else if d == 6 {
        '6'
    } else if d == 7 {
        '7'
    } else if d == 8 {
        '8'
    } else {
        '9'
    }
}

/// The decimal digits of `n`, most significant first, without leading zeros
/// (except for `n == 0`, which is the single digit `'0'`).
pub open spec fn decimal_digits(n: nat) -> Seq<char>
    decreases n,
{
    if n < 10 {
        seq![digit_char(n)]
    } else {
        decimal_digits(n / 10).push(digit_char(n % 10))
    }
}

/// The composite key of the metadata entry for `version` of the dataset named
/// by `dataset`.
pub open spec fn metadata_key_spec(dataset: Seq<char>, version: u64) -> Seq<char> {
    dataset + seq![':'] + decimal_digits(version as nat)
}

/// The decimal digits of a number are never empty and never contain `':'`.
pub proof fn lemma_decimal_digits_shape(n: nat)
    ensures
        decimal_digits(n).len() >= 1,
        forall|i: int|
            0 <= i < decimal_digits(n).len() ==> #[trigger] decimal_digits(n)[i] != ':',
    decreases n,
{
    if n >= 10 {
        lemma_decimal_digits_shape(n / 10);
    }
}

/// Decimal digit sequences identify their number: equal digits, equal number.
pub proof fn lemma_decimal_digits_injective(a: nat, b: nat)
    requires
        decimal_digits(a) == decimal_digits(b),
    ensures
        a == b,
    decreases a,
{
    lemma_decimal_digits_shape(a);
    lemma_decimal_digits_shape(b);
    if a < 10 && b < 10 {
        assert(seq![digit_char(a)][0] == digit_char(a));
        assert(seq![digit_char(b)][0] == digit_char(b));
        assert(decimal_digits(a)[0] == decimal_digits(b)[0]);
        assert(digit_char(a) == digit_char(b));
    } else if a < 10 {
        assert(decimal_digits(b).len() == decimal_digits(b / 10).len() + 1);
        lemma_decimal_digits_shape(b / 10);
        assert(false);
    } else if b < 10 {
        assert(decimal_digits(a).len() == decimal_digits(a / 10).len() + 1);
        lemma_decimal_digits_shape(a / 10);
        assert(false);
    } else {
        let da = decimal_digits(a / 10);
        let db = decimal_digits(b / 10);
        assert(da.push(digit_char(a % 10)).last() == digit_char(a % 10));
        assert(db.push(digit_char(b % 10)).last() == digit_char(b % 10));
        assert(digit_char(a % 10) == digit_char(b % 10));
        assert(a % 10 == b % 10);
        assert(da =~= db) by {
            assert(da.push(digit_char(a % 10)).drop_last() =~= da);
            assert(db.push(digit_char(b % 10)).drop_last() =~= db);
        }
        lemma_decimal_digits_injective(a / 10, b / 10);
        vstd::arithmetic::div_mod::lemma_fundamental_div_mod(a as int, 10);
        vstd::arithmetic::div_mod::lemma_fundamental_div_mod(b as int, 10);
    }
}

/// Composite metadata keys are collision-free: distinct (dataset, version)
/// pairs always format to distinct keys, because the version's digits hold no
/// `':'`, so the last `':'` of a key marks where the identifier ends.
pub proof fn lemma_metadata_key_injective(d1: Seq<char>, v1: u64, d2: Seq<char>, v2: u64)
    requires
        metadata_key_spec(d1, v1) == metadata_key_spec(d2, v2),
    ensures
        d1 == d2,
        v1 == v2,
{
    let k = metadata_key_spec(d1, v1);
    let s1 = decimal_digits(v1 as nat);
    let s2 = decimal_digits(v2 as nat);
    lemma_decimal_digits_shape(v1 as nat);
    lemma_decimal_digits_shape(v2 as nat);
    assert(k.len() == d1.len() + 1 + s1.len());
    assert(k.len() == d2.len() + 1 + s2.len());
    assert(k[d1.len() as int] == ':');
    assert(k[d2.len() as int] == ':');
    if d1.len() < d2.len() {
        // Index d2.len() of k lies inside v1's digits, which hold no ':'.
        assert(k[d2.len() as int] == s1[d2.len() - d1.len() - 1]);
        assert(false);
    }
    if d2.len() < d1.len() {
        assert(k[d1.len() as int] == s2[d1.len() - d2.len() - 1]);
        assert(false);
    }
    assert forall|i: int| 0 <= i < d1.len() implies d1[i] == d2[i] by {
        assert(k[i] == d1[i]);
        assert(k[i] == d2[i]);
    }
    assert(d1 =~= d2);
    assert forall|i: int| 0 <= i < s1.len() implies s1[i] == s2[i] by {
        assert(k[d1.len() + 1 + i] == s1[i]);
        assert(k[d2.len() + 1 + i] == s2[i]);
    }
    assert(s1 =~= s2);
    lemma_decimal_digits_injective(v1 as nat, v2 as nat);
}

/// The decimal digit of `d` as a one-character string slice.
fn digit_str(d: u64) -> (r: &'static str)
    requires
        d < 10,
    ensures
        r@ == seq![digit_char(d as nat)],
{
    proof {
        reveal_strlit("0");
        reveal_strlit("1");
        reveal_strlit("2");
        reveal_strlit("3");
        reveal_strlit("4");
        reveal_strlit("5");
        reveal_strlit("6");
        reveal_strlit("7");
        reveal_strlit("8");
        reveal_strlit("9");
    }
    if d == 0 {
        "0"
    } else if d == 1 {
        "1"
    } else if d == 2 {
        "2"
    } else if d == 3 {
        "3"
    } else if d == 4 {
        "4"
    } else if d == 5 {
        "5"
    } else if d == 6 {
        "6"
    } else if d == 7 {
        "7"
    } else if d == 8 {
        "8"
    } else {
        "9"
    }
}

/// `n` written in decimal.
fn format_u64(n: u64) -> (s: String)
    ensures
        s@ == decimal_digits(n as nat),
    decreases n,
{
    if n < 10 {
        digit_str(n).to_owned()
    } else {
        let mut s = format_u64(n / 10);
        s.append(digit_str(n % 10));
        proof {
            assert(s@ =~= decimal_digits(n as nat));
        }
        s
    }
}

/// The composite key for the metadata entry of `version` of `dataset`.
pub(crate) fn metadata_key(dataset: &str, version: u64) -> (s: String)
    ensures
        s@ == metadata_key_spec(dataset@, version),
{
    proof {
        reveal_strlit(":");
    }
    let mut s = dataset.to_owned();
    s.append(":");
    s.append(format_u64(version).as_str());
    proof {
        assert(s@ =~= metadata_key_spec(dataset@, version));
    }
    s
}

} // verus!
