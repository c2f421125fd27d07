//! Text building blocks: the order in which names are listed, and decimal numerals.

use vstd::prelude::*;
use vstd::std_specs::iter::IteratorSpec;
use vstd::string::*;

verus! {

/// `k` is a position at which `a` is decided to come before `b`: the two agree on
/// everything before `k`, and at `k` either `a` has ended while `b` goes on, or
/// `a` holds the smaller code point.
pub open spec fn decides_before(a: Seq<char>, b: Seq<char>, k: int) -> bool {
    &&& 0 <= k <= a.len()
    &&& k < b.len()
    &&& forall|i: int| 0 <= i < k ==> a[i] == b[i]
    &&& k < a.len() ==> (a[k] as u32) < (b[k] as u32)
}

/// The lexicographic order on names, by code point. A proper prefix comes before
/// every one of its extensions.
pub open spec fn name_lt(a: Seq<char>, b: Seq<char>) -> bool {
    exists|k: int| decides_before(a, b, k)
}

/// A sequence of names is strictly ascending: every name comes before all later ones.
pub open spec fn ascending(names: Seq<Seq<char>>) -> bool {
    forall|i: int, j: int| 0 <= i < j < names.len() ==> name_lt(#[trigger] names[i], #[trigger] names[j])
}

/// No name comes before itself.
pub proof fn lemma_name_lt_irreflexive(a: Seq<char>)
    ensures
        !name_lt(a, a),
{
}

/// Of two names at most one comes before the other.
pub proof fn lemma_name_lt_asymmetric(a: Seq<char>, b: Seq<char>)
    requires
        name_lt(a, b),
    ensures
        !name_lt(b, a),
        a != b,
{
    let k = choose|k: int| decides_before(a, b, k);
    if name_lt(b, a) {
        let j = choose|j: int| decides_before(b, a, j);
        if j < k {
            assert(a[j] == b[j]);
        } else if j > k {
            assert(b[k] == a[k]);
        }
    }
}

/// The order on names is transitive.
pub proof fn lemma_name_lt_transitive(a: Seq<char>, b: Seq<char>, c: Seq<char>)
    requires
        name_lt(a, b),
        name_lt(b, c),
    ensures
        name_lt(a, c),
{
    let k1 = choose|k: int| decides_before(a, b, k);
    let k2 = choose|k: int| decides_before(b, c, k);
    let k = if k1 <= k2 { k1 } else { k2 };
    assert forall|i: int| 0 <= i < k implies a[i] == c[i] by {
        assert(a[i] == b[i]);
        assert(b[i] == c[i]);
    }
    if k < a.len() {
        if k1 < k2 {
            assert(b[k] == c[k]);
        } else if k2 < k1 {
            assert(a[k] == b[k]);
        }
    }
    assert(decides_before(a, c, k));
}

/// How one name stands to another in the listing order.
#[derive(Clone, Copy, Debug, PartialEq, Eq, Structural)]
pub enum NameOrder {
    Before,
    Same,
    After,
}

/// Compares two characters by code point.
pub fn char_order(c: char, d: char) -> (o: NameOrder)
    ensures
        o == NameOrder::Before <==> (c as u32) < (d as u32),
        o == NameOrder::Same <==> c == d,
        o == NameOrder::After <==> (d as u32) < (c as u32),
{
    if c == d {
        NameOrder::Same
    } else if (c as u32) < (d as u32) {
        NameOrder::Before
    } else {
        NameOrder::After
    }
}

/// Compares two names by code point, in one pass over both.
pub fn name_order(a: &str, b: &str) -> (o: NameOrder)
    ensures
        o == NameOrder::Before <==> name_lt(a@, b@),
        o == NameOrder::Same <==> a@ == b@,
        o == NameOrder::After <==> name_lt(b@, a@),
{
    let mut rest_a = a.chars();
    let mut rest_b = b.chars();
    let ghost mut k: int = 0;
    loop
        invariant
            0 <= k <= a@.len(),
            k <= b@.len(),
            rest_a.remaining() == a@.skip(k),
            rest_b.remaining() == b@.skip(k),
            forall|i: int| 0 <= i < k ==> a@[i] == b@[i],
        decreases a@.len() - k,
    {
        let x: Option<char> = rest_a.next();
        let y: Option<char> = rest_b.next();
        if x.is_none() {
            if y.is_none() {
                proof {
                    assert(a@ =~= b@);
                    lemma_name_lt_irreflexive(a@);
                }
                return NameOrder::Same;
            }
            proof {
                assert(decides_before(a@, b@, k));
                lemma_name_lt_asymmetric(a@, b@);
            }
            return NameOrder::Before;
        }
        if y.is_none() {
            proof {
                assert(decides_before(b@, a@, k));
                lemma_name_lt_asymmetric(b@, a@);
            }
            return NameOrder::After;
        }
        let c: char = x.unwrap();
        let d: char = y.unwrap();
        assert(c == a@[k] && d == b@[k]);
        match char_order(c, d) {
            NameOrder::Before => {
                proof {
                    assert(decides_before(a@, b@, k));
                    lemma_name_lt_asymmetric(a@, b@);
                }
                return NameOrder::Before;
            },
            NameOrder::After => {
                proof {
                    assert(decides_before(b@, a@, k));
                    lemma_name_lt_asymmetric(b@, a@);
                }
                return NameOrder::After;
            },
            NameOrder::Same => {},
        }
        proof {
            assert(a@.skip(k).drop_first() =~= a@.skip(k + 1));
            assert(b@.skip(k).drop_first() =~= b@.skip(k + 1));
            k = k + 1;
        }
    }
}

/// The character that writes the decimal digit `d`.
pub open spec fn digit(d: nat) -> char {
    if d == 0 {
        '0'
    } else if d == 1 {
        '1'
    } else if d == 2 {
        '2'
    } else if d == 3 {
        '3'
    } else if d == 4 {
        '4'
    } else if d == 5 {
        '5'
    } else if d == 6 {
        '6'
    } else if d == 7 {
        '7'
    } else if d == 8 {
        '8'
    } else {
        '9'
    }
}

/// The decimal numeral of a natural number, most significant digit first, with no
/// leading zero except for zero itself.
pub open spec fn natural_numeral(n: nat) -> Seq<char>
    decreases n,
{
    if n < 10 {
        seq![digit(n)]
    } else {
        natural_numeral(n / 10).push(digit(n % 10))
    }
}

/// The decimal numeral of an integer: a minus sign before the magnitude when negative.
pub open spec fn numeral(i: int) -> Seq<char> {
    if i < 0 {
        seq!['-'] + natural_numeral((-i) as nat)
    } else {
        natural_numeral(i as nat)
    }
}

fn digit_text(d: u64) -> (s: &'static str)
    requires
        d < 10,
    ensures
        s@ == seq![digit(d as nat)],
{
    proof {
        reveal_strlit("0");
        reveal_strlit("1");
        reveal_strlit("2");
        reveal_strlit("3");
        reveal_strlit("4");
        reveal_strlit("5");
        reveal_strlit("6");
        reveal_strlit("7");
        reveal_strlit("8");
        reveal_strlit("9");
    }
    let s: &'static str = if d == 0 {
        "0"
    } else if d == 1 {
        "1"
    } else if d == 2 {
        "2"
    } else if d == 3 {
        "3"
    } else if d == 4 {
        "4"
    } else if d == 5 {
        "5"
    } else if d == 6 {
        "6"
    } else if d == 7 {
        "7"
    } else if d == 8 {
        "8"
    } else {
        "9"
    };
    assert(s@ =~= seq![digit(d as nat)]);
    s
}

/// Writes a natural number in decimal.
pub fn natural_to_text(n: u64) -> (r: String)
    ensures
        r@ == natural_numeral(n as nat),
    decreases n,
{
    if n < 10 {
        String::from_str(digit_text(n))
    } else {
        let mut r: String = natural_to_text(n / 10);
        r.append(digit_text(n % 10));
        assert(r@ =~= natural_numeral((n / 10) as nat).push(digit((n % 10) as nat)));
        r
    }
}

/// Writes a signed integer in decimal.
pub fn integer_to_text(i: i32) -> (r: String)
    ensures
        r@ == numeral(i as int),
{
    if i < 0 {
        let magnitude: u64 = (0 - (i as i64)) as u64;
        let mut r: String = String::from_str("-");
        let digits: String = natural_to_text(magnitude);
        r.append(digits.as_str());
        proof {
            reveal_strlit("-");
            assert("-"@ =~= seq!['-']);
        }
        r
    } else {
        natural_to_text(i as u64)
    }
}

} // verus!
