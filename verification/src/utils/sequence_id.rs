//! Identifiers drawn from a counter and written in decimal.
//!
//! Two different counter values never give the same identifier, so a store
//! that draws all its identifiers from one generator never repeats one.

use vstd::prelude::*;
use vstd::string::StringExecFns;

verus! {

/// The character that stands for the digit `d`.
pub open spec fn digit_char(d: int) -> char {
    if d == 0 {
        '0'
    } else if d == 1 {
        '1'
    } else if d == 2 {
        '2'
    } else if d == 3 {
        '3'
    } else if d == 4 {
        '4'
    } else if d == 5 {
        '5'
    } else if d == 6 {
        '6'
    } else if d == 7 {
        '7'
    } else if d == 8 {
        '8'
    } else {
        '9'
    }
}

/// The decimal numeral of `n`, most significant digit first, without leading
/// zeros.
pub open spec fn decimal(n: nat) -> Seq<char>
    decreases n,
{
    if n < 10 {
        seq![digit_char(n as int)]
    } else {
        decimal(n / 10).push(digit_char((n % 10) as int))
    }
}

/// Different digits are written with different characters.
pub proof fn lemma_digit_char_injective(a: int, b: int)
    requires
        0 <= a < 10,
        0 <= b < 10,
        digit_char(a) == digit_char(b),
    ensures
        a == b,
{
}

/// A numeral has at least one digit, and exactly one only below ten.
pub proof fn lemma_decimal_len(n: nat)
    ensures
        decimal(n).len() >= 1,
        n >= 10 ==> decimal(n).len() >= 2,
    decreases n,
{
    if n >= 10 {
        lemma_decimal_len(n / 10);
    }
}

/// Different numbers have different numerals.
pub proof fn lemma_decimal_injective(a: nat, b: nat)
    requires
        decimal(a) == decimal(b),
    ensures
        a == b,
    decreases a,
{
    lemma_decimal_len(a);
    lemma_decimal_len(b);
    if a < 10 && b < 10 {
        assert(decimal(a)[0] == digit_char(a as int));
        assert(decimal(b)[0] == digit_char(b as int));
        lemma_digit_char_injective(a as int, b as int);
    } else if a >= 10 && b >= 10 {
        let pa = decimal(a / 10);
        let pb = decimal(b / 10);
        let da = digit_char((a % 10) as int);
        let db = digit_char((b % 10) as int);
        assert(pa.push(da).last() == da);
        assert(pb.push(db).last() == db);
        assert(pa.push(da).drop_last() =~= pa);
        assert(pb.push(db).drop_last() =~= pb);
        lemma_digit_char_injective((a % 10) as int, (b % 10) as int);
        lemma_decimal_injective(a / 10, b / 10);
    }
}

fn digit_str(d: u64) -> (s: &'static str)
    requires
        d < 10,
    ensures
        s@ == seq![digit_char(d as int)],
{
    proof {
        reveal_strlit("0");
        reveal_strlit("1");
        reveal_strlit("2");
        reveal_strlit("3");
        reveal_strlit("4");
        reveal_strlit("5");
        reveal_strlit("6");
        reveal_strlit("7");
        reveal_strlit("8");
        reveal_strlit("9");
    }
    let s = if d == 0 {
        "0"
    } else if d == 1 {
        "1"
    } else if d == 2 {
        "2"
    } else if d == 3 {
        "3"
    } else if d == 4 {
        "4"
    } else if d == 5 {
        "5"
    } else if d == 6 {
        "6"
    } else if d == 7 {
        "7"
    } else if d == 8 {
        "8"
    } else {
        "9"
    };
    assert(s@ =~= seq![digit_char(d as int)]);
    s
}

/// Writes `n` in decimal.
pub fn decimal_string(n: u64) -> (s: String)
    ensures
        s@ == decimal(n as nat),
    decreases n,
{
    if n < 10 {
        String::from_str(digit_str(n))
    } else {
        let mut s = decimal_string(n / 10);
        s.append(digit_str(n % 10));
        assert(s@ =~= decimal((n / 10) as nat).push(digit_char((n % 10) as int)));
        s
    }
}

/// A source of identifiers that never gives the same one twice.
pub struct SequenceId {
    next: u64,
}

impl SequenceId {
    /// How many identifiers have been handed out.
    pub closed spec fn issued(&self) -> nat {
        self.next as nat
    }

    /// Whether `id` is one of the identifiers handed out so far.
    pub open spec fn has_issued(&self, id: Seq<char>) -> bool {
        exists|k: nat| k < self.issued() && id == #[trigger] decimal(k)
    }

    /// A generator that has handed out nothing.
    pub fn new() -> (r: Self)
        ensures
            r.issued() == 0,
    {
        SequenceId { next: 0 }
    }

    /// A generator that counts as having handed out the first `count`
    /// identifiers: its next one is `count` in decimal.
    pub fn starting_at(count: u64) -> (r: Self)
        ensures
            r.issued() == count,
    {
        SequenceId { next: count }
    }

    /// Hands out the next identifier, or `None` once the counter is used up.
    pub fn fresh(&mut self) -> (r: Option<String>)
        ensures
            match r {
                Some(id) => {
                    &&& old(self).issued() < u64::MAX
                    &&& final(self).issued() == old(self).issued() + 1
                    &&& id@ == decimal(old(self).issued())
                    &&& !old(self).has_issued(id@)
                    &&& final(self).has_issued(id@)
                },
                None => {
                    &&& old(self).issued() == u64::MAX
                    &&& *final(self) == *old(self)
                },
            },
            forall|id: Seq<char>| old(self).has_issued(id) ==> final(self).has_issued(id),
    {
        if self.next == u64::MAX {
            return None;
        }
        let id = decimal_string(self.next);
        proof {
            let n = self.next as nat;
            assert forall|k: nat| k < n implies id@ != #[trigger] decimal(k) by {
                if id@ == decimal(k) {
                    lemma_decimal_injective(n, k);
                }
            }
        }
        self.next = self.next + 1;
        Some(id)
    }
}

} // verus!
