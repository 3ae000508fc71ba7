//! Channel names and tokens.

use crate::types::{decimal, is_delimiter, key_of, lemma_delimiter, next_id, value_of, Token};
use vstd::prelude::*;

verus! {

/// A name with a `:` is its key, a `:` and its value, and the key holds no `:`; a name
/// without one has neither.
pub proof fn law_name_splits(name: Seq<char>)
    ensures
        match (key_of(name), value_of(name)) {
            (Some(key), Some(value)) => name == key + seq![':'] + value && !key.contains(':'),
            (None, None) => !name.contains(':'),
            _ => false,
        },
{
    if name.contains(':') {
        let i = lemma_first_colon(name);
        lemma_delimiter(name, i);
        assert(name =~= name.take(i) + seq![':'] + name.skip(i + 1));
    }
}

/// A key without a `:`, a `:` and any value make a name with that key and that value.
pub proof fn law_name_joins(key: Seq<char>, value: Seq<char>)
    requires
        !key.contains(':'),
    ensures
        key_of(key + seq![':'] + value) == Some(key),
        value_of(key + seq![':'] + value) == Some(value),
{
    let name = key + seq![':'] + value;
    let i = key.len() as int;
    assert(name.take(i) =~= key);
    assert(is_delimiter(name, i));
    lemma_delimiter(name, i);
    assert(name.skip(i + 1) =~= value);
}

proof fn lemma_first_colon(name: Seq<char>) -> (i: int)
    requires
        name.contains(':'),
    ensures
        is_delimiter(name, i),
    decreases name.len(),
{
    let last = name.len() - 1;
    if name.drop_last().contains(':') {
        let i = lemma_first_colon(name.drop_last());
        assert(name.drop_last().take(i) =~= name.take(i));
        i
    } else {
        let k = choose|k: int| 0 <= k < name.len() && name[k] == ':';
        if k < last {
            assert(name.drop_last()[k] == ':');
        }
        assert(name.take(last) =~= name.drop_last());
        last
    }
}

/// The number that a counter hands out after `n` others.
pub open spec fn nth_id(counter: usize, n: nat) -> usize
    decreases n,
{
    if n == 0 {
        counter
    } else {
        next_id(nth_id(counter, (n - 1) as nat))
    }
}

proof fn lemma_nth_id(counter: usize, n: nat)
    ensures
        nth_id(counter, n) == (counter + n) % (usize::MAX + 1),
    decreases n,
{
    if n > 0 {
        lemma_nth_id(counter, (n - 1) as nat);
        let modulus = usize::MAX + 1;
        let before = counter + n - 1;
        vstd::arithmetic::div_mod::lemma_add_mod_noop(before, 1, modulus);
        vstd::arithmetic::div_mod::lemma_small_mod(1nat, modulus as nat);
        if before % modulus == modulus - 1 {
            vstd::arithmetic::div_mod::lemma_mod_self_0(modulus);
        } else {
            vstd::arithmetic::div_mod::lemma_small_mod(
                (before % modulus + 1) as nat,
                modulus as nat,
            );
        }
    } else {
        vstd::arithmetic::div_mod::lemma_small_mod(counter as nat, (usize::MAX + 1) as nat);
    }
}

/// No two sockets get the same token, until all numbers have been handed out.
pub proof fn law_tokens_differ(counter: usize, i: nat, j: nat)
    requires
        i < j <= usize::MAX,
    ensures
        Token(nth_id(counter, i)) != Token(nth_id(counter, j)),
{
    lemma_nth_id(counter, i);
    lemma_nth_id(counter, j);
    let modulus = usize::MAX + 1;
    if nth_id(counter, i) == nth_id(counter, j) {
        vstd::arithmetic::div_mod::lemma_fundamental_div_mod(counter + i, modulus);
        vstd::arithmetic::div_mod::lemma_fundamental_div_mod(counter + j, modulus);
        let a = (counter + i) / modulus;
        let b = (counter + j) / modulus;
        assert(j - i == modulus * (b - a)) by (nonlinear_arith)
            requires
                counter + i == modulus * a + (counter + i) % modulus,
                counter + j == modulus * b + (counter + j) % modulus,
                (counter + i) % modulus == (counter + j) % modulus,
        ;
        assert(false) by (nonlinear_arith)
            requires
                j - i == modulus * (b - a),
                0 < j - i < modulus,
        ;
    }
}

/// A counter goes up by one, and from the largest number to zero.
pub proof fn law_counter_goes_up(counter: usize)
    ensures
        counter < usize::MAX ==> next_id(counter) == counter + 1,
        next_id(usize::MAX) == 0,
{
}

/// The number that a text of digits stands for.
pub open spec fn number(digits: Seq<char>) -> int
    decreases digits.len(),
{
    if digits.len() == 0 {
        0
    } else {
        10 * number(digits.drop_last()) + (digits.last() as u32 - '0' as u32)
    }
}

/// The digits of a number stand for that number; they are digits and nothing else, and the
/// first is no zero unless it is the only one.
pub proof fn law_digits_stand_for_the_number(n: nat)
    ensures
        number(decimal(n)) == n,
        decimal(n).len() > 0,
        decimal(n).len() > 1 ==> decimal(n)[0] != '0',
        n > 0 ==> decimal(n)[0] != '0',
        forall|i: int| 0 <= i < decimal(n).len() ==> '0' as u32 <= #[trigger] decimal(n)[i] as u32
            <= '9' as u32,
    decreases n,
{
    if n < 10 {
        assert(decimal(n).drop_last() =~= Seq::<char>::empty());
        reveal_with_fuel(number, 2);
    } else {
        law_digits_stand_for_the_number(n / 10);
        assert(decimal(n).drop_last() =~= decimal(n / 10));
    }
}

} // verus!
