//! Random, human-readable task names of the form `<Adjective><Noun><Number>`.

use vstd::prelude::*;
use vstd::string::StringExecFns;

verus! {

/// How many adjectives there are to choose from.
pub const ADJECTIVE_COUNT: usize = 5;

/// How many nouns there are to choose from.
pub const NOUN_COUNT: usize = 5;

/// The number at the end of a name is below this bound.
pub const NUMBER_BOUND: usize = 1000;

/// The adjectives a name may start with.
pub open spec fn adjectives() -> Seq<Seq<char>> {
    seq!["Quick"@, "Lazy"@, "Sleepy"@, "Noisy"@, "Hungry"@]
}

/// The nouns a name may carry after its adjective.
pub open spec fn nouns() -> Seq<Seq<char>> {
    seq!["Fox"@, "Dog"@, "Cat"@, "Mouse"@, "Bear"@]
}

/// The character of a decimal digit.
pub open spec fn digit_char(d: nat) -> char
    recommends
        d < 10,
{
    seq!['0', '1', '2', '3', '4', '5', '6', '7', '8', '9'][d as int]
}

/// The decimal representation of `n`, without sign or leading zeros.
pub open spec fn decimal(n: nat) -> Seq<char>
    decreases n,
{
    if n < 10 {
        seq![digit_char(n)]
    } else {
        decimal(n / 10).push(digit_char(n % 10))
    }
}

/// The name made of the adjective at `a`, the noun at `b` and the number `k`.
pub open spec fn name_of(a: int, b: int, k: nat) -> Seq<char> {
    adjectives()[a] + nouns()[b] + decimal(k)
}

/// Whether `s` is a task name: one of the adjectives, one of the nouns and a
/// number below `NUMBER_BOUND`, with no separators.
pub open spec fn is_task_name(s: Seq<char>) -> bool {
    exists|a: int, b: int, k: nat|
        0 <= a < ADJECTIVE_COUNT && 0 <= b < NOUN_COUNT && k < NUMBER_BOUND && #[trigger] name_of(
            a,
            b,
            k,
        ) == s
}

/// The adjective at `i`.
pub fn adjective(i: usize) -> (r: &'static str)
    requires
        i < ADJECTIVE_COUNT,
    ensures
        r@ == adjectives()[i as int],
{
    match i {
        0 => "Quick",
        1 => "Lazy",
        2 => "Sleepy",
        3 => "Noisy",
        _ => "Hungry",
    }
}

/// The noun at `i`.
pub fn noun(i: usize) -> (r: &'static str)
    requires
        i < NOUN_COUNT,
    ensures
        r@ == nouns()[i as int],
{
    match i {
        0 => "Fox",
        1 => "Dog",
        2 => "Cat",
        3 => "Mouse",
        _ => "Bear",
    }
}

fn digit(d: usize) -> (r: &'static str)
    requires
        d < 10,
    ensures
        r@ == seq![digit_char(d as nat)],
{
    proof {
        reveal_strlit("0");
        reveal_strlit("1");
        reveal_strlit("2");
        reveal_strlit("3");
        reveal_strlit("4");
        reveal_strlit("5");
        reveal_strlit("6");
        reveal_strlit("7");
        reveal_strlit("8");
        reveal_strlit("9");
    }
    let r = match d {
        0 => "0",
        1 => "1",
        2 => "2",
        3 => "3",
        4 => "4",
        5 => "5",
        6 => "6",
        7 => "7",
        8 => "8",
        _ => "9",
    };
    assert(r@ =~= seq![digit_char(d as nat)]);
    r
}

/// Appends the decimal representation of `n` to `s`.
fn push_decimal(s: &mut String, n: usize)
    ensures
        final(s)@ == old(s)@ + decimal(n as nat),
    decreases n,
{
    if n < 10 {
        s.append(digit(n));
    } else {
        push_decimal(s, n / 10);
        s.append(digit(n % 10));
        assert(decimal(n as nat) == decimal((n / 10) as nat).push(digit_char((n % 10) as nat)));
        assert(final(s)@ =~= old(s)@ + decimal(n as nat));
    }
}

/// The task name made of the adjective at `a`, the noun at `b` and `number`.
pub fn task_name(a: usize, b: usize, number: usize) -> (r: String)
    requires
        a < ADJECTIVE_COUNT,
        b < NOUN_COUNT,
    ensures
        r@ == name_of(a as int, b as int, number as nat),
{
    let mut s = String::from_str(adjective(a));
    s.append(noun(b));
    push_decimal(&mut s, number);
    s
}

/// Relies on rand::Rng::random_range over the thread-local generator
/// (`rand::rng()`): for a non-empty range `0..n` it returns a value in that
/// range, and it panics only on an empty range.
#[verifier::external_body]
fn random_below(n: usize) -> (r: usize)
    requires
        n > 0,
    ensures
        r < n,
{
    rand::Rng::random_range(&mut rand::rng(), 0..n)
}

/// Generates a fresh task name, drawing the adjective, the noun and the number
/// uniformly from the thread-local random generator.
pub fn generate_random_name() -> (r: String)
    ensures
        is_task_name(r@),
{
    let a = random_below(ADJECTIVE_COUNT);
    let b = random_below(NOUN_COUNT);
    let k = random_below(NUMBER_BOUND);
    let r = task_name(a, b, k);
    assert(name_of(a as int, b as int, k as nat) == r@);
    r
}

} // verus!
