//! Application side of connections: echo generation for pending actions and
//! the decisions of the HTTP, webhook and OneBot 11 connections.
use vstd::prelude::*;

use crate::outside::random_below;


pub mod compat;
pub mod http;
pub mod webhook;

verus! {

/// The characters an action echo is made of.
pub const ACTION_ECHO_CHARSET: &'static str = "abcdefghijklmnopqrstuvwxyzABCDEFGHIJKLMNOPQRSTUVWXYZ0123456789";

/// How many random echoes are drawn before giving up; with echoes of eight
/// characters this is never reached in practice.
pub const ECHO_ATTEMPTS: u64 = 0xffff_ffff_ffff_ffff;

/// An echo of the given length made only of the echo characters.
pub open spec fn is_echo(e: Seq<char>, len: nat) -> bool {
    &&& e.len() == len
    &&& forall|i: int| 0 <= i < e.len() ==> ACTION_ECHO_CHARSET@.contains(#[trigger] e[i])
}

/// The echo that a sequence of draws spells: for each draw, the echo
/// character at that position.
pub open spec fn echo_of_draws(draws: Seq<usize>) -> Seq<char> {
    draws.map_values(|d: usize| ACTION_ECHO_CHARSET@[d as int])
}

/// The number of echo characters.
pub open spec fn echo_charset_len() -> nat {
    ACTION_ECHO_CHARSET@.len()
}

/// Spells the echo that a sequence of draws picks, each draw being a
/// position among the echo characters.
pub fn echo_from_draws(draws: &Vec<usize>) -> (e: String)
    requires
        forall|i: int| 0 <= i < draws@.len() ==> #[trigger] draws@[i] < echo_charset_len(),
    ensures
        e@ == echo_of_draws(draws@),
        is_echo(e@, draws@.len()),
{
    let charset = ACTION_ECHO_CHARSET;
    proof {
        reveal_strlit("abcdefghijklmnopqrstuvwxyzABCDEFGHIJKLMNOPQRSTUVWXYZ0123456789");
    }
    let mut e = String::new();
    let mut k: usize = 0;
    while k < draws.len()
        invariant
            k <= draws@.len(),
            charset@ == ACTION_ECHO_CHARSET@,
            charset@.len() == 62,
            forall|i: int| 0 <= i < draws@.len() ==> #[trigger] draws@[i] < echo_charset_len(),
            e@ == echo_of_draws(draws@.subrange(0, k as int)),
        decreases draws@.len() - k,
    {
        let idx = draws[k];
        let c = charset.substring_char(idx, idx + 1);
        let ghost before = e@;
        e.append(c);
        assert(e@ =~= echo_of_draws(draws@.subrange(0, k + 1))) by {
            assert(draws@.subrange(0, k + 1).drop_last() =~= draws@.subrange(0, k as int));
            assert(e@ == before + charset@.subrange(idx as int, idx + 1));
        }
        k = k + 1;
    }
    assert(draws@.subrange(0, draws@.len() as int) =~= draws@);
    assert forall|i: int| 0 <= i < e@.len() implies ACTION_ECHO_CHARSET@.contains(#[trigger] e@[i]) by {
        assert(e@[i] == ACTION_ECHO_CHARSET@[draws@[i] as int]);
    }
    e
}

/// A random echo of the given length: that many random positions among the
/// echo characters, spelt out.
pub fn random_echo(len: usize) -> (e: String)
    ensures
        is_echo(e@, len as nat),
{
    proof {
        reveal_strlit("abcdefghijklmnopqrstuvwxyzABCDEFGHIJKLMNOPQRSTUVWXYZ0123456789");
    }
    let n = ACTION_ECHO_CHARSET.unicode_len();
    assert(n == 62);
    let mut draws: Vec<usize> = Vec::new();
    let mut k: usize = 0;
    while k < len
        invariant
            k <= len,
            n == echo_charset_len(),
            n > 0,
            draws@.len() == k,
            forall|i: int| 0 <= i < draws@.len() ==> #[trigger] draws@[i] < echo_charset_len(),
        decreases len - k,
    {
        draws.push(random_below(n));
        k = k + 1;
    }
    echo_from_draws(&draws)
}

/// A drawn echo of the given length that `is_taken` reported taken.
pub open spec fn taken_draw<F: Fn(&str) -> bool>(is_taken: &F, d: Seq<char>, len: nat) -> bool {
    is_echo(d, len) && exists|s: &str| s@ == d && #[trigger] is_taken.ensures((s,), true)
}

/// Draws random echoes of the given length until one is not taken, asking
/// `is_taken` about each, and returns the first free one. It gives up with
/// `None` only after `ECHO_ATTEMPTS` draws that were all reported taken.
pub fn generate_echo<F: Fn(&str) -> bool>(len: usize, is_taken: &F) -> (r: Option<String>)
    requires
        forall|s: &str| #[trigger] is_taken.requires((s,)),
    ensures
        r matches Some(e) ==> is_echo(e@, len as nat) && exists|s: &str| s@ == e@ && is_taken.ensures((s,), false),
        r is None ==> exists|draws: Seq<Seq<char>>| draws.len() == ECHO_ATTEMPTS
            && forall|i: int| 0 <= i < draws.len() ==> taken_draw(is_taken, #[trigger] draws[i], len as nat),
{
    let mut attempts: u64 = ECHO_ATTEMPTS;
    let ghost mut draws: Seq<Seq<char>> = Seq::empty();
    while attempts > 0
        invariant
            forall|s: &str| #[trigger] is_taken.requires((s,)),
            draws.len() == ECHO_ATTEMPTS - attempts,
            forall|i: int| 0 <= i < draws.len() ==> taken_draw(is_taken, #[trigger] draws[i], len as nat),
        decreases attempts,
    {
        let e = random_echo(len);
        let s = e.as_str();
        let taken = is_taken(s);
        assert(s@ == e@);
        if !taken {
            return Some(e);
        }
        assert(taken_draw(is_taken, e@, len as nat));
        proof {
            draws = draws.push(e@);
        }
        attempts = attempts - 1;
    }
    assert(draws.len() == ECHO_ATTEMPTS);
    None
}

} // verus!
