//! The two score counters and their display-only text projection.
//!
//! Counters start at zero and only ever grow, one per player. The
//! projection renders the score as `"<player_one> - <player_two>"` in
//! decimal; it reads the counters and owns nothing.

use vstd::prelude::*;
use vstd::string::StringExecFns;

verus! {

/// One counter per player, incremented by the ball's scoring step.
#[derive(Clone, Copy, PartialEq, Eq, Structural, Debug)]
pub struct Score {
    pub player_one: u32,
    pub player_two: u32,
}

impl Score {
    /// Both counters at zero, as at startup.
    pub fn new() -> (r: Score)
        ensures
            r == (Score { player_one: 0, player_two: 0 }),
    {
        Score { player_one: 0, player_two: 0 }
    }
}

impl Default for Score {
    /// Both counters at zero.
    fn default() -> (r: Score)
        ensures
            r == (Score { player_one: 0, player_two: 0 }),
    {
        Score { player_one: 0, player_two: 0 }
    }
}

/// The decimal digit character for `d` in `0..10`.
pub open spec fn digit_char(d: int) -> char {
    if d == 0 {
        '0'
    } else if d == 1 {
        '1'
    } else if d == 2 {
        '2'
    } else if d == 3 {
        '3'
    } else if d == 4 {
        '4'
    } else if d == 5 {
        '5'
    } else if d == 6 {
        '6'
    } else if d == 7 {
        '7'
    } else if d == 8 {
        '8'
    } else {
        '9'
    }
}

/// The decimal digit characters of `n`, most significant first, with
/// no leading zeros except for `n == 0` itself.
pub open spec fn dec_digits(n: int) -> Seq<char>
    decreases n,
{
    if n < 10 {
        seq![digit_char(n)]
    } else {
        dec_digits(n / 10).push(digit_char(n % 10))
    }
}

/// The score rendered as `"<player_one> - <player_two>"`.
pub open spec fn spec_score_text(s: Score) -> Seq<char> {
    dec_digits(s.player_one as int) + seq![' ', '-', ' '] + dec_digits(s.player_two as int)
}

/// The text projection is a pure function of the two counters: scores
/// with equal counters render as the same characters, however often
/// the projection is taken.
pub proof fn lemma_score_text_deterministic(a: Score, b: Score)
    requires
        a.player_one == b.player_one,
        a.player_two == b.player_two,
    ensures
        spec_score_text(a) == spec_score_text(b),
{
}

/// The one-character string for a decimal digit.
fn digit_str(d: u32) -> (s: &'static str)
    requires
        d < 10,
    ensures
        s@ == seq![digit_char(d as int)],
{
    match d {
        0 => {
            proof {
                reveal_strlit("0");
                assert("0"@ =~= seq![digit_char(0)]);
            }
            "0"
        },
        1 => {
            proof {
                reveal_strlit("1");
                assert("1"@ =~= seq![digit_char(1)]);
            }
            "1"
        },
        2 => {
            proof {
                reveal_strlit("2");
                assert("2"@ =~= seq![digit_char(2)]);
            }
            "2"
        },
        3 => {
            proof {
                reveal_strlit("3");
                assert("3"@ =~= seq![digit_char(3)]);
            }
            "3"
        },
        4 => {
            proof {
                reveal_strlit("4");
                assert("4"@ =~= seq![digit_char(4)]);
            }
            "4"
        },
        5 => {
            proof {
                reveal_strlit("5");
                assert("5"@ =~= seq![digit_char(5)]);
            }
            "5"
        },
        6 => {
            proof {
                reveal_strlit("6");
                assert("6"@ =~= seq![digit_char(6)]);
            }
            "6"
        },
        7 => {
            proof {
                reveal_strlit("7");
                assert("7"@ =~= seq![digit_char(7)]);
            }
            "7"
        },
        8 => {
            proof {
                reveal_strlit("8");
                assert("8"@ =~= seq![digit_char(8)]);
            }
            "8"
        },
        _ => {
            proof {
                reveal_strlit("9");
                assert("9"@ =~= seq![digit_char(9)]);
            }
            "9"
        },
    }
}

/// Renders `n` in decimal, digit by digit.
pub fn u32_to_string(n: u32) -> (s: String)
    ensures
        s@ == dec_digits(n as int),
    decreases n,
{
    if n < 10 {
        String::from_str(digit_str(n))
    } else {
        let mut s = u32_to_string(n / 10);
        s.append(digit_str(n % 10));
        proof {
            assert(s@ =~= dec_digits(n as int));
        }
        s
    }
}

/// The display projection: renders the score as
/// `"<player_one> - <player_two>"`, exactly `spec_score_text`.
pub fn score_text(score: &Score) -> (s: String)
    ensures
        s@ == spec_score_text(*score),
{
    let mut t = u32_to_string(score.player_one);
    t.append(" - ");
    let second = u32_to_string(score.player_two);
    t.append(second.as_str());
    proof {
        reveal_strlit(" - ");
        assert(" - "@ =~= seq![' ', '-', ' ']);
        assert(t@ =~= spec_score_text(*score));
    }
    t
}

} // verus!
