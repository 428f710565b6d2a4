use vstd::prelude::*;
use vstd::arithmetic::div_mod::lemma_fundamental_div_mod;
use vstd::arithmetic::div_mod::lemma_fundamental_div_mod_converse_div;
use vstd::arithmetic::div_mod::lemma_fundamental_div_mod_converse_mod;
use vstd::arithmetic::div_mod::lemma_mod_multiples_vanish;

verus! {

/// Day of the week of the instant `t` (seconds since the Unix epoch), in a
/// Monday-first numbering: Monday = 1 through Sunday = 7. Days are the
/// 86400-second intervals of the continuous UTC timeline, and the epoch day,
/// 1970-01-01, was a Thursday (4).
pub open spec fn spec_weekday_from_monday(t: int) -> int {
    (t / 86400 + 3) % 7 + 1
}

/// Saturday (6) or Sunday (7).
pub open spec fn is_weekend(t: int) -> bool {
    spec_weekday_from_monday(t) == 6 || spec_weekday_from_monday(t) == 7
}

/// Compute the Monday-first weekday number of `t`, seconds since the Unix epoch.
pub fn weekday_from_monday(t: i64) -> (r: u8)
    ensures
        r as int == spec_weekday_from_monday(t as int),
        1 <= r <= 7,
{
    let nn: u64 = if t >= 0 {
        (t as u64) % 604800
    } else {
        let u: u64 = (-(t + 1)) as u64;
        604799 - (u % 604800)
    };
    let day_index: u64 = nn / 86400;
    let w: u64 = (day_index + 3) % 7 + 1;
    proof {
        let ti: int = t as int;
        let nni: int = nn as int;
        // First: nn is t reduced to its position inside a 604800-second week.
        if t < 0 {
            let ui: int = -ti - 1;
            lemma_fundamental_div_mod(ui, 604800);
            let q: int = ui / 604800;
            let v: int = ui % 604800;
            assert(ti == (-q - 1) * 604800 + nni) by {
                assert(ui == 604800 * q + v);
                assert(nni == 604799 - v);
            };
            lemma_fundamental_div_mod_converse_mod(ti, 604800, -q - 1, nni);
        }
        assert(nni == ti % 604800);
        // Split t into whole weeks plus nn, and nn into whole days plus rr.
        lemma_fundamental_div_mod(ti, 604800);
        let m: int = ti / 604800;
        lemma_fundamental_div_mod(nni, 86400);
        let d: int = nni / 86400;
        let rr: int = nni % 86400;
        assert(ti == (7 * m + d) * 86400 + rr) by {
            assert(ti == 604800 * m + nni);
            assert(nni == 86400 * d + rr);
        };
        lemma_fundamental_div_mod_converse_div(ti, 86400, 7 * m + d, rr);
        // A whole number of weeks never moves the weekday.
        lemma_mod_multiples_vanish(m, d + 3, 7);
        assert((7 * m + (d + 3)) % 7 == (d + 3) % 7);
        assert(ti / 86400 + 3 == 7 * m + (d + 3));
        assert(day_index as int == d);
        assert(w as int == (d + 3) % 7 + 1);
    }
    w as u8
}

/// Decide whether `t` falls on a Saturday or Sunday.
pub fn is_weekend_day(t: i64) -> (r: bool)
    ensures
        r == is_weekend(t as int),
{
    let w: u8 = weekday_from_monday(t);
    w == 6 || w == 7
}

} // verus!
