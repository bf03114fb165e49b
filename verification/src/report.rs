//! Rendering positions as text for the debug key.
//!
//! Pressing the debug key prints one line per placed instance. The text
//! of each line is pinned down exactly: a decimal rendering of the three
//! fixed-point coordinates.

use vstd::prelude::*;
use vstd::string::StringExecFns;
use crate::input::Key;
use crate::scene::Placement;
use crate::units::Vec3Fixed;

verus! {

/// The character of one decimal digit.
pub open spec fn digit_char(d: int) -> char {
    if d == 0 {
        '0'
    } else if d == 1 {
        '1'
    } else if d == 2 {
        '2'
    } else if d == 3 {
        '3'
    } else if d == 4 {
        '4'
    } else if d == 5 {
        '5'
    } else if d == 6 {
        '6'
    } else if d == 7 {
        '7'
    } else if d == 8 {
        '8'
    } else {
        '9'
    }
}

/// The decimal digits of `n`, most significant first.
pub open spec fn dec_rep(n: nat) -> Seq<char>
    decreases n,
{
    if n < 10 {
        seq![digit_char(n as int)]
    } else {
        dec_rep(n / 10) + seq![digit_char((n % 10) as int)]
    }
}

/// The decimal text of `n`, with a leading minus sign when negative.
pub open spec fn int_rep(n: int) -> Seq<char> {
    if n >= 0 {
        dec_rep(n as nat)
    } else {
        seq!['-'] + dec_rep((-n) as nat)
    }
}

/// Appends the character of the digit `d` to `s`.
fn push_digit(s: &mut String, d: u64)
    requires
        d < 10,
    ensures
        final(s)@ == old(s)@ + seq![digit_char(d as int)],
{
    proof {
        reveal_strlit("0");
        reveal_strlit("1");
        reveal_strlit("2");
        reveal_strlit("3");
        reveal_strlit("4");
        reveal_strlit("5");
        reveal_strlit("6");
        reveal_strlit("7");
        reveal_strlit("8");
        reveal_strlit("9");
    }
    if d == 0 {
        s.append("0");
    } else if d == 1 {
        s.append("1");
    } else if d == 2 {
        s.append("2");
    } else if d == 3 {
        s.append("3");
    } else if d == 4 {
        s.append("4");
    } else if d == 5 {
        s.append("5");
    } else if d == 6 {
        s.append("6");
    } else if d == 7 {
        s.append("7");
    } else if d == 8 {
        s.append("8");
    } else {
        s.append("9");
    }
    proof {
        assert(s@ =~= old(s)@ + seq![digit_char(d as int)]);
    }
}

/// Renders `n` in decimal.
pub fn u64_to_decimal(n: u64) -> (s: String)
    ensures
        s@ == dec_rep(n as nat),
    decreases n,
{
    if n < 10 {
        let mut s = String::new();
        push_digit(&mut s, n);
        proof {
            assert(s@ =~= dec_rep(n as nat));
        }
        s
    } else {
        let mut s = u64_to_decimal(n / 10);
        push_digit(&mut s, n % 10);
        s
    }
}

/// Renders `n` in decimal, with a minus sign when negative.
pub fn i64_to_decimal(n: i64) -> (s: String)
    ensures
        s@ == int_rep(n as int),
{
    if n >= 0 {
        u64_to_decimal(n as u64)
    } else {
        let mag: u64 = if n == i64::MIN {
            9_223_372_036_854_775_808
        } else {
            (-n) as u64
        };
        let mut s = String::from_str("-");
        let digits = u64_to_decimal(mag);
        s.append(digits.as_str());
        proof {
            reveal_strlit("-");
            assert(s@ =~= int_rep(n as int));
        }
        s
    }
}

/// The text of one position: its three coordinates in thousandths,
/// comma-separated between parentheses.
pub open spec fn point_text(v: Vec3Fixed) -> Seq<char> {
    "("@ + int_rep(v.x_milli as int) + ", "@ + int_rep(v.y_milli as int) + ", "@ + int_rep(
        v.z_milli as int,
    ) + ")"@
}

/// Renders one position as its exact report line.
pub fn format_point(v: &Vec3Fixed) -> (s: String)
    ensures
        s@ == point_text(*v),
{
    let mut s = String::from_str("(");
    let x = i64_to_decimal(v.x_milli);
    s.append(x.as_str());
    s.append(", ");
    let y = i64_to_decimal(v.y_milli);
    s.append(y.as_str());
    s.append(", ");
    let z = i64_to_decimal(v.z_milli);
    s.append(z.as_str());
    s.append(")");
    proof {
        assert(s@ =~= point_text(*v));
    }
    s
}

/// The key whose press prints the placement report.
pub open spec fn spec_debug_key() -> Key {
    Key::Space
}

/// Returns the key whose press prints the placement report.
pub fn debug_key() -> (k: Key)
    ensures
        k == spec_debug_key(),
{
    Key::Space
}

/// What a key event prints: one line per placement when the debug key
/// was just pressed, nothing at all otherwise.
pub open spec fn spec_report_lines(key: Key, just_pressed: bool, ps: Seq<Placement>) -> Seq<
    Seq<char>,
> {
    if key == spec_debug_key() && just_pressed {
        ps.map_values(|p: Placement| point_text(p.position))
    } else {
        Seq::empty()
    }
}

/// A press of the debug key reports exactly one line per placement;
/// any other key event reports nothing.
pub proof fn lemma_report_line_count(key: Key, just_pressed: bool, ps: Seq<Placement>)
    ensures
        key == spec_debug_key() && just_pressed ==> spec_report_lines(
            key,
            just_pressed,
            ps,
        ).len() == ps.len(),
        !(key == spec_debug_key() && just_pressed) ==> spec_report_lines(
            key,
            just_pressed,
            ps,
        ).len() == 0,
{
}

/// Builds the lines a key event prints: one line per placement, in
/// placement order, when the debug key was just pressed; none otherwise.
pub fn report_on_key(key: Key, just_pressed: bool, placements: &Vec<Placement>) -> (lines: Vec<
    String,
>)
    ensures
        lines.deep_view() == spec_report_lines(key, just_pressed, placements@),
        lines@.len() == spec_report_lines(key, just_pressed, placements@).len(),
{
    let mut lines: Vec<String> = Vec::new();
    if matches!(key, Key::Space) && just_pressed {
        let mut idx: usize = 0;
        while idx < placements.len()
            invariant
                idx <= placements@.len(),
                lines@.len() == idx,
                forall|j: int|
                    0 <= j < idx ==> lines@[j]@ == point_text(placements@[j].position),
            decreases placements@.len() - idx,
        {
            let line = format_point(&placements[idx].position);
            lines.push(line);
            idx = idx + 1;
        }
        proof {
            assert(lines.deep_view() =~= spec_report_lines(key, just_pressed, placements@));
        }
    } else {
        proof {
            assert(lines.deep_view() =~= spec_report_lines(key, just_pressed, placements@));
        }
    }
    lines
}

} // verus!
