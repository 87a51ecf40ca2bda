use vstd::prelude::*;
use vstd::string::StringExecFns;
use crate::grid::Direction;

verus! {

/// The character of the decimal digit `d`.
pub open spec fn digit_char(d: nat) -> char {
    if d == 0 { '0' }
    else if d == 1 { '1' }
    else if d == 2 { '2' }
    else if d == 3 { '3' }
    else if d == 4 { '4' }
    else if d == 5 { '5' }
    else if d == 6 { '6' }
    else if d == 7 { '7' }
    else if d == 8 { '8' }
    else { '9' }
}

/// The decimal digits of `n`, most significant first, without leading zeros.
pub open spec fn decimal(n: nat) -> Seq<char>
    decreases n,
{
    if n < 10 {
        seq![digit_char(n)]
    } else {
        decimal(n / 10).push(digit_char(n % 10))
    }
}

/// The one-character string of the decimal digit `d`.
fn digit_str(d: u64) -> (r: &'static str)
    requires
        d < 10,
    ensures
        r@ == seq![digit_char(d as nat)],
{
    proof {
        reveal_strlit("0");
        reveal_strlit("1");
        reveal_strlit("2");
        reveal_strlit("3");
        reveal_strlit("4");
        reveal_strlit("5");
        reveal_strlit("6");
        reveal_strlit("7");
        reveal_strlit("8");
        reveal_strlit("9");
    }
    if d == 0 { "0" }
    else if d == 1 { "1" }
    else if d == 2 { "2" }
    else if d == 3 { "3" }
    else if d == 4 { "4" }
    else if d == 5 { "5" }
    else if d == 6 { "6" }
    else if d == 7 { "7" }
    else if d == 8 { "8" }
    else { "9" }
}

/// Appends the decimal digits of `n` to `s`.
pub fn push_decimal(s: &mut String, n: u64)
    ensures
        final(s)@ == old(s)@ + decimal(n as nat),
    decreases n,
{
    if n >= 10 {
        push_decimal(s, n / 10);
    }
    s.append(digit_str(n % 10));
    assert(final(s)@ =~= old(s)@ + decimal(n as nat));
}

/// The name a direction is shown by.
pub open spec fn direction_name_spec(d: Direction) -> Seq<char> {
    match d {
        Direction::Up => "Up"@,
        Direction::Down => "Down"@,
        Direction::Left => "Left"@,
        Direction::Right => "Right"@,
        Direction::Stop => "Stop"@,
    }
}

/// Executable form of [`direction_name_spec`].
pub fn direction_name(d: &Direction) -> (r: &'static str)
    ensures
        r@ == direction_name_spec(*d),
{
    match d {
        Direction::Up => "Up",
        Direction::Down => "Down",
        Direction::Left => "Left",
        Direction::Right => "Right",
        Direction::Stop => "Stop",
    }
}

/// The status line drawn in row 0 while playing.
pub open spec fn status_line_spec(score: nat) -> Seq<char> {
    "Score: "@ + decimal(score) + " | Press 'q' to exit | 'wasd' to move"@
}

/// Executable form of [`status_line_spec`].
pub fn status_line(score: u64) -> (r: String)
    ensures
        r@ == status_line_spec(score as nat),
{
    let mut s = String::from_str("Score: ");
    push_decimal(&mut s, score);
    s.append(" | Press 'q' to exit | 'wasd' to move");
    s
}

/// The line shown once the game is over.
pub open spec fn end_screen_spec(score: nat) -> Seq<char> {
    "Game Over | Final Score: "@ + decimal(score) + " | 'n' to start a new game | 'q' to quit"@
}

/// Executable form of [`end_screen_spec`].
pub fn end_screen_text(score: u64) -> (r: String)
    ensures
        r@ == end_screen_spec(score as nat),
{
    let mut s = String::from_str("Game Over | Final Score: ");
    push_decimal(&mut s, score);
    s.append(" | 'n' to start a new game | 'q' to quit");
    s
}

/// The developer overlay: the head's cell, the field's size and the direction.
pub open spec fn debug_info_spec(w: nat, h: nat, scene_w: nat, scene_h: nat, dir: Direction) -> Seq<char> {
    "| Debug Info: | Width: "@ + decimal(w) + " | Heigth: "@ + decimal(h) + " | Scene: "@
        + decimal(scene_w) + ", "@ + decimal(scene_h) + ", | Direction: "@
        + direction_name_spec(dir)
}

/// Executable form of [`debug_info_spec`].
pub fn print_debug_info(w: usize, h: usize, scene_w: usize, scene_h: usize, dir: &Direction) -> (r: String)
    ensures
        r@ == debug_info_spec(w as nat, h as nat, scene_w as nat, scene_h as nat, *dir),
{
    let mut s = String::from_str("| Debug Info: | Width: ");
    push_decimal(&mut s, w as u64);
    s.append(" | Heigth: ");
    push_decimal(&mut s, h as u64);
    s.append(" | Scene: ");
    push_decimal(&mut s, scene_w as u64);
    s.append(", ");
    push_decimal(&mut s, scene_h as u64);
    s.append(", | Direction: ");
    s.append(direction_name(dir));
    s
}

} // verus!
