//! Text in which every character has a color of its own, picked at random.

use colored::{Color, Colorize};
use rand::rngs::ThreadRng;
use rand::Rng;
use vstd::prelude::*;
use vstd::string::StringExecFns;

verus! {

/// The colors that a character can get.
#[derive(Clone, Copy, Debug, PartialEq, Eq, Structural)]
pub enum Tint {
    Red,
    Green,
    Yellow,
    Blue,
    Magenta,
    Cyan,
}

/// The number of the last tint, counting from 0.
pub const LAST_TINT: i32 = 5;

/// The tint for the number `roll`: the tints in their order for 0 and up,
/// and the last tint for every other number.
pub open spec fn tint_of(roll: int) -> Tint {
    if roll == 0 {
        Tint::Red
    } else if roll == 1 {
        Tint::Green
    } else if roll == 2 {
        Tint::Yellow
    } else if roll == 3 {
        Tint::Blue
    } else if roll == 4 {
        Tint::Magenta
    } else {
        Tint::Cyan
    }
}

/// The digits by which a terminal knows `tint` as a text color.
pub open spec fn tint_code(tint: Tint) -> Seq<char> {
    match tint {
        Tint::Red => seq!['3', '1'],
        Tint::Green => seq!['3', '2'],
        Tint::Yellow => seq!['3', '3'],
        Tint::Blue => seq!['3', '4'],
        Tint::Magenta => seq!['3', '5'],
        Tint::Cyan => seq!['3', '6'],
    }
}

/// The character `c` between the escape sequence that switches a terminal to
/// `tint` and the one that switches it back.
pub open spec fn painted(c: char, tint: Tint) -> Seq<char> {
    seq!['\x1b', '['] + tint_code(tint) + seq!['m', c, '\x1b', '[', '0', 'm']
}

/// Whether `piece` is the character `c`, bare or painted in some tint.
pub open spec fn shows(piece: Seq<char>, c: char) -> bool {
    piece == seq![c] || exists|tint: Tint| piece == painted(c, tint)
}

/// The first `upto` of `pieces`, one behind the other.
pub open spec fn joined(pieces: Seq<Seq<char>>, upto: int) -> Seq<char>
    decreases upto,
{
    if upto <= 0 {
        Seq::empty()
    } else {
        joined(pieces, upto - 1) + pieces[upto - 1]
    }
}

/// Whether `out` is `text` with every character bare or painted.
pub open spec fn colorful(text: Seq<char>, out: Seq<char>) -> bool {
    exists|pieces: Seq<Seq<char>>|
        {
            &&& pieces.len() == text.len()
            &&& forall|i: int| 0 <= i < text.len() ==> shows(#[trigger] pieces[i], text[i])
            &&& out == joined(pieces, pieces.len() as int)
        }
}

/// `rand::rngs::ThreadRng`, the handle to a thread's random number
/// generator. Nothing is known of what it holds.
#[verifier::external_type_specification]
#[verifier::external_body]
pub struct ExThreadRng(ThreadRng);

/// `rand::thread_rng`: the random number generator of the calling thread.
/// Nothing is claimed of it.
pub assume_specification[ rand::thread_rng ]() -> ThreadRng;

/// `Rng::gen_range` on the range from `low` to `high`, both included: the
/// number that comes back lies in that range. An empty range is left out, as
/// the call panics on it.
#[verifier::external_body]
fn pick(rng: &mut ThreadRng, low: i32, high: i32) -> (roll: i32)
    requires
        low <= high,
    ensures
        low <= roll <= high,
{
    rng.gen_range(low..=high)
}

/// `Colorize::color` on the text of one character, and the `to_string` of
/// what it gives. Whether colors are written at all is decided by the
/// terminal and the settings of the process: the result is the character
/// painted in `tint`, or the bare character.
#[verifier::external_body]
fn paint(c: char, tint: Tint) -> (piece: String)
    ensures
        piece@ == painted(c, tint) || piece@ == seq![c],
{
    let color = match tint {
        Tint::Red => Color::Red,
        Tint::Green => Color::Green,
        Tint::Yellow => Color::Yellow,
        Tint::Blue => Color::Blue,
        Tint::Magenta => Color::Magenta,
        Tint::Cyan => Color::Cyan,
    };
    c.to_string().color(color).to_string()
}

/// The tint for the number `roll`.
pub fn tint_for(roll: i32) -> (tint: Tint)
    ensures
        tint == tint_of(roll as int),
{
    match roll {
        0 => Tint::Red,
        1 => Tint::Green,
        2 => Tint::Yellow,
        3 => Tint::Blue,
        4 => Tint::Magenta,
        _ => Tint::Cyan,
    }
}

/// A tint picked at random: the tint for a number from 0 to the number of
/// the last tint. Any tint may come.
pub fn random_tint(rng: &mut ThreadRng) -> (tint: Tint)
    ensures
        exists|roll: int| 0 <= roll <= LAST_TINT && tint == tint_of(roll),
{
    tint_for(pick(rng, 0, LAST_TINT))
}

/// `text` with every character in a tint picked at random for it. Where the
/// terminal takes no colors the characters stay bare.
pub fn to_colorful_string(text: &str) -> (out: String)
    ensures
        colorful(text@, out@),
{
    let mut rng = rand::thread_rng();
    let mut out = String::new();
    let ghost mut pieces: Seq<Seq<char>> = Seq::empty();
    for c in it: text.chars()
        invariant
            it.seq() == text@,
            pieces.len() == it.index(),
            forall|i: int| 0 <= i < pieces.len() ==> shows(#[trigger] pieces[i], text@[i]),
            out@ == joined(pieces, pieces.len() as int),
    {
        let tint = random_tint(&mut rng);
        let piece = paint(c, tint);
        proof {
            let before = pieces;
            pieces = pieces.push(piece@);
            assert forall|k: int| 0 <= k <= before.len() implies joined(pieces, k) == joined(
                before,
                k,
            ) by {
                lemma_joined_prefix(before, pieces, k);
            }
        }
        out.append(piece.as_str());
    }
    out
}

/// What the first `upto` pieces give depends on those pieces alone.
proof fn lemma_joined_prefix(first: Seq<Seq<char>>, second: Seq<Seq<char>>, upto: int)
    requires
        0 <= upto <= first.len(),
        upto <= second.len(),
        forall|i: int| 0 <= i < upto ==> first[i] == second[i],
    ensures
        joined(first, upto) == joined(second, upto),
    decreases upto,
{
    if upto > 0 {
        lemma_joined_prefix(first, second, upto - 1);
    }
}

} // verus!
