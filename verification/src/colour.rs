//! The colour setting: three numbers from 0 to 255, separated by commas, with
//! brackets and blanks allowed anywhere, as in `(88, 101, 242)`.

use vstd::prelude::*;
use serenity::model::Colour;
use crate::numbers::{chars_of, decimal, parse_decimal};

verus! {

/// Whether `c` is a bracket or a blank, which the setting may hold anywhere.
pub open spec fn is_padding(c: char) -> bool {
    c == '(' || c == ')' || c == ' '
}

/// `s` without its brackets and blanks.
pub open spec fn stripped(s: Seq<char>) -> Seq<char>
    decreases s.len(),
{
    if s.len() == 0 {
        Seq::empty()
    } else if is_padding(s.last()) {
        stripped(s.drop_last())
    } else {
        stripped(s.drop_last()).push(s.last())
    }
}

/// The pieces of `s` between its commas: one more than it has commas.
pub open spec fn fields(s: Seq<char>) -> Seq<Seq<char>>
    decreases s.len(),
{
    if s.len() == 0 {
        seq![Seq::<char>::empty()]
    } else {
        let before = fields(s.drop_last());
        if s.last() == ',' {
            before.push(Seq::empty())
        } else {
            before.drop_last().push(before.last().push(s.last()))
        }
    }
}

/// The value of one colour channel: a number up to 255.
pub open spec fn channel(field: Seq<char>) -> Option<nat> {
    decimal(field, 255)
}

/// The colour that a setting stands for: its first three fields, where it
/// has at least three and every field is a channel value.
pub open spec fn embed_color(s: Seq<char>) -> Option<(u8, u8, u8)> {
    let f = fields(stripped(s));
    if f.len() >= 3 && (forall|i: int| 0 <= i < f.len() ==> channel(#[trigger] f[i]) is Some) {
        Some(
            (
                channel(f[0])->Some_0 as u8,
                channel(f[1])->Some_0 as u8,
                channel(f[2])->Some_0 as u8,
            ),
        )
    } else {
        None
    }
}

/// The number of the colour with these channels: `0xRRGGBB`.
pub open spec fn rgb_number(rgb: (u8, u8, u8)) -> u32 {
    (rgb.0 as u32 * 65536 + rgb.1 as u32 * 256 + rgb.2 as u32) as u32
}

/// The views of a list of fields.
pub open spec fn views(list: Seq<Vec<char>>) -> Seq<Seq<char>> {
    Seq::new(list.len(), |i: int| list[i]@)
}

/// Calls `serenity::model::Colour::from_rgb` and takes the number that the
/// colour holds. Trusted: red fills bits 16 to 23, green bits 8 to 15 and
/// blue bits 0 to 7.
#[verifier::external_body]
fn colour_number(red: u8, green: u8, blue: u8) -> (number: u32)
    ensures
        number == rgb_number((red, green, blue)),
{
    Colour::from_rgb(red, green, blue).0
}

/// `chars` without its brackets and blanks.
fn strip(chars: &Vec<char>) -> (kept: Vec<char>)
    ensures
        kept@ == stripped(chars@),
{
    let mut kept: Vec<char> = Vec::new();
    let mut i: usize = 0;
    while i < chars.len()
        invariant
            i <= chars@.len(),
            kept@ == stripped(chars@.take(i as int)),
        decreases chars@.len() - i,
    {
        let c = chars[i];
        assert(chars@.take(i + 1).drop_last() == chars@.take(i as int));
        assert(chars@.take(i + 1).last() == c);
        if !(c == '(' || c == ')' || c == ' ') {
            kept.push(c);
        }
        i += 1;
    }
    assert(chars@.take(chars@.len() as int) == chars@);
    kept
}

/// The pieces of `chars` between its commas.
fn split(chars: &Vec<char>) -> (pieces: Vec<Vec<char>>)
    ensures
        views(pieces@) == fields(chars@),
{
    let mut pieces: Vec<Vec<char>> = Vec::new();
    let mut current: Vec<char> = Vec::new();
    let mut i: usize = 0;
    assert(views(pieces@).push(current@) =~= fields(chars@.take(0)));
    while i < chars.len()
        invariant
            i <= chars@.len(),
            views(pieces@).push(current@) == fields(chars@.take(i as int)),
        decreases chars@.len() - i,
    {
        let c = chars[i];
        let ghost before = fields(chars@.take(i as int));
        assert(chars@.take(i + 1).drop_last() == chars@.take(i as int));
        assert(chars@.take(i + 1).last() == c);
        assert(before.drop_last() =~= views(pieces@));
        assert(before.last() == current@);
        if c == ',' {
            pieces.push(current);
            current = Vec::new();
            assert(views(pieces@) =~= before);
        } else {
            current.push(c);
        }
        i += 1;
    }
    assert(chars@.take(chars@.len() as int) == chars@);
    let ghost earlier = views(pieces@);
    pieces.push(current);
    assert(views(pieces@) =~= earlier.push(current@));
    pieces
}

/// Reads the colour setting. `None` where it has fewer than three fields or
/// a field that is no number up to 255.
pub fn parse_embed_color(text: &str) -> (rgb: Option<(u8, u8, u8)>)
    ensures
        rgb == embed_color(text@),
{
    let chars = chars_of(text);
    let kept = strip(&chars);
    let pieces = split(&kept);
    let ghost f = fields(stripped(text@));
    let mut values: Vec<u8> = Vec::new();
    let mut i: usize = 0;
    while i < pieces.len()
        invariant
            i <= pieces@.len(),
            f == views(pieces@),
            f == fields(stripped(text@)),
            values@.len() == i,
            forall|j: int| 0 <= j < i ==> channel(#[trigger] f[j]) == Some(values@[j] as nat),
        decreases pieces@.len() - i,
    {
        assert(f[i as int] == pieces@[i as int]@);
        match parse_decimal(&pieces[i], 255) {
            Some(v) => {
                values.push(v as u8);
            },
            None => {
                assert(channel(f[i as int]) is None);
                return None;
            },
        }
        i += 1;
    }
    if values.len() < 3 {
        None
    } else {
        Some((values[0], values[1], values[2]))
    }
}

/// Reads the colour setting as the number that the chat platform takes for
/// the colour, `0xRRGGBB`.
pub fn parse_embed_color_number(text: &str) -> (number: Option<u32>)
    ensures
        number == match embed_color(text@) {
            Some(rgb) => Some(rgb_number(rgb)),
            None => None,
        },
{
    match parse_embed_color(text) {
        Some((red, green, blue)) => Some(colour_number(red, green, blue)),
        None => None,
    }
}

} // verus!
