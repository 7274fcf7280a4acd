use vstd::prelude::*;

use crate::text::same_text;

verus! {

/// One of the four discrete orientations of the display relative to gravity.
#[derive(Debug, Clone, Copy, PartialEq, Eq, Structural)]
pub enum Rotation {
    Normal,
    Left,
    Inverted,
    Right,
}

/// The lowercase name under which an orientation is published.
pub open spec fn rotation_name(r: Rotation) -> Seq<char> {
    match r {
        Rotation::Normal => "normal"@,
        Rotation::Left => "left"@,
        Rotation::Inverted => "inverted"@,
        Rotation::Right => "right"@,
    }
}

impl Rotation {
    /// The lowercase textual rendering written to the output sink.
    pub fn name(&self) -> (r: &'static str)
        ensures
            r@ == rotation_name(*self),
    {
        match self {
            Rotation::Normal => "normal",
            Rotation::Left => "left",
            Rotation::Inverted => "inverted",
            Rotation::Right => "right",
        }
    }
}

/// Why a text is not the name of an orientation.
#[derive(Debug, Clone, Copy, PartialEq, Eq, Structural)]
pub enum RotParseErrKind {
    /// Shorter than any name.
    TooShort,
    /// Longer than any name.
    TooLong,
    /// Of a name's length, but no name.
    NoMatch,
}

/// Reading a name back: the orientation it names, or why it names none.
pub open spec fn parse_rotation_spec(s: Seq<char>) -> Result<Rotation, RotParseErrKind> {
    if s == rotation_name(Rotation::Normal) {
        Ok(Rotation::Normal)
    } else if s == rotation_name(Rotation::Left) {
        Ok(Rotation::Left)
    } else if s == rotation_name(Rotation::Inverted) {
        Ok(Rotation::Inverted)
    } else if s == rotation_name(Rotation::Right) {
        Ok(Rotation::Right)
    } else if s.len() < 4 {
        Err(RotParseErrKind::TooShort)
    } else if s.len() > 8 {
        Err(RotParseErrKind::TooLong)
    } else {
        Err(RotParseErrKind::NoMatch)
    }
}

impl Rotation {
    /// Reads an orientation from its lowercase name.
    pub fn from_name(s: &str) -> (r: Result<Rotation, RotParseErrKind>)
        ensures
            r == parse_rotation_spec(s@),
    {
        if same_text(s, Rotation::Normal.name()) {
            return Ok(Rotation::Normal);
        }
        if same_text(s, Rotation::Left.name()) {
            return Ok(Rotation::Left);
        }
        if same_text(s, Rotation::Inverted.name()) {
            return Ok(Rotation::Inverted);
        }
        if same_text(s, Rotation::Right.name()) {
            return Ok(Rotation::Right);
        }
        let n = s.unicode_len();
        if n < 4 {
            Err(RotParseErrKind::TooShort)
        } else if n > 8 {
            Err(RotParseErrKind::TooLong)
        } else {
            Err(RotParseErrKind::NoMatch)
        }
    }
}

/// The four names are distinct, so reading back the name of an orientation
/// gives that orientation.
pub proof fn lemma_name_round_trip(r: Rotation)
    ensures
        parse_rotation_spec(rotation_name(r)) == Ok::<Rotation, RotParseErrKind>(r),
{
    reveal_strlit("normal");
    reveal_strlit("left");
    reveal_strlit("inverted");
    reveal_strlit("right");
    assert("normal"@.len() == 6);
    assert("left"@.len() == 4);
    assert("inverted"@.len() == 8);
    assert("right"@.len() == 5);
    assert("normal"@[0] != "right"@[0]);
    assert("left"@[0] != "normal"@[0]);
}

impl Default for Rotation {
    fn default() -> (r: Rotation)
        ensures
            r == Rotation::Normal,
    {
        Rotation::Normal
    }
}

} // verus!
