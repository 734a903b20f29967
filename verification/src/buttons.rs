//! Direction keys of the demo screen.

use vstd::prelude::*;
use vstd::string::*;

verus! {

/// A direction key.
#[derive(Debug, Clone, Copy, PartialEq, Eq, Structural)]
pub enum ArrowKeys {
    RightArrow,
    LeftArrow,
    TopArrow,
    BottomArrow,
}

/// Whether two strings hold the same characters.
pub fn same_text(a: &str, b: &str) -> (same: bool)
    ensures
        same == (a@ == b@),
{
    String::from_str(a) == String::from_str(b)
}

impl ArrowKeys {
    /// The direction that a host key name stands for, if any.
    pub open spec fn parse(key: Seq<char>) -> Option<ArrowKeys> {
        if key == "ArrowUp"@ {
            Some(ArrowKeys::TopArrow)
        } else if key == "ArrowDown"@ {
            Some(ArrowKeys::BottomArrow)
        } else if key == "ArrowLeft"@ {
            Some(ArrowKeys::LeftArrow)
        } else if key == "ArrowRight"@ {
            Some(ArrowKeys::RightArrow)
        } else {
            None
        }
    }

    /// The direction that the host key name `key` stands for, if any.
    pub fn from_key_string(key: &str) -> (found: Option<Self>)
        ensures
            found == Self::parse(key@),
    {
        if same_text(key, "ArrowUp") {
            Some(ArrowKeys::TopArrow)
        } else if same_text(key, "ArrowDown") {
            Some(ArrowKeys::BottomArrow)
        } else if same_text(key, "ArrowLeft") {
            Some(ArrowKeys::LeftArrow)
        } else if same_text(key, "ArrowRight") {
            Some(ArrowKeys::RightArrow)
        } else {
            None
        }
    }

    /// The glyph of the direction.
    pub open spec fn symbol(self) -> Seq<char> {
        match self {
            ArrowKeys::TopArrow => "↑"@,
            ArrowKeys::BottomArrow => "↓"@,
            ArrowKeys::LeftArrow => "←"@,
            ArrowKeys::RightArrow => "→"@,
        }
    }

    /// The glyph of the direction.
    pub fn as_symbol(&self) -> (glyph: &str)
        ensures
            glyph@ == self.symbol(),
    {
        match self {
            ArrowKeys::TopArrow => "↑",
            ArrowKeys::BottomArrow => "↓",
            ArrowKeys::LeftArrow => "←",
            ArrowKeys::RightArrow => "→",
        }
    }

    /// The name of the direction.
    pub open spec fn name(self) -> Seq<char> {
        match self {
            ArrowKeys::TopArrow => "Up"@,
            ArrowKeys::BottomArrow => "Down"@,
            ArrowKeys::LeftArrow => "Left"@,
            ArrowKeys::RightArrow => "Right"@,
        }
    }

    /// The name of the direction.
    pub fn as_name(&self) -> (name: &str)
        ensures
            name@ == self.name(),
    {
        match self {
            ArrowKeys::TopArrow => "Up",
            ArrowKeys::BottomArrow => "Down",
            ArrowKeys::LeftArrow => "Left",
            ArrowKeys::RightArrow => "Right",
        }
    }
}

} // verus!
