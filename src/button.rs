use vstd::prelude::*;

verus! {

/// A physical button of the emulated device.
#[derive(Debug, Clone, Copy, PartialEq, Eq, Structural)]
pub enum Button {
    Left,
    Right,
    Both,
}

/// The path segment that names a button in the emulator's API.
pub open spec fn token_of(b: Button) -> Seq<char> {
    match b {
        Button::Left => "left"@,
        Button::Right => "right"@,
        Button::Both => "both"@,
    }
}

impl Button {
    /// The lowercase token of this button, as it stands in a request path.
    pub fn token(&self) -> (r: &'static str)
        ensures
            r@ == token_of(*self),
    {
        match self {
            Button::Left => "left",
            Button::Right => "right",
            Button::Both => "both",
        }
    }

    /// The token as an owned string.
    pub fn to_string(&self) -> (r: String)
        ensures
            r@ == token_of(*self),
    {
        String::from_str(self.token())
    }
}

/// Each token is one of `left`, `right` or `both`, made of lowercase ASCII
/// letters only.
pub proof fn lemma_token_is_lowercase_word(b: Button)
    ensures
        token_of(b) == "left"@ || token_of(b) == "right"@ || token_of(b) == "both"@,
        token_of(b).len() > 0,
        forall|i: int| 0 <= i < token_of(b).len() ==> 'a' <= #[trigger] token_of(b)[i] <= 'z',
{
    reveal_strlit("left");
    reveal_strlit("right");
    reveal_strlit("both");
}

/// Distinct buttons have distinct tokens, so a token names exactly one button.
pub proof fn lemma_token_injective(a: Button, b: Button)
    ensures
        token_of(a) == token_of(b) <==> a == b,
{
    reveal_strlit("left");
    reveal_strlit("right");
    reveal_strlit("both");
    if a != b {
        assert(token_of(a) != token_of(b)) by {
            if token_of(a).len() == token_of(b).len() {
                assert(token_of(a)[0] != token_of(b)[0]);
            }
        }
    }
}

} // verus!
