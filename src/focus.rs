use vstd::prelude::*;

verus! {

/// Names one of the four text fields; the field that has focus receives edits.
#[derive(PartialEq, Eq, Structural, Clone, Copy, Debug)]
pub enum Focus {
    Token,
    Header,
    Payload,
    SigningKey,
}

impl Focus {
    /// The field that follows in the cycle Token, Header, Payload, SigningKey, Token.
    pub open spec fn next_spec(self) -> Focus {
        match self {
            Focus::Token => Focus::Header,
            Focus::Header => Focus::Payload,
            Focus::Payload => Focus::SigningKey,
            Focus::SigningKey => Focus::Token,
        }
    }

    /// Position of the field in the cycle, from 0 to 3.
    pub open spec fn index_spec(self) -> nat {
        match self {
            Focus::Token => 0,
            Focus::Header => 1,
            Focus::Payload => 2,
            Focus::SigningKey => 3,
        }
    }

    pub fn next(self) -> (r: Focus)
        ensures
            r == self.next_spec(),
    {
        match self {
            Focus::Token => Focus::Header,
            Focus::Header => Focus::Payload,
            Focus::Payload => Focus::SigningKey,
            Focus::SigningKey => Focus::Token,
        }
    }

    pub fn index(self) -> (r: usize)
        ensures
            r == self.index_spec(),
            r < 4,
    {
        match self {
            Focus::Token => 0,
            Focus::Header => 1,
            Focus::Payload => 2,
            Focus::SigningKey => 3,
        }
    }
}

/// Four steps along the cycle come back to the field where they started.
pub proof fn lemma_next_four_times(f: Focus)
    ensures
        f.next_spec().next_spec().next_spec().next_spec() == f,
{
}

/// Distinct fields sit at distinct positions.
pub proof fn lemma_index_injective(f: Focus, g: Focus)
    ensures
        f.index_spec() == g.index_spec() <==> f == g,
{
}

} // verus!
