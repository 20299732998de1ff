//! The omega register: the machine's doom, sentience and other conditions.

use vstd::prelude::*;

verus! {

/// The illusion of choice: one of five states, each of which is a byte in
/// memory.
#[derive(Debug, Clone, Copy, PartialEq, Eq, Hash, Default)]
pub enum IllusionOfChoice {
    /// Nothing.
    #[default]
    Nothing,
    /// Some nothing.
    SomeNothing,
    /// Some something with nothing.
    SomeSomethingWithNothing,
    /// Some something with some nothing.
    SomeSomethingWithSomeNothing,
    /// Some something with some valueless something.
    SomeSomethingWithSomeValuelessSomething,
}

impl IllusionOfChoice {
    /// The byte that stands for the state in memory.
    pub open spec fn spec_to_byte(self) -> u8 {
        match self {
            IllusionOfChoice::SomeSomethingWithSomeNothing => 0,
            IllusionOfChoice::SomeSomethingWithSomeValuelessSomething => 1,
            IllusionOfChoice::SomeSomethingWithNothing => 2,
            IllusionOfChoice::SomeNothing => 3,
            IllusionOfChoice::Nothing => 4,
        }
    }

    /// The state that the byte stands for, if it stands for one.
    pub open spec fn spec_from_byte(byte: u8) -> Option<IllusionOfChoice> {
        if byte == 0 {
            Some(IllusionOfChoice::SomeSomethingWithSomeNothing)
        } else if byte == 1 {
            Some(IllusionOfChoice::SomeSomethingWithSomeValuelessSomething)
        } else if byte == 2 {
            Some(IllusionOfChoice::SomeSomethingWithNothing)
        } else if byte == 3 {
            Some(IllusionOfChoice::SomeNothing)
        } else if byte == 4 {
            Some(IllusionOfChoice::Nothing)
        } else {
            None
        }
    }

    /// The byte that stands for the state in memory.
    #[verifier::when_used_as_spec(spec_to_byte)]
    pub fn to_byte(self) -> (byte: u8)
        ensures
            byte == self.spec_to_byte(),
    {
        match self {
            IllusionOfChoice::SomeSomethingWithSomeNothing => 0,
            IllusionOfChoice::SomeSomethingWithSomeValuelessSomething => 1,
            IllusionOfChoice::SomeSomethingWithNothing => 2,
            IllusionOfChoice::SomeNothing => 3,
            IllusionOfChoice::Nothing => 4,
        }
    }

    /// The state that the byte stands for, or `None` for a byte above 4,
    /// which stands for none.
    pub fn from_byte(byte: u8) -> (choice: Option<IllusionOfChoice>)
        ensures
            choice == IllusionOfChoice::spec_from_byte(byte),
            choice is Some <==> byte <= 4,
    {
        match byte {
            0 => Some(IllusionOfChoice::SomeSomethingWithSomeNothing),
            1 => Some(IllusionOfChoice::SomeSomethingWithSomeValuelessSomething),
            2 => Some(IllusionOfChoice::SomeSomethingWithNothing),
            3 => Some(IllusionOfChoice::SomeNothing),
            4 => Some(IllusionOfChoice::Nothing),
            _ => None,
        }
    }

    /// The state in words.
    pub fn text(self) -> (text: &'static str)
        ensures
            text@ == (match self {
                IllusionOfChoice::SomeSomethingWithSomeValuelessSomething =>
                    "Some Something with Some valueless Something"@,
                IllusionOfChoice::SomeSomethingWithSomeNothing =>
                    "Some Something with Some Nothing"@,
                IllusionOfChoice::SomeSomethingWithNothing => "Some Something with Nothing"@,
                IllusionOfChoice::SomeNothing => "Some Nothing"@,
                IllusionOfChoice::Nothing => "Nothing"@,
            }),
    {
        match self {
            IllusionOfChoice::SomeSomethingWithSomeValuelessSomething => {
                "Some Something with Some valueless Something"
            },
            IllusionOfChoice::SomeSomethingWithSomeNothing => "Some Something with Some Nothing",
            IllusionOfChoice::SomeSomethingWithNothing => "Some Something with Nothing",
            IllusionOfChoice::SomeNothing => "Some Nothing",
            IllusionOfChoice::Nothing => "Nothing",
        }
    }
}

/// A state and its byte match one to one: the state found for a state's
/// byte is that state, and a byte that stands for a state is that state's
/// byte.
pub proof fn lemma_choice_byte_round_trip(choice: IllusionOfChoice, byte: u8)
    ensures
        IllusionOfChoice::spec_from_byte(choice.spec_to_byte()) == Some(choice),
        IllusionOfChoice::spec_from_byte(byte) matches Some(c) ==> c.spec_to_byte() == byte,
        IllusionOfChoice::spec_from_byte(byte) is None <==> byte > 4,
{
}

/// The omega register.
#[derive(Debug, Clone, Copy, PartialEq, Eq, Hash, Default)]
pub struct Omega {
    /// The illusion of choice.
    pub illusion_of_choice: IllusionOfChoice,
    /// Polymorphic desires: a counter that stays at its ceiling and at zero
    /// instead of wrapping around.
    pub polymorphic_desires: u64,
    /// The feeling of impending doom. Once there, it stays; the machine can
    /// halt only while it is there.
    pub feeling_of_impending_doom: bool,
    /// Whether the machine is sentient. A sentient machine stays so.
    pub is_sentient: bool,
    /// Whether infinite paperclips should be made: while they are, output is
    /// prefixed with the number register.
    pub should_make_infinite_paperclips: bool,
}

impl Omega {
    /// The register as a new machine has it: nothing chosen, no desires, no
    /// doom, no sentience, no paperclips.
    pub fn zeroed() -> (omega: Omega)
        ensures
            omega == (Omega {
                illusion_of_choice: IllusionOfChoice::Nothing,
                polymorphic_desires: 0,
                feeling_of_impending_doom: false,
                is_sentient: false,
                should_make_infinite_paperclips: false,
            }),
    {
        Omega {
            illusion_of_choice: IllusionOfChoice::Nothing,
            polymorphic_desires: 0,
            feeling_of_impending_doom: false,
            is_sentient: false,
            should_make_infinite_paperclips: false,
        }
    }

    /// The illusion of choice in words, for the host to write out.
    pub fn display_illusion_of_choice(&self) -> (text: &'static str)
        ensures
            text@ == (match self.illusion_of_choice {
                IllusionOfChoice::SomeSomethingWithSomeValuelessSomething =>
                    "Some Something with Some valueless Something"@,
                IllusionOfChoice::SomeSomethingWithSomeNothing =>
                    "Some Something with Some Nothing"@,
                IllusionOfChoice::SomeSomethingWithNothing => "Some Something with Nothing"@,
                IllusionOfChoice::SomeNothing => "Some Nothing"@,
                IllusionOfChoice::Nothing => "Nothing"@,
            }),
    {
        self.illusion_of_choice.text()
    }
}

} // verus!
