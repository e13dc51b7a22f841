//! Animals, pets and speakers: three small traits, two types that have all
//! three, and functions that take any of them.

use vstd::prelude::*;
use vstd::string::StringExecFns;

verus! {

/// Something that makes a sound.
pub trait Animal {
    /// The sound, as the contracts see it.
    spec fn sound_text(&self) -> Seq<char>;

    /// The sound this animal makes.
    fn sound(&self) -> (sound: &'static str)
        ensures
            sound@ == self.sound_text(),
    ;
}

/// An animal with a name.
pub trait Pet: Animal {
    /// The name, as the contracts see it.
    spec fn name_text(&self) -> Seq<char>;

    /// The name this pet answers to.
    fn name(&self) -> (name: &'static str)
        ensures
            name@ == self.name_text(),
    ;
}

/// Something that says a line when asked to speak.
pub trait Speak {
    /// The line, as the contracts see it.
    spec fn line_text(&self) -> Seq<char>;

    /// The line this speaker says.
    fn speak(&self) -> (line: &'static str)
        ensures
            line@ == self.line_text(),
    ;
}

/// A dog called Buddy.
pub struct Dog;

/// A cat called Tom.
pub struct Cat;

impl Dog {
    /// A dog.
    pub fn new() -> (dog: Self)
        ensures
            dog == Dog,
    {
        Dog
    }
}

impl Animal for Dog {
    open spec fn sound_text(&self) -> Seq<char> {
        "Woof!"@
    }

    fn sound(&self) -> (sound: &'static str) {
        "Woof!"
    }
}

impl Pet for Dog {
    open spec fn name_text(&self) -> Seq<char> {
        "Buddy"@
    }

    fn name(&self) -> (name: &'static str) {
        "Buddy"
    }
}

impl Speak for Dog {
    open spec fn line_text(&self) -> Seq<char> {
        "Woof!"@
    }

    fn speak(&self) -> (line: &'static str) {
        "Woof!"
    }
}

impl Animal for Cat {
    open spec fn sound_text(&self) -> Seq<char> {
        "Meow!"@
    }

    fn sound(&self) -> (sound: &'static str) {
        "Meow!"
    }
}

impl Pet for Cat {
    open spec fn name_text(&self) -> Seq<char> {
        "Tom"@
    }

    fn name(&self) -> (name: &'static str) {
        "Tom"
    }
}

impl Speak for Cat {
    open spec fn line_text(&self) -> Seq<char> {
        "Meow!"@
    }

    fn speak(&self) -> (line: &'static str) {
        "Meow!"
    }
}

/// The sentence that tells what `animal` says.
pub fn print_sound<T: Animal>(animal: T) -> (sentence: String)
    ensures
        sentence@ == "The animal says: "@ + animal.sound_text(),
{
    let mut sentence = String::from_str("The animal says: ");
    sentence.append(animal.sound());
    sentence
}

/// Lets any speaker say its line, whatever its type.
pub fn make_speak(animal: &dyn Speak) -> (line: &'static str)
    ensures
        line@ == animal.line_text(),
{
    animal.speak()
}

} // verus!
