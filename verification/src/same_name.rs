//! Traits whose methods share a name. A type that has both traits keeps the
//! two methods apart; the caller says which trait is meant.

use vstd::prelude::*;
use vstd::string::StringExecFns;

verus! {

/// Someone who drives a car.
pub trait Driver {
    /// What the driver is doing, as the contracts see it.
    spec fn driving(&self) -> Seq<char>;

    /// What the driver is doing.
    fn drive(&self) -> (line: &'static str)
        ensures
            line@ == self.driving(),
    ;
}

/// Someone who flies a plane.
pub trait Pilot {
    /// What the pilot is doing, as the contracts see it.
    spec fn flying(&self) -> Seq<char>;

    /// What the pilot is doing. For a pilot, to drive is to fly.
    fn drive(&self) -> (line: &'static str)
        ensures
            line@ == self.flying(),
    ;
}

/// A person who both drives and flies.
pub struct Person;

impl Driver for Person {
    open spec fn driving(&self) -> Seq<char> {
        "Person is driving a car"@
    }

    fn drive(&self) -> (line: &'static str) {
        "Person is driving a car"
    }
}

impl Pilot for Person {
    open spec fn flying(&self) -> Seq<char> {
        "Person is flying a plane"@
    }

    fn drive(&self) -> (line: &'static str) {
        "Person is flying a plane"
    }
}

/// A place that makes products.
pub trait Factory {
    /// Makes a product.
    fn create() -> (made: String)
        ensures
            made@ == "Product"@,
    {
        String::from_str("Product")
    }
}

/// A place that runs experiments.
pub trait Lab {
    /// Sets up an experiment.
    fn create() -> (made: String)
        ensures
            made@ == "Experiment"@,
    {
        String::from_str("Experiment")
    }
}

/// A place that is both a factory and a lab.
pub struct Facility;

impl Factory for Facility {

}

impl Lab for Facility {

}

} // verus!
