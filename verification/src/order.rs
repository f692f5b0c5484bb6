//! Equality and order of temperatures.

use crate::value::Temperature;
use std::cmp::Ordering;
use vstd::prelude::*;
use vstd::std_specs::cmp::{PartialEqSpecImpl, PartialOrdSpecImpl};

verus! {

impl PartialEq for Temperature {
    fn eq(&self, other: &Temperature) -> (r: bool) {
        self.nanokelvin() == other.nanokelvin()
    }
}

impl PartialEqSpecImpl for Temperature {
    open spec fn obeys_eq_spec() -> bool {
        true
    }

    open spec fn eq_spec(&self, other: &Temperature) -> bool {
        self@.nanokelvin() == other@.nanokelvin()
    }
}

impl PartialOrd for Temperature {
    fn partial_cmp(&self, other: &Temperature) -> (r: Option<Ordering>) {
        let mine: i128 = self.nanokelvin();
        let theirs: i128 = other.nanokelvin();
        if mine < theirs {
            Some(Ordering::Less)
        } else if mine > theirs {
            Some(Ordering::Greater)
        } else {
            Some(Ordering::Equal)
        }
    }
}

impl PartialOrdSpecImpl for Temperature {
    open spec fn obeys_partial_cmp_spec() -> bool {
        true
    }

    open spec fn partial_cmp_spec(&self, other: &Temperature) -> Option<Ordering> {
        if self@.nanokelvin() < other@.nanokelvin() {
            Some(Ordering::Less)
        } else if self@.nanokelvin() > other@.nanokelvin() {
            Some(Ordering::Greater)
        } else {
            Some(Ordering::Equal)
        }
    }
}

} // verus!
