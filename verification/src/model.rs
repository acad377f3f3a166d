use vstd::prelude::*;

verus! {

/// A bounded counter holding a single byte-sized value.
///
/// `inc` and `dec` move the value by one and stop at the ends of the
/// `u8` range instead of wrapping.
#[derive(Debug, Clone, Copy)]
pub struct Model {
    value: u8,
}

impl Model {
    /// The held value, for use in contracts.
    pub closed spec fn spec_value(&self) -> u8 {
        self.value
    }

    pub fn value(&self) -> (v: u8)
        ensures
            v == self.spec_value(),
    {
        self.value
    }

    /// Raise the value by one; at the top of the range it stays put.
    pub fn inc(&mut self)
        ensures
            final(self).spec_value() == if old(self).spec_value() < 255 {
                old(self).spec_value() + 1
            } else {
                old(self).spec_value() as int
            },
    {
        if self.value < 255 {
            self.value = self.value + 1;
        }
    }

    /// Lower the value by one; at zero it stays put.
    pub fn dec(&mut self)
        ensures
            final(self).spec_value() == if old(self).spec_value() > 0 {
                old(self).spec_value() - 1
            } else {
                old(self).spec_value() as int
            },
    {
        if self.value > 0 {
            self.value = self.value - 1;
        }
    }
}

impl Default for Model {
    /// A fresh counter starts at zero.
    fn default() -> (m: Self)
        ensures
            m.spec_value() == 0,
    {
        Model { value: 0 }
    }
}

} // verus!
