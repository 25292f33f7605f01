use vstd::prelude::*;

verus! {

/// The seed from which the terrain noise is generated.
pub struct Seed(u32);

/// Draws a `u32` from the thread-local generator of `rand`
/// (`rand::random::<u32>`). Nothing is claimed of the value, which is
/// chance; `rand` panics if the generator cannot be seeded from the system.
#[verifier::external_body]
fn random_u32() -> u32 {
    rand::random::<u32>()
}

impl View for Seed {
    type V = u32;

    closed spec fn view(&self) -> u32 {
        self.0
    }
}

impl Seed {
    /// The seed with the given value.
    pub fn from_value(value: u32) -> (s: Seed)
        ensures
            s@ == value,
    {
        Seed(value)
    }
}

impl Default for Seed {
    /// A seed drawn at random.
    fn default() -> (s: Self) {
        Seed::from_value(random_u32())
    }
}

impl core::ops::Deref for Seed {
    type Target = u32;

    fn deref(&self) -> (v: &u32)
        ensures
            *v == self@,
    {
        &self.0
    }
}

} // verus!
