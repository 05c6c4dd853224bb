use vstd::prelude::*;

verus! {

/// A pixel sent to the frontend, as its red, green and blue components.
#[derive(Clone, PartialEq, Eq, Structural)]
pub struct Pixel(pub u8, pub u8, pub u8);

impl Pixel {
    /// A fully lit pixel.
    pub fn ON() -> (pixel: Pixel)
        ensures
            pixel == Pixel(255, 255, 255),
    {
        Pixel(255, 255, 255)
    }

    /// A dark pixel.
    pub fn OFF() -> (pixel: Pixel)
        ensures
            pixel == Pixel(0, 0, 0),
    {
        Pixel(0, 0, 0)
    }

    /// Combines `rhs` into the pixel with an exclusive or, component by component.
    pub fn bitxor_assign(&mut self, rhs: Pixel)
        ensures
            final(self).0 == old(self).0 ^ rhs.0,
            final(self).1 == old(self).1 ^ rhs.1,
            final(self).2 == old(self).2 ^ rhs.2,
    {
        self.0 = self.0 ^ rhs.0;
        self.1 = self.1 ^ rhs.1;
        self.2 = self.2 ^ rhs.2;
    }
}

/// Combining the same pixel twice with an exclusive or restores what was there, and a lit
/// pixel combined with a lit pixel is dark.
pub proof fn lemma_pixel_xor_twice(p: Pixel, q: Pixel)
    ensures
        Pixel((p.0 ^ q.0) ^ q.0, (p.1 ^ q.1) ^ q.1, (p.2 ^ q.2) ^ q.2) == p,
        Pixel(255u8 ^ 255u8, 255u8 ^ 255u8, 255u8 ^ 255u8) == Pixel(0, 0, 0),
{
    assert(forall|a: u8, b: u8| #[trigger] ((a ^ b) ^ b) == a) by (bit_vector);
    assert(255u8 ^ 255u8 == 0u8) by (bit_vector);
}

} // verus!
