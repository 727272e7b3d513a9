//! FourCC pixel/codec format tags.

use vstd::prelude::*;

verus! {

/// A FourCC format.
///
/// The four bytes are the tag a capture device uses to identify a pixel or
/// codec format, exactly as the kernel reports it.
#[derive(Clone, Copy, Debug)]
pub struct Format([u8; 4]);

impl Format {
    /// Creates a new FourCC format identifier.
    ///
    /// The input is not checked against any database of known formats: any
    /// four bytes are accepted, exactly as given.
    #[inline]
    pub fn new(input: [u8; 4]) -> (r: Self)
        ensures
            r@ == input@,
    {
        Format(input)
    }

    /// Returns the inner FourCC byte array representing the format type.
    #[inline]
    pub fn array(self) -> (r: [u8; 4])
        ensures
            r@ == self@,
    {
        self.0
    }
}

impl View for Format {
    type V = Seq<u8>;

    closed spec fn view(&self) -> Seq<u8> {
        self.0@
    }
}

impl PartialEq for Format {
    fn eq(&self, other: &Self) -> (r: bool)
        ensures
            r == (self@ == other@),
    {
        let a = self.0;
        let b = other.0;
        let r = a[0] == b[0] && a[1] == b[1] && a[2] == b[2] && a[3] == b[3];
        proof {
            if r {
                assert(self@ =~= other@);
            }
        }
        r
    }
}

impl Eq for Format {}

impl vstd::std_specs::cmp::PartialEqSpecImpl for Format {
    open spec fn obeys_eq_spec() -> bool {
        true
    }

    open spec fn eq_spec(&self, other: &Self) -> bool {
        self@ == other@
    }
}

} // verus!
