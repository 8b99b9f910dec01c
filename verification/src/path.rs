//! Platform-native paths, kept as the 16-bit units of the native encoding.

use vstd::prelude::*;

verus! {

/// The text that lossy UTF-16 decoding makes of a sequence of code units.
pub uninterp spec fn lossy_text(units: Seq<u16>) -> Seq<char>;

/// Calls `String::from_utf16_lossy` of the standard library, which decodes
/// UTF-16 and puts U+FFFD in place of each unpaired surrogate. The contract
/// only gives that text a name: it is a function of the units alone.
#[verifier::external_body]
fn decode_lossy(units: &Vec<u16>) -> (text: String)
    ensures
        text@ == lossy_text(units@),
{
    String::from_utf16_lossy(units.as_slice())
}

/// A filesystem path in the platform's native encoding. The units are never
/// interpreted, only carried along and decoded for display.
#[derive(Clone, Debug, PartialEq, Eq)]
pub struct NativePath {
    pub units: Vec<u16>,
}

impl View for NativePath {
    type V = Seq<u16>;

    open spec fn view(&self) -> Seq<u16> {
        self.units@
    }
}

impl NativePath {
    /// Wraps native code units without changing them.
    pub fn new(units: Vec<u16>) -> (path: NativePath)
        ensures
            path@ == units@,
            path.units == units,
    {
        NativePath { units }
    }

    /// The units of the path, as they were given.
    pub fn units(&self) -> (units: &Vec<u16>)
        ensures
            units@ == self@,
    {
        &self.units
    }

    /// The path as text for a message; undecodable units show as U+FFFD.
    pub fn display(&self) -> (text: String)
        ensures
            text@ == lossy_text(self@),
    {
        decode_lossy(&self.units)
    }
}

} // verus!
