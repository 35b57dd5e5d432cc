//! Secret-bearing values: card credentials and API keys are carried in a
//! wrapper that stays out of derived debug formatting and is only opened at
//! the point where an outbound wire body or header is assembled.

use vstd::prelude::*;

verus! {

/// A sensitive string. The wrapper deliberately has no `Debug` derive, so a
/// value of it never reaches default debug/log formatting; `expose` is the
/// single way to the content.
pub struct Masked {
    content: String,
}

impl View for Masked {
    type V = Seq<char>;

    closed spec fn view(&self) -> Seq<char> {
        self.content@
    }
}

impl Clone for Masked {
    /// A copy of the wrapper; the content stays wrapped.
    fn clone(&self) -> (r: Self)
        ensures
            r@ == self@,
    {
        Masked { content: self.content.clone() }
    }
}

impl Masked {
    /// Wrap a secret value.
    pub fn new(content: String) -> (r: Masked)
        ensures
            r@ == content@,
    {
        Masked { content }
    }

    /// Open the wrapper. Callers are the serialization points only.
    pub fn expose(&self) -> (r: &String)
        ensures
            r@ == self@,
    {
        &self.content
    }
}

/// A card number as the adapter sees it: an opaque secret copied verbatim
/// into a connector's wire request and never inspected on the way.
pub struct CardNumber {
    digits: Masked,
}

impl View for CardNumber {
    type V = Seq<char>;

    closed spec fn view(&self) -> Seq<char> {
        self.digits@
    }
}

impl Clone for CardNumber {
    /// A copy of the wrapper; the digits stay wrapped.
    fn clone(&self) -> (r: Self)
        ensures
            r@ == self@,
    {
        CardNumber { digits: self.digits.clone() }
    }
}

impl CardNumber {
    /// Wrap an already-validated card number.
    pub fn new(digits: String) -> (r: CardNumber)
        ensures
            r@ == digits@,
    {
        CardNumber { digits: Masked::new(digits) }
    }

    /// Open the number for serialization into a wire body.
    pub fn expose(&self) -> (r: &String)
        ensures
            r@ == self@,
    {
        self.digits.expose()
    }
}

} // verus!
