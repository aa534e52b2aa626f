//! Currencies as a catalog holds them.
use vstd::prelude::*;
use vstd::std_specs::cmp::PartialEqSpecImpl;

verus! {

/// The regions whose conventions amounts are formatted by.
#[derive(Clone, Copy, Debug, PartialEq, Eq, Structural)]
pub enum Locale {
    EnUs,
    EnIn,
    EnEu,
    EnBy,
}

/// A currency of ISO 4217, by its plain data. A catalog files a currency
/// under its alphabetic code.
#[derive(Debug)]
pub struct Currency {
    pub locale: Locale,
    pub exponent: u32,
    pub iso_alpha_code: String,
    pub iso_numeric_code: String,
    pub name: String,
    pub symbol: String,
    pub symbol_first: bool,
    pub minor_denomination: u32,
}

impl Currency {
    /// Whether two currencies agree in every datum.
    pub open spec fn same_as(&self, other: &Currency) -> bool {
        &&& self.locale == other.locale
        &&& self.exponent == other.exponent
        &&& self.iso_alpha_code@ == other.iso_alpha_code@
        &&& self.iso_numeric_code@ == other.iso_numeric_code@
        &&& self.name@ == other.name@
        &&& self.symbol@ == other.symbol@
        &&& self.symbol_first == other.symbol_first
        &&& self.minor_denomination == other.minor_denomination
    }
}

impl Clone for Currency {
    fn clone(&self) -> (copy: Currency)
        ensures
            copy.same_as(self),
    {
        Currency {
            locale: self.locale,
            exponent: self.exponent,
            iso_alpha_code: self.iso_alpha_code.clone(),
            iso_numeric_code: self.iso_numeric_code.clone(),
            name: self.name.clone(),
            symbol: self.symbol.clone(),
            symbol_first: self.symbol_first,
            minor_denomination: self.minor_denomination,
        }
    }
}

impl PartialEq for Currency {
    /// Currencies are equal where every datum is.
    fn eq(&self, other: &Currency) -> (equal: bool) {
        self.locale == other.locale && self.exponent == other.exponent && self.iso_alpha_code
            == other.iso_alpha_code && self.iso_numeric_code == other.iso_numeric_code && self.name
            == other.name && self.symbol == other.symbol && self.symbol_first == other.symbol_first
            && self.minor_denomination == other.minor_denomination
    }
}

impl PartialEqSpecImpl for Currency {
    open spec fn obeys_eq_spec() -> bool {
        true
    }

    open spec fn eq_spec(&self, other: &Currency) -> bool {
        self.same_as(other)
    }
}

} // verus!
