//! Writing into std's formatters, for printed forms that are not derived.

use std::fmt::Formatter;

use vstd::prelude::*;

verus! {

/// `std::fmt::Formatter`, of which nothing is seen inside.
#[verifier::external_type_specification]
#[verifier::external_body]
pub struct ExFormatter<'a>(std::fmt::Formatter<'a>);

/// `std::fmt::Error`, of which nothing is seen inside.
#[verifier::external_type_specification]
#[verifier::external_body]
pub struct ExFormatError(std::fmt::Error);

/// The text that a formatter has taken so far.
pub uninterp spec fn written(f: Formatter) -> Seq<char>;

/// Whether a formatter asks for the alternate form, as `{:#?}` does.
pub uninterp spec fn is_alternate(f: Formatter) -> bool;

/// `Formatter::write_str`: where it succeeds, the formatter has taken the text.
/// Whether it does is up to what lies behind the formatter.
pub assume_specification<'a>[ Formatter::<'a>::write_str ](
    f: &mut Formatter<'a>,
    data: &str,
) -> (r: Result<(), std::fmt::Error>)
    ensures
        r is Ok ==> written(*final(f)) == written(*old(f)) + data@,
;

/// `Formatter::alternate`: whether the alternate form is asked for.
pub assume_specification<'a>[ Formatter::<'a>::alternate ](f: &Formatter<'a>) -> (r: bool)
    ensures
        r == is_alternate(*f),
;

} // verus!
