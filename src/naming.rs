use vstd::prelude::*;

verus! {

/// Whether `syn` accepts the text as one identifier (not a keyword).
pub uninterp spec fn ident_text_ok(s: Seq<char>) -> bool;

/// The upper-case form of a text, as `str::to_uppercase` gives it.
pub uninterp spec fn upper_of(s: Seq<char>) -> Seq<char>;

/// Relies on `syn::parse_str::<syn::Ident>`: whether the text parses as a
/// single non-keyword identifier. The answer depends on the text alone.
#[verifier::external_body]
fn parses_as_ident(s: &str) -> (r: bool)
    ensures
        r == ident_text_ok(s@),
{
    syn::parse_str::<syn::Ident>(s).is_ok()
}

/// Relies on `str::to_uppercase`: the result depends on the text alone.
#[verifier::external_body]
fn uppercase(s: &str) -> (r: String)
    ensures
        r@ == upper_of(s@),
{
    s.to_uppercase()
}

/// The builder type's name for a record named `record`.
pub open spec fn builder_text(record: Seq<char>) -> Seq<char> {
    record + "Builder"@
}

/// The flag parameter's name for a field named `field`.
pub open spec fn flag_text(field: Seq<char>) -> Seq<char> {
    upper_of(field) + "_INIT"@
}

/// Whether `name` is a legal identifier.
pub fn is_legal_ident(name: &String) -> (r: bool)
    ensures
        r == ident_text_ok(name@),
{
    parses_as_ident(name.as_str())
}

/// The builder type's name: the record's name followed by `Builder`.
pub fn builder_name(record: &String) -> (r: String)
    ensures
        r@ == builder_text(record@),
{
    let mut r = record.clone();
    r.append("Builder");
    r
}

/// The flag parameter's name: the upper-cased field name followed by `_INIT`.
pub fn flag_name(field: &String) -> (r: String)
    ensures
        r@ == flag_text(field@),
{
    let mut r = uppercase(field.as_str());
    r.append("_INIT");
    r
}

} // verus!
