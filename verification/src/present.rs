use vstd::prelude::*;

use crate::convert::ContentFormat;

verus! {

/// Whether to print without highlighting or paging: the user asked for it, or
/// standard output is not a terminal (the content is being piped onward).
pub fn use_plain_output(plain_print: bool, stdout_is_tty: bool) -> (r: bool)
    ensures
        r == (plain_print || !stdout_is_tty),
{
    plain_print || !stdout_is_tty
}

/// The syntax-highlighting language for pretty-printing content in a format:
/// the structured formats are highlighted, plain text is not.
pub fn highlight_language(print_format: &ContentFormat) -> (r: Option<&'static str>)
    ensures
        *print_format == ContentFormat::JSON ==> (r matches Some(l) && l@ == "json"@),
        *print_format == ContentFormat::YAML ==> (r matches Some(l) && l@ == "yaml"@),
        *print_format == ContentFormat::TEXT ==> r is None,
{
    match *print_format {
        ContentFormat::JSON => Some("json"),
        ContentFormat::YAML => Some("yaml"),
        ContentFormat::TEXT => None,
    }
}

} // verus!
