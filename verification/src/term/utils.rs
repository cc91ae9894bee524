//! Free-function styling helpers over plain text and terminal text.

use crate::term::{bg_code, escseq_of, fg_code, TermString};
use vstd::prelude::*;

verus! {

/// Fetches an escape sequence that is known to be in the table.
fn get_tstr(cat: &str, key: &str) -> (r: TermString)
    requires
        escseq_of(cat@, key@) is Some,
    ensures
        r.wf(),
        Some(r@) == escseq_of(cat@, key@),
        r.spec_visible() == 0,
{
    match TermString::from_escseq(cat, key) {
        Some(t) => t,
        None => {
            proof {
                assert(false);
            }
            TermString::wrap("")
        },
    }
}

/// Plain text styled bold.
pub fn set_bold(value: &str) -> (r: TermString)
    ensures
        r.wf(),
        r@ == "\x1b[1m"@ + value@ + "\x1b[22m"@,
        r.spec_visible() == value@.len(),
{
    TermString::wrap(value).set_bold()
}

/// Plain text styled dim.
pub fn set_dim(value: &str) -> (r: TermString)
    ensures
        r.wf(),
        r@ == "\x1b[2m"@ + value@ + "\x1b[22m"@,
        r.spec_visible() == value@.len(),
{
    TermString::wrap(value).set_dim()
}

/// Plain text styled bold and dim at once.
pub fn set_bold_dim(value: &str) -> (r: TermString)
    ensures
        r.wf(),
        r@ == "\x1b[1m\x1b[2m"@ + value@ + "\x1b[22m"@,
        r.spec_visible() == value@.len(),
{
    TermString::wrap(value).set_bold_dim()
}

/// Plain text painted in the named foreground color, which must be in the
/// color table.
pub fn set_color(value: &str, color: &str) -> (r: TermString)
    requires
        fg_code(color@) is Some,
    ensures
        r.wf(),
        Some(r@) == (match fg_code(color@) {
            Some(code) => Some(code + value@ + "\x1b[39m"@),
            None => None,
        }),
        r.spec_visible() == value@.len(),
{
    match TermString::wrap(value).set_color(color) {
        Ok(t) => t,
        Err(_) => {
            proof {
                assert(false);
            }
            TermString::wrap("")
        },
    }
}

/// Plain text painted on the named background color, which must be in the
/// color table.
pub fn set_color_bg(value: &str, color: &str) -> (r: TermString)
    requires
        bg_code(color@) is Some,
    ensures
        r.wf(),
        Some(r@) == (match bg_code(color@) {
            Some(code) => Some(code + value@ + "\x1b[49m"@),
            None => None,
        }),
        r.spec_visible() == value@.len(),
{
    match TermString::wrap(value).set_color_bg(color) {
        Ok(t) => t,
        Err(_) => {
            proof {
                assert(false);
            }
            TermString::wrap("")
        },
    }
}

/// Terminal text styled bold.
pub fn set_bold_t(value: TermString) -> (r: TermString)
    requires
        value.wf(),
    ensures
        r.wf(),
        r@ == "\x1b[1m"@ + value@ + "\x1b[22m"@,
        r.spec_visible() == value.spec_visible(),
{
    value.set_bold()
}

/// Terminal text styled dim.
pub fn set_dim_t(value: TermString) -> (r: TermString)
    requires
        value.wf(),
    ensures
        r.wf(),
        r@ == "\x1b[2m"@ + value@ + "\x1b[22m"@,
        r.spec_visible() == value.spec_visible(),
{
    value.set_dim()
}

/// Terminal text styled bold and dim at once.
pub fn set_bold_dim_t(value: TermString) -> (r: TermString)
    requires
        value.wf(),
    ensures
        r.wf(),
        r@ == "\x1b[1m\x1b[2m"@ + value@ + "\x1b[22m"@,
        r.spec_visible() == value.spec_visible(),
{
    value.set_bold_dim()
}

/// Terminal text painted in the named foreground color, which must be in
/// the color table.
pub fn set_color_t(value: TermString, color: &str) -> (r: TermString)
    requires
        value.wf(),
        fg_code(color@) is Some,
    ensures
        r.wf(),
        Some(r@) == (match fg_code(color@) {
            Some(code) => Some(code + value@ + "\x1b[39m"@),
            None => None,
        }),
        r.spec_visible() == value.spec_visible(),
{
    match value.set_color(color) {
        Ok(t) => t,
        Err(_) => {
            proof {
                assert(false);
            }
            TermString::wrap("")
        },
    }
}

/// Terminal text painted on the named background color, which must be in
/// the color table.
pub fn set_color_bg_t(value: TermString, color: &str) -> (r: TermString)
    requires
        value.wf(),
        bg_code(color@) is Some,
    ensures
        r.wf(),
        Some(r@) == (match bg_code(color@) {
            Some(code) => Some(code + value@ + "\x1b[49m"@),
            None => None,
        }),
        r.spec_visible() == value.spec_visible(),
{
    match value.set_color_bg(color) {
        Ok(t) => t,
        Err(_) => {
            proof {
                assert(false);
            }
            TermString::wrap("")
        },
    }
}

} // verus!
