//! Wide C strings for the OS notification and console calls.
//!
//! The OS takes nul-terminated UTF-16 strings.  The conversion is done by
//! the `widestring` crate; this module gives that conversion a contract and
//! builds the shim's two user-visible texts in wide form.

use vstd::prelude::*;

use crate::report::CrashNotice;
use crate::report::title_text;

verus! {

/// The owned, nul-terminated wide C string type of the `widestring` crate,
/// opaque to the verifier.
#[verifier::external_type_specification]
#[verifier::external_body]
pub struct ExU16CString(widestring::U16CString);

/// The UTF-16 code units a wide C string holds, terminator excluded.
pub uninterp spec fn wide_units(w: widestring::U16CString) -> Seq<u16>;

/// The UTF-16 code units of one character: the code point itself below
/// 0x10000, a surrogate pair above.
pub open spec fn utf16_units_of_char(c: char) -> Seq<u16> {
    if (c as u32) < 0x10000 {
        seq![(c as u32) as u16]
    } else {
        seq![
            (0xD800 + (((c as u32) - 0x10000) / 0x400)) as u16,
            (0xDC00 + (((c as u32) - 0x10000) % 0x400)) as u16,
        ]
    }
}

/// The UTF-16 encoding of a sequence of characters.
pub open spec fn utf16_units_of(s: Seq<char>) -> Seq<u16> {
    s.flat_map(|c: char| utf16_units_of_char(c))
}

/// The text as a wide C string stores it: one final nul character, if
/// present, is the string's terminator and is absorbed rather than stored
/// twice.
pub open spec fn strip_trailing_nul(s: Seq<char>) -> Seq<char> {
    if s.len() > 0 && s[s.len() - 1] == '\0' {
        s.drop_last()
    } else {
        s
    }
}

/// Whether a nul character sits anywhere but the final position — exactly
/// the texts that cannot become a nul-terminated wide string.
pub open spec fn has_interior_nul(s: Seq<char>) -> bool {
    exists|i: int| 0 <= i < s.len() - 1 && s[i] == '\0'
}

/// A text could not be encoded for the OS.
#[derive(Clone, Copy, PartialEq, Eq, Debug, Structural)]
pub enum WideError {
    /// The text holds a nul character before its final position.
    InteriorNul,
}

/// Relies on widestring::U16CString::from_str: the conversion fails exactly
/// when a nul value sits anywhere but the final position; on success the
/// result's content units (terminator excluded) are the UTF-16 encoding of
/// the characters, a sole final nul being absorbed as the terminator.
#[verifier::external_body]
fn encode_wide(s: &str) -> (r: Result<widestring::U16CString, WideError>)
    ensures
        r is Ok <==> !has_interior_nul(s@),
        r matches Ok(w) ==> wide_units(w) == utf16_units_of(strip_trailing_nul(s@)),
{
    match widestring::U16CString::from_str(s) {
        Ok(w) => Ok(w),
        Err(_) => Err(WideError::InteriorNul),
    }
}

/// The fixed window title, "Lovely " and the version, encoded for the OS.
/// Fails exactly when the version string carries an interior nul.
pub fn window_title_wide(version: &str) -> (r: Result<widestring::U16CString, WideError>)
    ensures
        r is Ok <==> !has_interior_nul(title_text(version@)),
        r matches Ok(w) ==> wide_units(w) == utf16_units_of(
            strip_trailing_nul(title_text(version@)),
        ),
{
    let title = crate::report::window_title(version);
    encode_wide(title.as_str())
}

/// Both texts of a crash notice encoded for the blocking modal: the title,
/// then the body.  Fails exactly when either text carries an interior nul.
pub fn encode_notice(n: &CrashNotice) -> (r: Result<
    (widestring::U16CString, widestring::U16CString),
    WideError,
>)
    ensures
        r is Ok <==> !has_interior_nul(n.title@) && !has_interior_nul(n.body@),
        r matches Ok(p) ==> wide_units(p.0) == utf16_units_of(strip_trailing_nul(n.title@))
            && wide_units(p.1) == utf16_units_of(strip_trailing_nul(n.body@)),
{
    let title = encode_wide(n.title.as_str())?;
    let body = encode_wide(n.body.as_str())?;
    Ok((title, body))
}

} // verus!
