//! Extracting the OAuth access token from the credential JSON that the
//! command-line client stores (`{"claudeAiOauth": {"accessToken": "..."}}`, or the flat
//! legacy form `{"accessToken": "..."}`).

use vstd::prelude::*;
use crate::json::{json_string_at, lookup_json_string, lookup_view};
use crate::text::{lemma_utf16_decode, push_str, to_string, trim_end_char, utf16, utf16_decode};

verus! {

#[derive(Debug)]
pub enum CredentialError {
    NotFound,
    WindowsError(String),
    ParseError(String),
}

/// The message `Display` shows for a credential error.
pub open spec fn credential_error_message(e: CredentialError) -> Seq<char> {
    match e {
        CredentialError::NotFound => "CLI credentials not found in Windows Credential Manager"@,
        CredentialError::WindowsError(m) => "Windows API error: "@ + m@,
        CredentialError::ParseError(m) => "Failed to parse credential JSON: "@ + m@,
    }
}

impl CredentialError {
    /// The human-readable message for this error.
    pub fn message(&self) -> (r: String)
        ensures
            r@ == credential_error_message(*self),
    {
        match self {
            CredentialError::NotFound => to_string(
                "CLI credentials not found in Windows Credential Manager",
            ),
            CredentialError::WindowsError(m) => {
                let mut r = to_string("Windows API error: ");
                push_str(&mut r, m.as_str());
                r
            },
            CredentialError::ParseError(m) => {
                let mut r = to_string("Failed to parse credential JSON: ");
                push_str(&mut r, m.as_str());
                r
            },
        }
    }
}

/// Where the token sits in the current credential format.
pub open spec fn nested_path() -> Seq<char> {
    "/claudeAiOauth/accessToken"@
}

/// Where the token sits in the legacy flat format.
pub open spec fn flat_path() -> Seq<char> {
    "/accessToken"@
}

/// The token the two lookups give: the one of the current format (`nested`)
/// if there is one, else the legacy one (`flat`), else a parse error; JSON
/// that does not parse is a parse error that carries the parser's message.
pub open spec fn token_from(
    nested: Result<Option<Seq<char>>, Seq<char>>,
    flat: Result<Option<Seq<char>>, Seq<char>>,
) -> Result<Seq<char>, Seq<char>> {
    match nested {
        Err(e) => Err("Invalid JSON: "@ + e),
        Ok(Some(t)) => Ok(t),
        Ok(None) => match flat {
            Ok(Some(t)) => Ok(t),
            _ => Err("accessToken field not found in credential JSON"@),
        },
    }
}

/// What extracting the access token from `json` yields.
pub open spec fn access_token_outcome(json: Seq<char>) -> Result<Seq<char>, Seq<char>> {
    token_from(json_string_at(json, nested_path()), json_string_at(json, flat_path()))
}

/// The result of reading a credential from the lookups of its token (see
/// `token_from`).
pub fn token_from_lookups(
    nested: Result<Option<String>, String>,
    flat: Result<Option<String>, String>,
) -> (r: Result<String, CredentialError>)
    ensures
        match token_from(lookup_view(nested), lookup_view(flat)) {
            Ok(t) => r matches Ok(s) && s@ == t,
            Err(m) => r matches Err(CredentialError::ParseError(s)) && s@ == m,
        },
{
    match nested {
        Err(e) => {
            let mut m = to_string("Invalid JSON: ");
            push_str(&mut m, e.as_str());
            Err(CredentialError::ParseError(m))
        },
        Ok(Some(token)) => Ok(token),
        Ok(None) => match flat {
            Ok(Some(token)) => Ok(token),
            _ => Err(
                CredentialError::ParseError(
                    to_string("accessToken field not found in credential JSON"),
                ),
            ),
        },
    }
}

/// Extracts the OAuth access token from a credential JSON blob.
pub fn extract_access_token(json: &str) -> (r: Result<String, CredentialError>)
    ensures
        match access_token_outcome(json@) {
            Ok(t) => r matches Ok(s) && s@ == t,
            Err(m) => r matches Err(CredentialError::ParseError(s)) && s@ == m,
        },
{
    let nested = lookup_json_string(json, "/claudeAiOauth/accessToken");
    let flat = lookup_json_string(json, "/accessToken");
    token_from_lookups(nested, flat)
}

/// What `String::from_utf8_lossy` gives for `bytes` (invalid sequences become
/// U+FFFD).
pub uninterp spec fn utf8_lossy(bytes: Seq<u8>) -> Seq<char>;

/// Decodes UTF-16 (`String::from_utf16`): the text whose UTF-16 encoding
/// is `units`, or none when the units are not valid UTF-16 (an unpaired
/// surrogate), that is when no text encodes to them.
#[verifier::external_body]
pub(crate) fn decode_utf16(units: &[u16]) -> (r: Option<String>)
    ensures
        match r {
            Some(s) => utf16(s@) == units@,
            None => forall|s: Seq<char>| #[trigger] utf16(s) != units@,
        },
{
    String::from_utf16(units).ok()
}

/// Decodes UTF-8, replacing invalid sequences (`String::from_utf8_lossy`).
#[verifier::external_body]
pub(crate) fn decode_utf8_lossy(bytes: &[u8]) -> (r: String)
    ensures
        r@ == utf8_lossy(bytes@),
{
    String::from_utf8_lossy(bytes).into_owned()
}

/// The blob read as little-endian 16-bit units.
pub open spec fn le_units(b: Seq<u8>) -> Seq<u16> {
    Seq::new(b.len() / 2, |i: int| (b[2 * i] as int + 256 * b[2 * i + 1] as int) as u16)
}

/// The blob's UTF-16 units with a trailing NUL unit dropped.
pub open spec fn utf16_units(b: Seq<u8>) -> Seq<u16> {
    let units = le_units(b);
    if units.len() > 0 && units.last() == 0 {
        units.drop_last()
    } else {
        units
    }
}

/// The text of a blob from its two readings: the UTF-16 one (none when the
/// size is odd or the units are not UTF-16) is taken when it starts with
/// `{`, else the UTF-8 one without its trailing NULs.
pub open spec fn text_from_readings(utf16: Option<Seq<char>>, utf8: Seq<char>) -> Seq<char> {
    match utf16 {
        Some(s) => if s.len() > 0 && s[0] == '{' {
            s
        } else {
            trim_end_char(utf8, '\0')
        },
        None => trim_end_char(utf8, '\0'),
    }
}

/// The text of a credential blob. The client may store it as UTF-16 (an
/// even size, a trailing NUL unit dropped) or as UTF-8 (with trailing NULs).
pub open spec fn blob_text(b: Seq<u8>) -> Seq<char> {
    text_from_readings(
        if b.len() % 2 == 0 {
            utf16_decode(utf16_units(b))
        } else {
            None
        },
        utf8_lossy(b),
    )
}

fn trim_trailing_nuls(s: String) -> (r: String)
    ensures
        r@ == trim_end_char(s@, '\0'),
{
    let n = s.as_str().unicode_len();
    let mut k: usize = n;
    assert(s@.take(n as int) =~= s@);
    while k > 0 && s.as_str().get_char(k - 1) == '\0'
        invariant
            n == s@.len(),
            k <= n,
            trim_end_char(s@.take(k as int), '\0') == trim_end_char(s@, '\0'),
        decreases k,
    {
        assert(s@.take(k as int).drop_last() =~= s@.take(k - 1));
        k = k - 1;
    }
    if k > 0 {
        assert(s@.take(k as int).last() != '\0');
    }
    assert(trim_end_char(s@.take(k as int), '\0') == s@.take(k as int));
    let mut r = String::new();
    let mut i: usize = 0;
    while i < k
        invariant
            n == s@.len(),
            k <= n,
            i <= k,
            r@ == s@.take(i as int),
        decreases k - i,
    {
        crate::text::push_char(&mut r, s.as_str().get_char(i));
        assert(s@.take(i + 1) =~= s@.take(i as int).push(s@[i as int]));
        i = i + 1;
    }
    r
}

/// The text of a blob from its UTF-16 and UTF-8 readings (see
/// `text_from_readings`).
pub fn text_from_blob_readings(utf16: Option<String>, utf8: String) -> (r: String)
    ensures
        r@ == text_from_readings(
            match utf16 {
                Some(s) => Some(s@),
                None => None,
            },
            utf8@,
        ),
{
    match utf16 {
        Some(s) => {
            if s.as_str().unicode_len() > 0 && s.as_str().get_char(0) == '{' {
                s
            } else {
                trim_trailing_nuls(utf8)
            }
        },
        None => trim_trailing_nuls(utf8),
    }
}

/// The text stored in a credential blob (see `blob_text`).
pub fn credential_blob_text(blob: &[u8]) -> (r: String)
    ensures
        r@ == blob_text(blob@),
{
    let n = blob.len();
    let utf8 = decode_utf8_lossy(blob);
    if n % 2 != 0 {
        return text_from_blob_readings(None, utf8);
    }
    let mut units: Vec<u16> = Vec::new();
    let mut i: usize = 0;
    while i < n / 2
        invariant
            n == blob@.len(),
            i <= n / 2,
            units@ == le_units(blob@).take(i as int),
        decreases n / 2 - i,
    {
        let u: u16 = blob[2 * i] as u16 + 256 * (blob[2 * i + 1] as u16);
        units.push(u);
        assert(units@ =~= le_units(blob@).take(i + 1));
        i = i + 1;
    }
    assert(units@ =~= le_units(blob@));
    if units.len() > 0 && units[units.len() - 1] == 0 {
        units.pop();
    }
    assert(units@ =~= utf16_units(blob@));
    let utf16 = decode_utf16(units.as_slice());
    proof {
        match &utf16 {
            Some(s) => lemma_utf16_decode(units@, s@),
            None => lemma_utf16_decode(units@, Seq::empty()),
        }
    }
    text_from_blob_readings(utf16, utf8)
}

/// What reading a credential blob gives: an empty blob is a parse error,
/// otherwise the access token extracted from the blob's text.
pub fn decode_credential_blob(blob: &[u8]) -> (r: Result<String, CredentialError>)
    ensures
        blob@.len() == 0 ==> (r matches Err(CredentialError::ParseError(m)) && m@
            == "Empty credential blob"@),
        blob@.len() > 0 ==> match access_token_outcome(blob_text(blob@)) {
            Ok(t) => r matches Ok(s) && s@ == t,
            Err(m) => r matches Err(CredentialError::ParseError(s)) && s@ == m,
        },
{
    if blob.len() == 0 {
        return Err(CredentialError::ParseError(to_string("Empty credential blob")));
    }
    let text = credential_blob_text(blob);
    extract_access_token(text.as_str())
}

/// What the token lookup gives from its two sources, in order: the
/// credentials file in the user's home directory (`None` when absent) and
/// the credential blob of the legacy store (`None` when absent). A token in
/// the file wins; otherwise the blob is read, and without a blob the
/// credentials are not found.
pub fn token_from_sources(file: Option<&str>, blob: Option<&[u8]>) -> (r: Result<
    String,
    CredentialError,
>)
    ensures
        match file {
            Some(f) if access_token_outcome(f@) is Ok => r matches Ok(s) && s@
                == access_token_outcome(f@)->Ok_0,
            _ => match blob {
                None => r is Err && r->Err_0 is NotFound,
                Some(b) => if b@.len() == 0 {
                    r matches Err(CredentialError::ParseError(m)) && m@ == "Empty credential blob"@
                } else {
                    match access_token_outcome(blob_text(b@)) {
                        Ok(t) => r matches Ok(s) && s@ == t,
                        Err(m) => r matches Err(CredentialError::ParseError(s)) && s@ == m,
                    }
                },
            },
        },
{
    match file {
        Some(f) => match extract_access_token(f) {
            Ok(t) => {
                return Ok(t);
            },
            Err(_) => {},
        },
        None => {},
    }
    match blob {
        None => Err(CredentialError::NotFound),
        Some(b) => decode_credential_blob(b),
    }
}

/// The error for a failed credential read: "not found" for the Windows
/// `ERROR_NOT_FOUND` code (HRESULT `0x80070490`, which is `-2147023728` as an
/// `i32`), else the system's message.
pub fn credential_read_error(code: i32, message: String) -> (r: CredentialError)
    ensures
        code == -2147023728i32 ==> r is NotFound,
        code != -2147023728i32 ==> (r matches CredentialError::WindowsError(m) && m == message),
{
    if code == -2147023728i32 {
        CredentialError::NotFound
    } else {
        CredentialError::WindowsError(message)
    }
}

} // verus!
