use vstd::prelude::*;

verus! {

/// Longest site name accepted, in characters.
pub const MAX_SITE_NAME_LEN: usize = 100;

/// Shortest secret accepted, in characters.
pub const MIN_SECRET_LEN: usize = 16;

/// A rule that a site name or a secret broke: the field and a message for
/// the user.
#[derive(Debug, Clone, PartialEq, Eq)]
pub struct ValidationError {
    pub field: String,
    pub message: String,
}

impl ValidationError {
    pub fn new(field: &str, message: &str) -> (r: Self)
        ensures
            r.field@ == field@,
            r.message@ == message@,
    {
        Self { field: field.to_string(), message: message.to_string() }
    }
}

/// Unicode's White_Space property, which `str::trim` strips.
pub open spec fn is_whitespace(c: char) -> bool {
    let n = c as u32;
    (0x09 <= n <= 0x0d) || n == 0x20 || n == 0x85 || n == 0xa0 || n == 0x1680 || (0x2000 <= n
        <= 0x200a) || n == 0x2028 || n == 0x2029 || n == 0x202f || n == 0x205f || n == 0x3000
}

/// Nothing is left once surrounding whitespace is trimmed.
pub open spec fn is_blank(s: Seq<char>) -> bool {
    forall|i: int| 0 <= i < s.len() ==> is_whitespace(#[trigger] s[i])
}

/// `[A-Za-z0-9\-._]`
pub open spec fn is_site_char(c: char) -> bool {
    let n = c as u32;
    (0x41 <= n <= 0x5a) || (0x61 <= n <= 0x7a) || (0x30 <= n <= 0x39) || c == '-' || c == '.'
        || c == '_'
}

/// `[A-Z2-7]`, the RFC 4648 Base32 alphabet.
pub open spec fn is_base32_char(c: char) -> bool {
    let n = c as u32;
    (0x41 <= n <= 0x5a) || (0x32 <= n <= 0x37)
}

/// `^[A-Z2-7]+=*$`: alphabet characters, then only padding.
pub open spec fn base32_shape(s: Seq<char>) -> bool {
    &&& s.len() > 0
    &&& is_base32_char(s[0])
    &&& forall|i: int| 0 <= i < s.len() ==> is_base32_char(#[trigger] s[i]) || s[i] == '='
    &&& forall|i: int| 0 <= i < s.len() - 1 ==> #[trigger] s[i] == '=' ==> s[i + 1] == '='
}

/// Base32 shape, in whole blocks of eight characters.
pub open spec fn valid_base32(s: Seq<char>) -> bool {
    base32_shape(s) && s.len() % 8 == 0
}

/// The message of the first rule that a site name breaks, if any.
pub open spec fn site_name_problem(s: Seq<char>) -> Option<Seq<char>> {
    if is_blank(s) {
        Some("Site name cannot be empty"@)
    } else if s.len() > MAX_SITE_NAME_LEN {
        Some("Site name must be 100 characters or less"@)
    } else if !(forall|i: int| 0 <= i < s.len() ==> is_site_char(#[trigger] s[i])) {
        Some(
            "Site name can only contain alphanumeric characters, hyphens, dots, and underscores"@,
        )
    } else {
        None
    }
}

/// The message of the first rule that a secret breaks, if any.
pub open spec fn secret_problem(s: Seq<char>) -> Option<Seq<char>> {
    if is_blank(s) {
        Some("Secret cannot be empty"@)
    } else if !valid_base32(s) {
        Some("Secret must be a valid Base32 string"@)
    } else if s.len() < MIN_SECRET_LEN {
        Some("Secret should be at least 16 characters long for security"@)
    } else {
        None
    }
}

/// `r` reports `problem` for the field `field`.
pub open spec fn reports(
    r: Result<(), ValidationError>,
    field: Seq<char>,
    problem: Option<Seq<char>>,
) -> bool {
    match r {
        Ok(()) => problem is None,
        Err(e) => e.field@ == field && problem == Some(e.message@),
    }
}

fn whitespace_char(c: char) -> (r: bool)
    ensures
        r == is_whitespace(c),
{
    let n = c as u32;
    (0x09 <= n && n <= 0x0d) || n == 0x20 || n == 0x85 || n == 0xa0 || n == 0x1680 || (0x2000 <= n
        && n <= 0x200a) || n == 0x2028 || n == 0x2029 || n == 0x202f || n == 0x205f || n == 0x3000
}

fn site_char(c: char) -> (r: bool)
    ensures
        r == is_site_char(c),
{
    let n = c as u32;
    (0x41 <= n && n <= 0x5a) || (0x61 <= n && n <= 0x7a) || (0x30 <= n && n <= 0x39) || c == '-'
        || c == '.' || c == '_'
}

fn base32_char(c: char) -> (r: bool)
    ensures
        r == is_base32_char(c),
{
    let n = c as u32;
    (0x41 <= n && n <= 0x5a) || (0x32 <= n && n <= 0x37)
}

/// Whether `s` is empty once surrounding whitespace is trimmed.
pub fn is_blank_text(s: &str) -> (r: bool)
    ensures
        r == is_blank(s@),
{
    let n = s.unicode_len();
    let mut i: usize = 0;
    while i < n
        invariant
            n == s@.len(),
            i <= n,
            forall|j: int| 0 <= j < i ==> is_whitespace(#[trigger] s@[j]),
        decreases n - i,
    {
        if !whitespace_char(s.get_char(i)) {
            return false;
        }
        i = i + 1;
    }
    true
}

/// Whether `input` is Base32 text of the RFC 4648 alphabet, optionally
/// padded with `=`, whose length is a multiple of eight.
pub fn is_valid_base32(input: &str) -> (r: bool)
    ensures
        r == valid_base32(input@),
{
    let n = input.unicode_len();
    if n == 0 || n % 8 != 0 {
        return false;
    }
    let mut padding = false;
    let mut i: usize = 0;
    while i < n
        invariant
            n == input@.len(),
            n > 0,
            i <= n,
            i > 0 ==> is_base32_char(input@[0]),
            padding == (i > 0 && input@[i - 1] == '='),
            forall|j: int| 0 <= j < i ==> is_base32_char(#[trigger] input@[j]) || input@[j] == '=',
            forall|j: int| 0 <= j < i - 1 ==> #[trigger] input@[j] == '=' ==> input@[j + 1] == '=',
        decreases n - i,
    {
        let c = input.get_char(i);
        if c == '=' {
            if i == 0 {
                return false;
            }
            padding = true;
        } else if base32_char(c) {
            if padding {
                return false;
            }
            padding = false;
        } else {
            return false;
        }
        i = i + 1;
    }
    true
}

/// Checks a site name: not blank, at most 100 characters, and only
/// `[A-Za-z0-9\-._]`; the first rule broken is reported.
pub fn validate_site_name(site_name: &str) -> (r: Result<(), ValidationError>)
    ensures
        reports(r, "site_name"@, site_name_problem(site_name@)),
{
    if is_blank_text(site_name) {
        return Err(ValidationError::new("site_name", "Site name cannot be empty"));
    }
    let n = site_name.unicode_len();
    if n > MAX_SITE_NAME_LEN {
        return Err(ValidationError::new("site_name", "Site name must be 100 characters or less"));
    }
    let mut i: usize = 0;
    while i < n
        invariant
            n == site_name@.len(),
            n <= MAX_SITE_NAME_LEN,
            !is_blank(site_name@),
            i <= n,
            forall|j: int| 0 <= j < i ==> is_site_char(#[trigger] site_name@[j]),
        decreases n - i,
    {
        if !site_char(site_name.get_char(i)) {
            assert(!is_site_char(site_name@[i as int]));
            return Err(
                ValidationError::new(
                    "site_name",
                    "Site name can only contain alphanumeric characters, hyphens, dots, and underscores",
                ),
            );
        }
        i = i + 1;
    }
    Ok(())
}

/// Checks a secret: not blank, Base32 in whole blocks, and at least 16
/// characters; the first rule broken is reported.
pub fn validate_secret(secret: &str) -> (r: Result<(), ValidationError>)
    ensures
        reports(r, "secret"@, secret_problem(secret@)),
{
    if is_blank_text(secret) {
        return Err(ValidationError::new("secret", "Secret cannot be empty"));
    }
    if !is_valid_base32(secret) {
        return Err(ValidationError::new("secret", "Secret must be a valid Base32 string"));
    }
    if secret.unicode_len() < MIN_SECRET_LEN {
        return Err(
            ValidationError::new(
                "secret",
                "Secret should be at least 16 characters long for security",
            ),
        );
    }
    Ok(())
}

} // verus!
