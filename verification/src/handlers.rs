//! The decisions that the route handlers take between their reads and writes
//! of the database and of the object store: who may do what, which inputs are
//! refused, and how names, paths and limits are formed.

use vstd::prelude::*;
use vstd::string::StringSliceAdditionalSpecFns;


use crate::error::{AppError, ErrorContext, answers};
use crate::model::{AuthResponse, MAX_UTC_SECS, PublicUser, THIRTY_DAYS_SECS, UtcTime};
use crate::text::{char_count, contains_char, i64_to_decimal, inappropriate, is_inappropriate, signed_decimal};
use crate::token::{TokenError, argon2_accepts, phc_hash_parses, verify_outcome};
use crate::validation::{opt_view, views};

verus! {

broadcast use vstd::string::group_string_axioms;

// ---------------------------------------------------------------- accounts

/// The first rule that a registration breaks, before any lookup.
pub open spec fn registration_problem(username: Seq<char>, password: Seq<char>, email: Seq<char>) -> Option<Seq<char>> {
    if username.len() < 3 || username.len() > 30 {
        Some("Username must be between 3 and 30 characters"@)
    } else if inappropriate(username) {
        Some("Username contains inappropriate content"@)
    } else if password.len() < 8 || password.len() > 50 {
        Some("Password must be between 8 and 50 characters"@)
    } else if !email.contains('@') {
        Some("Email address is invalid"@)
    } else {
        None
    }
}

/// Every registration within the limits is accepted: a decent username of 3
/// to 30 characters, a password of 8 to 50 characters (both bounds included)
/// and an email with an `@`. A registration with a username outside 3 to 30
/// characters is refused for it, and one with a fitting, decent username but
/// a password outside 8 to 50 characters is refused for the password.
pub proof fn law_registration_limits(username: Seq<char>, password: Seq<char>, email: Seq<char>)
    ensures
        3 <= username.len() <= 30 && !inappropriate(username) && 8 <= password.len() <= 50
            && email.contains('@') ==> registration_problem(username, password, email) is None,
        !(3 <= username.len() <= 30) ==> registration_problem(username, password, email) == Some(
            "Username must be between 3 and 30 characters"@,
        ),
        3 <= username.len() <= 30 && !inappropriate(username) && !(8 <= password.len() <= 50)
            ==> registration_problem(username, password, email) == Some(
            "Password must be between 8 and 50 characters"@,
        ),
{
}

/// Checks the fields of a registration: the username has 3 to 30 characters
/// and is decent, the password 8 to 50 characters, and the email has an `@`.
pub fn validate_registration(username: &str, password: &str, email: &str) -> (r: Result<(), AppError>)
    ensures
        answers(r, registration_problem(username@, password@, email@)),
{
    let ulen: usize = char_count(username);
    if ulen < 3 || ulen > 30 {
        return Err(AppError::bad_request("Username must be between 3 and 30 characters".to_owned()));
    }
    if is_inappropriate(username) {
        return Err(AppError::bad_request("Username contains inappropriate content".to_owned()));
    }
    let plen: usize = char_count(password);
    if plen < 8 || plen > 50 {
        return Err(AppError::bad_request("Password must be between 8 and 50 characters".to_owned()));
    }
    if !contains_char(email, '@') {
        return Err(AppError::bad_request("Email address is invalid".to_owned()));
    }
    Ok(())
}

/// Refuses a registration whose username or email is already in use; the
/// username is considered first.
pub fn check_availability(username_free: bool, email_free: bool) -> (r: Result<(), AppError>)
    ensures
        answers(
            r,
            if !username_free {
                Some("Username is already taken"@)
            } else if !email_free {
                Some("Email address is already taken"@)
            } else {
                None
            },
        ),
{
    if !username_free {
        return Err(AppError::bad_request("Username is already taken".to_owned()));
    }
    if !email_free {
        return Err(AppError::bad_request("Email address is already taken".to_owned()));
    }
    Ok(())
}

/// `mailchecker::is_valid`: whether the address is well formed and its domain
/// is on neither the crate's built-in list of disposable-mail providers nor
/// the domains added to it at run time through `add_custom_domains`. Because
/// of the latter, two calls on one address may differ, so nothing is stated
/// of the result.
#[verifier::external_body]
fn mail_provider_allowed(email: &str) -> bool {
    mailchecker::is_valid(email)
}

/// `e` is the refusal of an address at a disposable-mail provider: a bad
/// request whose context gives the reason.
pub open spec fn is_disposable_refusal(e: AppError) -> bool {
    e matches AppError::BadRequest(m, Some(c)) && m@ == "Email provider not allowed"@
        && c.entries@.len() == 1 && c.entries@[0].0@ == "reason"@ && c.entries@[0].1@
        == "disposable_provider"@
}

/// Refuses an address that the mail checker did not allow, with the reason
/// given in the context.
pub fn check_email_provider(allowed: bool) -> (r: Result<(), AppError>)
    ensures
        allowed ==> r is Ok,
        !allowed ==> (r matches Err(e) && is_disposable_refusal(e)),
{
    if !allowed {
        let mut entries: Vec<(String, String)> = Vec::new();
        entries.push(("reason".to_owned(), "disposable_provider".to_owned()));
        return Err(AppError::with_context("Email provider not allowed".to_owned(), ErrorContext { entries }));
    }
    Ok(())
}

/// Asks the mail checker about the address and refuses it when it is not
/// allowed: whatever the checker answers, the result is either success or
/// the refusal of a disposable provider.
pub fn screen_email_provider(email: &str) -> (r: Result<(), AppError>)
    ensures
        r is Ok || (r matches Err(e) && is_disposable_refusal(e)),
{
    let allowed: bool = mail_provider_allowed(email);
    check_email_provider(allowed)
}

/// Refuses an address that the mail check did not find safely reachable.
pub fn check_email_reachable(safe: bool) -> (r: Result<(), AppError>)
    ensures
        answers(r, if safe { None } else { Some("Email address is not reachable"@) }),
{
    if !safe {
        return Err(AppError::bad_request("Email address is not reachable".to_owned()));
    }
    Ok(())
}

/// Checks a login password against the stored hash of the account: a stored
/// text that is no PHC string is an internal error, a wrong password is
/// refused.
pub fn check_password(password: &str, stored_hash: &str) -> (r: Result<(), AppError>)
    ensures
        !phc_hash_parses(stored_hash@) ==> (r matches Err(AppError::Internal(m)) && m@
            == "Security hash error"@),
        phc_hash_parses(stored_hash@) && !argon2_accepts(password.spec_bytes(), stored_hash@) ==> (
        r matches Err(AppError::Unauthorized(m)) && m@ == "Invalid credentials"@),
        phc_hash_parses(stored_hash@) && argon2_accepts(password.spec_bytes(), stored_hash@) ==> r is Ok,
{
    match crate::token::verify_token(password, stored_hash) {
        Err(_) => Err(AppError::Internal("Security hash error".to_owned())),
        Ok(false) => Err(AppError::Unauthorized("Invalid credentials".to_owned())),
        Ok(true) => Ok(()),
    }
}

/// A password is accepted at login against the hash stored for it at
/// registration: what `hash_token` promises of the hash it makes of a password
/// is what `check_password` needs to accept that password.
pub proof fn law_stored_password_accepted(password: Seq<u8>, stored: Seq<char>)
    requires
        verify_outcome(password, stored) == Ok::<bool, TokenError>(true),
    ensures
        phc_hash_parses(stored),
        argon2_accepts(password, stored),
{
}

/// The refusal of a login with an unknown email.
pub fn unknown_account() -> (r: AppError)
    ensures
        r matches AppError::Unauthorized(m) && m@ == "Invalid credentials"@,
{
    AppError::Unauthorized("Invalid credentials".to_owned())
}

/// The answer to a login or registration: a session token that expires thirty
/// days after `now`.
pub fn session_response(user: PublicUser, token: String, now: UtcTime) -> (r: AuthResponse)
    requires
        now.secs + THIRTY_DAYS_SECS <= MAX_UTC_SECS,
    ensures
        r.user == user,
        r.token == token,
        r.token_type@ == "session"@,
        r.expires_at == Some(UtcTime { secs: (now.secs + THIRTY_DAYS_SECS) as i64, nanos: now.nanos }),
{
    AuthResponse { user, token, token_type: "session".to_owned(), expires_at: Some(now.plus_thirty_days()) }
}

// ---------------------------------------------------------------- ownership

/// Only the author of a comment may delete it.
pub fn check_comment_owner(author_id: i64, user_id: i64) -> (r: Result<(), AppError>)
    ensures
        author_id == user_id ==> r is Ok,
        author_id != user_id ==> (r matches Err(AppError::Forbidden(m)) && m@ == "Not your comment"@),
{
    if author_id != user_id {
        return Err(AppError::Forbidden("Not your comment".to_owned()));
    }
    Ok(())
}

/// Only the uploader of a font may delete it.
pub fn check_font_deletion(uploaded_by: Option<i64>, user_id: i64) -> (r: Result<(), AppError>)
    ensures
        uploaded_by == Some(user_id) ==> r is Ok,
        uploaded_by != Some(user_id) ==> (r matches Err(AppError::Forbidden(m)) && m@
            == "You do not have permission to delete this font"@),
{
    if uploaded_by != Some(user_id) {
        return Err(AppError::Forbidden("You do not have permission to delete this font".to_owned()));
    }
    Ok(())
}

/// Only the uploader of a font may add versions to it.
pub fn check_version_upload(uploaded_by: Option<i64>, user_id: i64) -> (r: Result<(), AppError>)
    ensures
        uploaded_by == Some(user_id) ==> r is Ok,
        uploaded_by != Some(user_id) ==> (r matches Err(AppError::Forbidden(m)) && m@ == "Not your font"@),
{
    if uploaded_by != Some(user_id) {
        return Err(AppError::Forbidden("Not your font".to_owned()));
    }
    Ok(())
}

/// Only the author of a snippet may delete it.
pub fn check_snippet_deletion(author: Option<i64>, user_id: i64) -> (r: Result<(), AppError>)
    ensures
        author == Some(user_id) ==> r is Ok,
        author != Some(user_id) ==> (r matches Err(AppError::Forbidden(m)) && m@
            == "You do not have permission to delete this snippet"@),
{
    if author != Some(user_id) {
        return Err(AppError::Forbidden("You do not have permission to delete this snippet".to_owned()));
    }
    Ok(())
}

// ---------------------------------------------------------------- uploads

/// The first rule that the fields of a font upload break.
pub open spec fn upload_problem(
    name: Seq<char>,
    description: Option<Seq<char>>,
    tags: Seq<Seq<char>>,
    changelog: Option<Seq<char>>,
) -> Option<Seq<char>> {
    if inappropriate(name) {
        Some("Name contains inappropriate content"@)
    } else if description is Some && inappropriate(description->0) {
        Some("Description contains inappropriate content"@)
    } else if exists|i: int| 0 <= i < tags.len() && inappropriate(#[trigger] tags[i]) {
        Some("Tag contains inappropriate content"@)
    } else if tags.len() > 10 {
        Some("Too many tags"@)
    } else if changelog is Some && inappropriate(changelog->0) {
        Some("Changelog contains inappropriate content"@)
    } else {
        None
    }
}

/// Checks the fields of a font upload: none may be indecent, and there may be
/// at most ten tags.
pub fn check_upload_fields(
    name: &str,
    description: &Option<String>,
    tags: &Vec<String>,
    changelog: &Option<String>,
) -> (r: Result<(), AppError>)
    ensures
        answers(r, upload_problem(name@, opt_view(*description), views(tags@), opt_view(*changelog))),
{
    if is_inappropriate(name) {
        return Err(AppError::bad_request("Name contains inappropriate content".to_owned()));
    }
    if let Some(desc) = description {
        if is_inappropriate(desc.as_str()) {
            return Err(AppError::bad_request("Description contains inappropriate content".to_owned()));
        }
    }
    let n: usize = tags.len();
    let mut i: usize = 0;
    while i < n
        invariant
            n == tags@.len(),
            i <= n,
            !inappropriate(name@),
            !(opt_view(*description) is Some && inappropriate(opt_view(*description)->0)),
            forall|k: int| 0 <= k < i ==> !inappropriate(#[trigger] views(tags@)[k]),
        decreases n - i,
    {
        assert(views(tags@)[i as int] == tags@[i as int]@);
        if is_inappropriate(tags[i].as_str()) {
            assert(inappropriate(views(tags@)[i as int]));
            return Err(AppError::bad_request("Tag contains inappropriate content".to_owned()));
        }
        i = i + 1;
    }
    if tags.len() > 10 {
        return Err(AppError::bad_request("Too many tags".to_owned()));
    }
    check_changelog_decency(changelog)
}

/// Refuses an indecent changelog.
pub fn check_changelog_decency(changelog: &Option<String>) -> (r: Result<(), AppError>)
    ensures
        answers(
            r,
            if changelog is Some && inappropriate(changelog->0@) {
                Some("Changelog contains inappropriate content"@)
            } else {
                None
            },
        ),
{
    if let Some(log) = changelog {
        if is_inappropriate(log.as_str()) {
            return Err(AppError::bad_request("Changelog contains inappropriate content".to_owned()));
        }
    }
    Ok(())
}

/// Refuses a slug that another font already uses.
pub fn check_slug_free(taken: bool) -> (r: Result<(), AppError>)
    ensures
        answers(r, if taken { Some("Slug is already taken"@) } else { None }),
{
    if taken {
        return Err(AppError::bad_request("Slug is already taken".to_owned()));
    }
    Ok(())
}

/// Refuses a version number that the font already has.
pub fn check_version_free(exists: bool) -> (r: Result<(), AppError>)
    ensures
        answers(r, if exists { Some("Version already exists"@) } else { None }),
{
    if exists {
        return Err(AppError::bad_request("Version already exists".to_owned()));
    }
    Ok(())
}

/// Checks the uploaded file, given what the `.spf` decoder made of it: a file
/// is required (`None` when there is none), and it must decode; a decoding
/// error is answered with the decoder's description of it.
pub fn check_font_file(decoded: Option<Result<(), String>>) -> (r: Result<(), AppError>)
    ensures
        match decoded {
            None => answers(r, Some("File is required"@)),
            Some(Ok(())) => r is Ok,
            Some(Err(m)) => r matches Err(AppError::SPF(t)) && t@ == m@,
        },
{
    match decoded {
        None => Err(AppError::bad_request("File is required".to_owned())),
        Some(Ok(())) => Ok(()),
        Some(Err(m)) => Err(AppError::SPF(m)),
    }
}

/// Where a version of a font is stored: `{slug}/{slug}-v{version}.spf`.
pub open spec fn font_path(slug: Seq<char>, version: int) -> Seq<char> {
    slug + "/"@ + slug + "-v"@ + signed_decimal(version) + ".spf"@
}

/// Where a version of a font is stored.
pub fn font_file_path(slug: &str, version: i64) -> (r: String)
    ensures
        r@ == font_path(slug@, version as int),
{
    let mut path: String = slug.to_owned();
    path.append("/");
    path.append(slug);
    path.append("-v");
    let v: String = i64_to_decimal(version);
    path.append(v.as_str());
    path.append(".spf");
    path
}

/// The lower-case form of a text under Unicode's case mapping.
pub uninterp spec fn unicode_lowercase(text: Seq<char>) -> Seq<char>;

/// `str::to_lowercase` of std: the text mapped to lower case by the Unicode
/// `Lowercase` mapping; the mapping tables are not stated, only named by
/// `unicode_lowercase`.
#[verifier::external_body]
fn lowercase(text: &str) -> (r: String)
    ensures
        r@ == unicode_lowercase(text@),
{
    text.to_lowercase()
}

/// The text with every space replaced by a hyphen.
pub open spec fn hyphenated(text: Seq<char>) -> Seq<char> {
    text.map_values(|c: char| if c == ' ' { '-' } else { c })
}

/// The slug of a new tag: its name in lower case, spaces made hyphens.
pub fn tag_slug(name: &str) -> (r: String)
    ensures
        r@ == hyphenated(unicode_lowercase(name@)),
{
    let lower: String = lowercase(name);
    let chars: Vec<char> = crate::text::chars_of(lower.as_str());
    let mut out: Vec<char> = Vec::new();
    let n: usize = chars.len();
    let mut i: usize = 0;
    while i < n
        invariant
            n == chars@.len(),
            i <= n,
            out@ == hyphenated(chars@.take(i as int)),
        decreases n - i,
    {
        let c: char = chars[i];
        out.push(if c == ' ' { '-' } else { c });
        assert(hyphenated(chars@.take(i + 1)) =~= hyphenated(chars@.take(i as int)).push(
            if c == ' ' { '-' } else { c },
        ));
        i = i + 1;
    }
    assert(chars@.take(n as int) =~= chars@);
    crate::text::string_of(&out)
}

/// The value of a string of decimal digits.
pub open spec fn digits_value(s: Seq<char>) -> int
    decreases s.len(),
{
    if s.len() == 0 {
        0
    } else {
        digits_value(s.drop_last()) * 10 + (s.last() as int - '0' as int)
    }
}

/// Every character is an ASCII digit.
pub open spec fn all_digits(s: Seq<char>) -> bool {
    forall|i: int| 0 <= i < s.len() ==> '0' <= #[trigger] s[i] && s[i] <= '9'
}

/// The number that `str::parse::<i64>` reads from the text: an optional sign
/// and at least one digit, nothing else, within the range of `i64`.
pub open spec fn parse_i64(s: Seq<char>) -> Option<i64> {
    if s.len() == 0 {
        None
    } else {
        let neg = s[0] == '-';
        let body = if s[0] == '-' || s[0] == '+' { s.drop_first() } else { s };
        if body.len() == 0 || !all_digits(body) {
            None
        } else {
            let v = if neg { -digits_value(body) } else { digits_value(body) };
            if i64::MIN <= v && v <= i64::MAX { Some(v as i64) } else { None }
        }
    }
}

proof fn lemma_digits_grow(s: Seq<char>, i: int)
    requires
        0 <= i < s.len(),
        forall|k: int| 0 <= k <= i ==> '0' <= #[trigger] s[k] && s[k] <= '9',
    ensures
        digits_value(s.take(i + 1)) >= digits_value(s.take(i)) >= 0,
        digits_value(s.take(i + 1)) == digits_value(s.take(i)) * 10 + (s[i] as int - '0' as int),
    decreases i,
{
    assert(s.take(i + 1).drop_last() =~= s.take(i));
    if i > 0 {
        lemma_digits_grow(s, i - 1);
    } else {
        assert(s.take(0).len() == 0);
    }
}

/// A version number as given in an upload form: the number written, or zero
/// when the text is not a number.
pub fn parse_version(text: &str) -> (r: i64)
    ensures
        r == (match parse_i64(text@) {
            Some(v) => v,
            None => 0,
        }),
{
    let chars: Vec<char> = crate::text::chars_of(text);
    let n: usize = chars.len();
    if n == 0 {
        return 0;
    }
    let neg: bool = chars[0] == '-';
    let start: usize = if chars[0] == '-' || chars[0] == '+' { 1 } else { 0 };
    let ghost body = chars@.subrange(start as int, n as int);
    proof {
        if start == 1 {
            assert(body =~= text@.drop_first());
        } else {
            assert(body =~= text@);
        }
    }
    if start == n {
        return 0;
    }
    let bound: i128 = 9223372036854775808;
    let mut acc: i128 = 0;
    let mut over: bool = false;
    let mut i: usize = start;
    assert(body.take(0).len() == 0);
    while i < n
        invariant
            chars@ == text@,
            n == chars@.len(),
            start <= i <= n,
            start < n,
            body == chars@.subrange(start as int, n as int),
            !all_digits(body) ==> parse_i64(text@) is None,
            bound == 9223372036854775808,
            forall|k: int| 0 <= k < i - start ==> '0' <= #[trigger] body[k] && body[k] <= '9',
            !over ==> acc == digits_value(body.take(i - start)) && 0 <= acc <= bound,
            over ==> digits_value(body.take(i - start)) > bound,
        decreases n - i,
    {
        let c: char = chars[i];
        assert(body[i - start] == c);
        if !('0' <= c && c <= '9') {
            assert(!all_digits(body));
            return 0;
        }
        proof {
            lemma_digits_grow(body, i - start);
        }
        let d: i128 = (c as u32 - '0' as u32) as i128;
        if !over {
            let next: i128 = acc * 10 + d;
            if next > bound {
                over = true;
            } else {
                acc = next;
            }
        }
        i = i + 1;
    }
    assert(body.take(n - start) =~= body);
    assert(all_digits(body));
    if over {
        return 0;
    }
    let v: i128 = if neg { -acc } else { acc };
    if v < -9223372036854775808i128 || v > 9223372036854775807i128 {
        return 0;
    }
    v as i64
}

// ---------------------------------------------------------------- queries

/// How many fonts a search returns at most: the requested limit, or fifty
/// when none is requested; a negative limit counts as fifty.
pub fn font_search_limit(limit: Option<i64>) -> (r: u64)
    ensures
        r == (match limit {
            None => 50,
            Some(l) => if l < 0 { 50 } else { l },
        }),
{
    match limit {
        None => 50,
        Some(l) => if l < 0 {
            50
        } else {
            l as u64
        },
    }
}

/// How many snippets a search returns at most: the requested limit brought
/// into 1 to 50, or 50 when none is requested.
pub fn snippet_search_limit(limit: Option<i64>) -> (r: u64)
    ensures
        r == (match limit {
            None => 50,
            Some(l) => if l < 1 { 1 } else if l > 50 { 50 } else { l },
        }),
{
    let l: i64 = match limit {
        None => 50,
        Some(l) => l,
    };
    let c: i64 = if l < 1 {
        1
    } else if l > 50 {
        50
    } else {
        l
    };
    c as u64
}

} // verus!
