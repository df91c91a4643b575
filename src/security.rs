//! Input checks, password hashing and session id drawing.

use vstd::prelude::*;
use crate::db_api::db_result::{SessionError, SessionErrorType};
use crate::text::chars_of;
use vstd::utf8::{encode_utf8, is_ascii_chars};

verus! {

/// argon2's error type, carried through unread.
#[verifier::external_type_specification]
#[verifier::external_body]
pub struct ExArgon2Error(argon2::Error);

/// Relies on `char::is_alphanumeric`, which follows Unicode's Alphabetic
/// and Numeric properties.
pub uninterp spec fn unicode_alphanumeric(c: char) -> bool;

/// Relies on the argon2 verification of `password` against an encoded hash,
/// with `secret` as the pepper.
pub uninterp spec fn argon2_password_matches(encoded: Seq<char>, password: Seq<char>, secret: Seq<char>) -> bool;

/// Relies on argon2's verification: whether it decodes the hash and completes
/// the check, which depends on the hash string, the password and the secret.
pub uninterp spec fn argon2_verify_ok(encoded: Seq<char>, password: Seq<char>, secret: Seq<char>) -> bool;

/// Relies on `argon2::hash_encoded` (Argon2id, version 0x13, no associated
/// data): the encoded hash of a password with a given salt, secret and costs.
pub uninterp spec fn argon2id_encoded(
    password: Seq<char>,
    salt: Seq<char>,
    secret: Seq<char>,
    mem_cost: u32,
    time_cost: u32,
    lanes: u32,
    hash_length: u32,
) -> Seq<char>;

/// Length of a session id.
pub const SESSION_ID_LENGTH: usize = 32;

/// Length of the random salt of a password hash.
pub const SALT_LENGTH: usize = 10;

/// Cost parameters of the password hash: memory in KiB, passes, lanes, digest bytes.
pub const HASH_MEM_COST: u32 = 4096;
pub const HASH_TIME_COST: u32 = 192;
pub const HASH_LANES: u32 = 2;
pub const HASH_LENGTH: u32 = 32;

pub open spec fn is_ascii_alnum(c: char) -> bool {
    ('a' <= c && c <= 'z') || ('A' <= c && c <= 'Z') || ('0' <= c && c <= '9')
}

/// As `char::is_ascii_punctuation` is documented: `!` to `/`, `:` to `@`,
/// `[` to `` ` `` and `{` to `~`.
pub open spec fn is_ascii_punct(c: char) -> bool {
    ('!' <= c && c <= '/') || (':' <= c && c <= '@') || ('[' <= c && c <= '`') || ('{' <= c && c <= '~')
}

/// As `char::is_ascii_whitespace` is documented: space, tab, line feed, form
/// feed and carriage return.
pub open spec fn is_ascii_space(c: char) -> bool {
    c == ' ' || c == '\t' || c == '\n' || c == '\x0C' || c == '\r'
}

/// Length in bytes of the UTF-8 encoding.
pub open spec fn utf8_len(s: Seq<char>) -> int {
    encode_utf8(s).len() as int
}

pub open spec fn comment_char_ok(c: char) -> bool {
    unicode_alphanumeric(c) || is_ascii_punct(c) || is_ascii_space(c)
}

pub open spec fn password_char_ok(c: char) -> bool {
    unicode_alphanumeric(c) || is_ascii_punct(c)
}

pub open spec fn filename_char_ok(c: char) -> bool {
    is_ascii_alnum(c) || c == '-' || c == '_' || c == '.'
}

pub open spec fn tag_char_ok(c: char) -> bool {
    is_ascii_alnum(c) || c == ' '
}

pub open spec fn all_ascii_alnum(s: Seq<char>) -> bool {
    forall|i: int| 0 <= i < s.len() ==> is_ascii_alnum(#[trigger] s[i])
}

pub open spec fn all_comment_chars(s: Seq<char>) -> bool {
    forall|i: int| 0 <= i < s.len() ==> comment_char_ok(#[trigger] s[i])
}

pub open spec fn all_password_chars(s: Seq<char>) -> bool {
    forall|i: int| 0 <= i < s.len() ==> password_char_ok(#[trigger] s[i])
}

pub open spec fn all_filename_chars(s: Seq<char>) -> bool {
    forall|i: int| 0 <= i < s.len() ==> filename_char_ok(#[trigger] s[i])
}

pub open spec fn all_tag_chars(s: Seq<char>) -> bool {
    forall|i: int| 0 <= i < s.len() ==> tag_char_ok(#[trigger] s[i])
}

/// What `v_htmlescape` puts in place of one character.
pub open spec fn html_escape_char(c: char) -> Seq<char> {
    if c == '<' {
        "&lt;"@
    } else if c == '>' {
        "&gt;"@
    } else if c == '&' {
        "&amp;"@
    } else if c == '"' {
        "&quot;"@
    } else if c == '\'' {
        "&#x27;"@
    } else if c == '/' {
        "&#x2f;"@
    } else {
        seq![c]
    }
}

pub open spec fn html_escaped(s: Seq<char>) -> Seq<char>
    decreases s.len(),
{
    if s.len() == 0 {
        Seq::empty()
    } else {
        html_escaped(s.drop_last()) + html_escape_char(s.last())
    }
}

/// Relies on `char::is_alphanumeric`.
#[verifier::external_body]
fn char_is_alphanumeric(c: char) -> (r: bool)
    ensures
        r == unicode_alphanumeric(c),
{
    c.is_alphanumeric()
}

fn char_is_ascii_alnum(c: char) -> (r: bool)
    ensures
        r == is_ascii_alnum(c),
{
    ('a' <= c && c <= 'z') || ('A' <= c && c <= 'Z') || ('0' <= c && c <= '9')
}

fn char_is_ascii_punct(c: char) -> (r: bool)
    ensures
        r == is_ascii_punct(c),
{
    ('!' <= c && c <= '/') || (':' <= c && c <= '@') || ('[' <= c && c <= '`') || ('{' <= c && c <= '~')
}

fn char_is_ascii_space(c: char) -> (r: bool)
    ensures
        r == is_ascii_space(c),
{
    c == ' ' || c == '\t' || c == '\n' || c == '\x0C' || c == '\r'
}

/// Relies on `v_htmlescape::escape`, which replaces `< > & " ' /` by entities
/// and keeps every other character.
#[verifier::external_body]
fn html_escape(s: &str) -> (r: String)
    ensures
        r@ == html_escaped(s@),
{
    v_htmlescape::escape(s).to_string()
}

/// A comment of at most 8000 bytes, made of letters, digits, ASCII
/// punctuation and ASCII whitespace, comes back HTML-escaped.
pub fn check_and_escape_comment(comment: &str) -> (r: Option<String>)
    ensures
        (utf8_len(comment@) <= 8000 && all_comment_chars(comment@))
            ==> r is Some && r->0@ == html_escaped(comment@),
        !(utf8_len(comment@) <= 8000 && all_comment_chars(comment@)) ==> r is None,
{
    if comment.as_bytes().len() > 8000 {
        return None;
    }
    let chars = chars_of(comment);
    let mut i: usize = 0;
    while i < chars.len()
        invariant
            i <= chars@.len(),
            chars@ == comment@,
            forall|j: int| 0 <= j < i ==> comment_char_ok(#[trigger] chars@[j]),
        decreases chars@.len() - i,
    {
        let c = chars[i];
        if !char_is_alphanumeric(c) && !char_is_ascii_punct(c) && !char_is_ascii_space(c) {
            assert(!comment_char_ok(comment@[i as int]));
            return None;
        }
        i = i + 1;
    }
    Some(html_escape(comment))
}

/// Number of `.` in `s`.
pub open spec fn point_count(s: Seq<char>) -> nat
    decreases s.len(),
{
    if s.len() == 0 {
        0
    } else {
        point_count(s.drop_last()) + if s.last() == '.' { 1nat } else { 0nat }
    }
}

/// Up to 32 bytes of ASCII letters, digits, `-`, `_` and `.`, with exactly
/// one `.`, before the extension.
pub fn check_filename(filename: &str) -> (r: bool)
    ensures
        r == (utf8_len(filename@) <= 32 && all_filename_chars(filename@) && point_count(filename@) == 1),
{
    if filename.as_bytes().len() > 32 {
        return false;
    }
    let chars = chars_of(filename);
    let mut points: usize = 0;
    let mut i: usize = 0;
    while i < chars.len()
        invariant
            i <= chars@.len(),
            chars@ == filename@,
            forall|j: int| 0 <= j < i ==> filename_char_ok(#[trigger] chars@[j]),
            points == point_count(chars@.subrange(0, i as int)),
            points <= i,
        decreases chars@.len() - i,
    {
        assert(chars@.subrange(0, i + 1).drop_last() == chars@.subrange(0, i as int));
        let c = chars[i];
        if !char_is_ascii_alnum(c) && c != '-' && c != '_' && c != '.' {
            assert(!filename_char_ok(filename@[i as int]));
            return false;
        }
        if c == '.' {
            points = points + 1;
        }
        i = i + 1;
    }
    assert(chars@.subrange(0, chars@.len() as int) == chars@);
    points == 1
}

/// Exactly 32 bytes of ASCII letters and digits.
pub fn check_invite_key(invite_key: &str) -> (r: bool)
    ensures
        r == (utf8_len(invite_key@) == 32 && all_ascii_alnum(invite_key@)),
{
    if invite_key.as_bytes().len() != 32 {
        return false;
    }
    let chars = chars_of(invite_key);
    let mut i: usize = 0;
    while i < chars.len()
        invariant
            i <= chars@.len(),
            chars@ == invite_key@,
            forall|j: int| 0 <= j < i ==> is_ascii_alnum(#[trigger] chars@[j]),
        decreases chars@.len() - i,
    {
        if !char_is_ascii_alnum(chars[i]) {
            assert(!is_ascii_alnum(invite_key@[i as int]));
            return false;
        }
        i = i + 1;
    }
    true
}

/// 8 to 64 bytes of letters, digits and ASCII punctuation.
pub fn check_password(password: &str) -> (r: bool)
    ensures
        r == (8 <= utf8_len(password@) <= 64 && all_password_chars(password@)),
{
    let n = password.as_bytes().len();
    if n < 8 || n > 64 {
        return false;
    }
    let chars = chars_of(password);
    let mut i: usize = 0;
    while i < chars.len()
        invariant
            i <= chars@.len(),
            chars@ == password@,
            forall|j: int| 0 <= j < i ==> password_char_ok(#[trigger] chars@[j]),
        decreases chars@.len() - i,
    {
        let c = chars[i];
        if !char_is_alphanumeric(c) && !char_is_ascii_punct(c) {
            assert(!password_char_ok(password@[i as int]));
            return false;
        }
        i = i + 1;
    }
    true
}

pub open spec fn tag_ok(t: Seq<char>) -> bool {
    t.len() <= 64 && all_tag_chars(t)
}

proof fn lemma_tag_chars_utf8_len(s: Seq<char>)
    requires
        all_tag_chars(s),
    ensures
        utf8_len(s) == s.len(),
{
    assert(is_ascii_chars(s)) by {
        assert forall|i: int| 0 <= i < s.len() implies '\0' <= #[trigger] s[i] <= '\u{7f}' by {
            assert(tag_char_ok(s[i]));
        }
    }
    vstd::utf8::is_ascii_chars_encode_utf8(s);
}

/// Up to 64 bytes of ASCII letters, digits and spaces (all of them one byte
/// each, so also up to 64 characters).
pub fn check_tag(tag: &str) -> (r: bool)
    ensures
        r == (utf8_len(tag@) <= 64 && all_tag_chars(tag@)),
        r == tag_ok(tag@),
{
    let chars = chars_of(tag);
    let mut i: usize = 0;
    while i < chars.len()
        invariant
            i <= chars@.len(),
            chars@ == tag@,
            forall|j: int| 0 <= j < i ==> tag_char_ok(#[trigger] chars@[j]),
        decreases chars@.len() - i,
    {
        let c = chars[i];
        if !char_is_ascii_alnum(c) && c != ' ' {
            assert(!tag_char_ok(tag@[i as int]));
            return false;
        }
        i = i + 1;
    }
    proof {
        lemma_tag_chars_utf8_len(tag@);
    }
    tag.len() <= 64
}

/// Up to 32 bytes of ASCII letters and digits.
pub fn check_username(username: &str) -> (r: bool)
    ensures
        r == (utf8_len(username@) <= 32 && all_ascii_alnum(username@)),
{
    if username.as_bytes().len() > 32 {
        return false;
    }
    let chars = chars_of(username);
    let mut i: usize = 0;
    while i < chars.len()
        invariant
            i <= chars@.len(),
            chars@ == username@,
            forall|j: int| 0 <= j < i ==> is_ascii_alnum(#[trigger] chars@[j]),
        decreases chars@.len() - i,
    {
        if !char_is_ascii_alnum(chars[i]) {
            assert(!is_ascii_alnum(username@[i as int]));
            return false;
        }
        i = i + 1;
    }
    true
}

/// The session id that the client presented, if any: none, or an empty
/// one, is `NoSession`, and the store is not asked.
pub fn presented_session_id(cookie_value: Option<String>) -> (r: Result<String, SessionError>)
    ensures
        match cookie_value {
            Some(id) => if id@.len() > 0 {
                r == Ok::<String, SessionError>(id)
            } else {
                r is Err && r->Err_0.error_type == SessionErrorType::NoSession
            },
            None => r is Err && r->Err_0.error_type == SessionErrorType::NoSession,
        },
{
    match cookie_value {
        Some(id) => {
            if id.as_str().is_empty() {
                Err(SessionError::new(SessionErrorType::NoSession, "Keine Session ID gespeichert"))
            } else {
                Ok(id)
            }
        },
        None => Err(SessionError::new(SessionErrorType::NoSession, "Keine Session ID gespeichert")),
    }
}

/// Relies on `rand::thread_rng` drawing from `rand::distributions::Alphanumeric`:
/// `len` characters, each an ASCII letter or digit.
#[verifier::external_body]
fn random_alphanumeric(len: usize) -> (r: String)
    ensures
        r@.len() == len,
        all_ascii_alnum(r@),
{
    rand::Rng::sample_iter(rand::thread_rng(), &rand::distributions::Alphanumeric).take(len).collect()
}

/// A fresh random session id: 32 ASCII letters and digits.
pub fn new_session_id() -> (r: String)
    ensures
        r@.len() == SESSION_ID_LENGTH,
        all_ascii_alnum(r@),
{
    random_alphanumeric(SESSION_ID_LENGTH)
}

pub open spec fn argon2id_v19_tag() -> Seq<char> {
    "$argon2id$v=19$"@
}

/// A stored hash that argon2 could decode starts with `$`.
pub open spec fn hash_is_framed(encoded: Seq<char>) -> bool {
    encoded.len() > 0 && encoded[0] == '$'
}

pub open spec fn decimal_digit(d: nat) -> char {
    seq!['0', '1', '2', '3', '4', '5', '6', '7', '8', '9'][d as int]
}

/// A number written in decimal, as `Display` writes it.
pub open spec fn decimal(n: nat) -> Seq<char>
    decreases n,
{
    if n < 10 {
        seq![decimal_digit(n)]
    } else {
        decimal(n / 10).push(decimal_digit(n % 10))
    }
}

/// How an Argon2id (version 0x13) hash starts: variant, version and cost
/// parameters, then the salt.
pub open spec fn argon2id_params_tag(mem_cost: u32, time_cost: u32, lanes: u32) -> Seq<char> {
    argon2id_v19_tag() + "m="@ + decimal(mem_cost as nat) + ",t="@ + decimal(time_cost as nat) + ",p="@
        + decimal(lanes as nat) + "$"@
}

/// The start of every hash that `hash_password` writes.
pub open spec fn password_hash_tag() -> Seq<char> {
    "$argon2id$v=19$m=4096,t=192,p=2$"@
}

/// What argon2 returns in `u32` lengths.
pub open spec fn fits_u32(s: Seq<char>) -> bool {
    utf8_len(s) <= u32::MAX
}

proof fn lemma_ascii_utf8_len(s: Seq<char>)
    requires
        all_ascii_alnum(s),
    ensures
        utf8_len(s) == s.len(),
{
    assert(is_ascii_chars(s)) by {
        assert forall|i: int| 0 <= i < s.len() implies '\0' <= #[trigger] s[i] <= '\u{7f}' by {
            assert(is_ascii_alnum(s[i]));
        }
    }
    vstd::utf8::is_ascii_chars_encode_utf8(s);
}

proof fn lemma_password_hash_tag()
    ensures
        argon2id_params_tag(HASH_MEM_COST, HASH_TIME_COST, HASH_LANES) == password_hash_tag(),
{
    reveal_with_fuel(decimal, 5);
    reveal_strlit("$argon2id$v=19$");
    reveal_strlit("m=");
    reveal_strlit(",t=");
    reveal_strlit(",p=");
    reveal_strlit("$");
    reveal_strlit("$argon2id$v=19$m=4096,t=192,p=2$");
    assert(decimal(4096) =~= seq!['4', '0', '9', '6']);
    assert(decimal(192) =~= seq!['1', '9', '2']);
    assert(decimal(2) =~= seq!['2']);
    assert(argon2id_params_tag(HASH_MEM_COST, HASH_TIME_COST, HASH_LANES) =~= password_hash_tag());
}

/// Cost parameters that argon2 accepts (on every platform).
pub open spec fn argon2_params_ok(mem_cost: u32, time_cost: u32, lanes: u32, hash_length: u32) -> bool {
    &&& 1 <= lanes <= 0xFF_FFFF
    &&& 8 <= mem_cost <= 0x20_0000
    &&& 8 * lanes <= mem_cost
    &&& 1 <= time_cost
    &&& 4 <= hash_length
}

/// `encoded` is what `argon2::hash_encoded` wrote for this password and
/// secret, with some valid salt and cost parameters.
pub open spec fn argon2id_hash_of(encoded: Seq<char>, password: Seq<char>, secret: Seq<char>) -> bool {
    exists|salt: Seq<char>, mem_cost: u32, time_cost: u32, lanes: u32, hash_length: u32|
        argon2_params_ok(mem_cost, time_cost, lanes, hash_length) && 8 <= utf8_len(salt) && fits_u32(salt)
            && fits_u32(password) && fits_u32(secret)
            && encoded == #[trigger] argon2id_encoded(password, salt, secret, mem_cost, time_cost, lanes, hash_length)
}

/// `encoded` is a hash as `hash_password` makes them: this password and
/// pepper, the fixed costs, and a salt of 10 ASCII letters and digits.
pub open spec fn password_hash_made_from(encoded: Seq<char>, password: Seq<char>, secret: Seq<char>) -> bool {
    exists|salt: Seq<char>|
        salt.len() == SALT_LENGTH && all_ascii_alnum(salt)
            && encoded == #[trigger] argon2id_encoded(
                password,
                salt,
                secret,
                HASH_MEM_COST,
                HASH_TIME_COST,
                HASH_LANES,
                HASH_LENGTH,
            )
}

/// Relies on `argon2::hash_encoded` with Argon2id, version 0x13 and parallel
/// lanes. With valid cost parameters and a salt of at least 8 bytes it fails
/// only on a password or secret longer than `u32::MAX` bytes; the encoded
/// hash depends on its arguments alone and starts with the variant, the
/// version and the cost parameters.
#[verifier::external_body]
fn argon2id_hash_encoded(
    password: &str,
    salt: &str,
    secret: &str,
    mem_cost: u32,
    time_cost: u32,
    lanes: u32,
    hash_length: u32,
) -> (r: Result<String, argon2::Error>)
    requires
        argon2_params_ok(mem_cost, time_cost, lanes, hash_length),
        8 <= utf8_len(salt@) && fits_u32(salt@),
    ensures
        r is Ok <==> (fits_u32(password@) && fits_u32(secret@)),
        r is Ok ==> r->Ok_0@ == argon2id_encoded(password@, salt@, secret@, mem_cost, time_cost, lanes, hash_length),
        r is Ok ==> argon2id_params_tag(mem_cost, time_cost, lanes).is_prefix_of(r->Ok_0@),
{
    let config = argon2::Config {
        variant: argon2::Variant::Argon2id,
        version: argon2::Version::Version13,
        mem_cost,
        time_cost,
        lanes,
        thread_mode: argon2::ThreadMode::Parallel,
        secret: secret.as_bytes(),
        ad: &[],
        hash_length,
    };
    argon2::hash_encoded(password.as_bytes(), salt.as_bytes(), &config)
}

/// Relies on `argon2::verify_encoded_ext` (no associated data): whether it
/// completes, and what it answers, depend on its arguments alone; an encoded
/// hash that does not start with `$` fails to decode; a hash that
/// `argon2::hash_encoded` wrote for the same password and secret matches.
#[verifier::external_body]
fn argon2_verify_encoded(encoded: &str, password: &str, secret: &str) -> (r: Result<bool, argon2::Error>)
    ensures
        r is Ok <==> argon2_verify_ok(encoded@, password@, secret@),
        argon2id_hash_of(encoded@, password@, secret@) ==> r is Ok && r->Ok_0,
        !hash_is_framed(encoded@) ==> r is Err,
        r is Ok ==> r->Ok_0 == argon2_password_matches(encoded@, password@, secret@),
{
    argon2::verify_encoded_ext(encoded, password.as_bytes(), secret.as_bytes(), &[])
}

/// Hashes a password with Argon2id, a fresh random salt and the server's
/// pepper `secret_key`. The hash names the algorithm and its cost parameters;
/// it is `None` only for a password or pepper too long for argon2.
pub fn hash_password(password: &str, secret_key: &str) -> (r: Option<String>)
    ensures
        r is Some <==> (fits_u32(password@) && fits_u32(secret_key@)),
        r is Some ==> password_hash_tag().is_prefix_of(r->0@) && hash_is_framed(r->0@),
        r is Some ==> password_hash_made_from(r->0@, password@, secret_key@),
        r is Some ==> argon2id_hash_of(r->0@, password@, secret_key@),
{
    let salt = random_alphanumeric(SALT_LENGTH);
    proof {
        lemma_ascii_utf8_len(salt@);
    }
    let hashed = argon2id_hash_encoded(
        password,
        salt.as_str(),
        secret_key,
        HASH_MEM_COST,
        HASH_TIME_COST,
        HASH_LANES,
        HASH_LENGTH,
    );
    match hashed {
        Ok(h) => {
            proof {
                lemma_password_hash_tag();
                reveal_strlit("$argon2id$v=19$m=4096,t=192,p=2$");
                assert(h@[0] == password_hash_tag()[0]);
                assert(argon2_params_ok(HASH_MEM_COST, HASH_TIME_COST, HASH_LANES, HASH_LENGTH));
                assert(h@ == argon2id_encoded(password@, salt@, secret_key@, HASH_MEM_COST, HASH_TIME_COST, HASH_LANES, HASH_LENGTH));
            }
            Some(h)
        },
        Err(_) => None,
    }
}

/// Checks a password against a stored hash. `None` exactly where argon2
/// could not read the hash or run the check: never a verdict then, so a
/// malformed hash (one not starting with `$` in particular) never passes.
pub fn verify_password(password_hash: &str, password: &str, secret_key: &str) -> (r: Option<bool>)
    ensures
        r is Some <==> argon2_verify_ok(password_hash@, password@, secret_key@),
        r is Some ==> r->0 == argon2_password_matches(password_hash@, password@, secret_key@),
        !hash_is_framed(password_hash@) ==> r is None,
        argon2id_hash_of(password_hash@, password@, secret_key@) ==> r == Some(true),
{
    match argon2_verify_encoded(password_hash, password, secret_key) {
        Ok(m) => Some(m),
        Err(_) => None,
    }
}

/// Fail closed: only a completed check that matched lets a password through.
pub fn password_accepted(verdict: Option<bool>) -> (r: bool)
    ensures
        r == (verdict == Some(true)),
{
    match verdict {
        Some(m) => m,
        None => false,
    }
}

/// The whole password check: true exactly when argon2 completed the check
/// and it matched. A malformed stored hash never lets anyone in.
pub fn password_is_correct(password_hash: &str, password: &str, secret_key: &str) -> (r: bool)
    ensures
        r == (argon2_verify_ok(password_hash@, password@, secret_key@)
            && argon2_password_matches(password_hash@, password@, secret_key@)),
        !hash_is_framed(password_hash@) ==> !r,
        argon2id_hash_of(password_hash@, password@, secret_key@) ==> r,
{
    password_accepted(verify_password(password_hash, password, secret_key))
}

} // verus!
