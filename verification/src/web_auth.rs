//! Registering by e-mail and agreeing to a login in the browser. The browser never gets
//! a token: it only says yes to a flow that a device started.

use vstd::prelude::*;

use crate::crypto;
use crate::error;
use crate::error::ApiError;
use crate::ids::Uuid;
use crate::settlement::is_id;
use crate::text;
use crate::text::{
    is_ascii_digit, is_ascii_whitespace, is_control, is_url_safe, is_whitespace,
};

verus! {

pub const MAX_EMAIL_BYTES: usize = 254;

pub const MAX_USERNAME_CHARS: usize = 64;

pub const MIN_PASSWORD_BYTES: usize = 8;

pub const MAX_PASSWORD_BYTES: usize = 1_024;

pub const EMAIL_USER_CODE_CHARS: usize = 12;

pub struct RegisterForm {
    pub email: String,
    pub username: String,
    pub password: String,
    pub password_confirm: String,
}

pub struct LoginForm {
    pub email: String,
    pub password: String,
    /// The code that the terminal shows.
    pub user_code: String,
}

pub struct VerifyEmailToken {
    pub token: String,
}

/// Where a character first stands in a text, or the length of the text.
pub open spec fn first_index(text: Seq<char>, c: char) -> int
    decreases text.len(),
{
    if text.len() == 0 || text[0] == c {
        0
    } else {
        1 + first_index(text.drop_first(), c)
    }
}

proof fn lemma_first_index(text: Seq<char>, c: char)
    ensures
        0 <= first_index(text, c) <= text.len(),
        first_index(text, c) < text.len() ==> text[first_index(text, c)] == c,
        forall|i: int| 0 <= i < first_index(text, c) ==> text[i] != c,
    decreases text.len(),
{
    if text.len() > 0 && text[0] != c {
        lemma_first_index(text.drop_first(), c);
        let rest = first_index(text.drop_first(), c);
        assert forall|i: int| 0 <= i < rest + 1 implies text[i] != c by {
            if i > 0 {
                assert(text[i] == text.drop_first()[i - 1]);
            }
        }
        if rest < text.drop_first().len() {
            assert(text.drop_first()[rest] == text[rest + 1]);
        }
    }
}

/// A position is where a character first stands.
proof fn lemma_is_first_index(text: Seq<char>, c: char, at: int)
    requires
        0 <= at <= text.len(),
        at < text.len() ==> text[at] == c,
        forall|i: int| 0 <= i < at ==> text[i] != c,
    ensures
        first_index(text, c) == at,
{
    lemma_first_index(text, c);
    let found = first_index(text, c);
    if found < at {
        assert(text[found] == c);
    } else if at < found {
        assert(text[at] != c);
    }
}

/// A text whose parts before and after the first `@` can be those of an address.
pub open spec fn is_address(email: Seq<char>) -> bool {
    let at = first_index(email, '@');
    let domain = email.skip(at + 1);
    &&& text::byte_length(email) <= MAX_EMAIL_BYTES
    &&& vstd::utf8::is_ascii_chars(email)
    &&& at > 0
    &&& domain.len() > 0
    &&& domain[0] != '.'
    &&& domain.last() != '.'
    &&& domain.contains('.')
    &&& forall|i: int| 0 <= i < email.len() ==> !is_whitespace(#[trigger] email[i])
}

/// An e-mail address in the one form in which it is stored, or why it is refused.
pub open spec fn normalized_email(value: Seq<char>) -> Result<Seq<char>, ApiError> {
    let email = text::trimmed(value);
    if !email.contains('@') {
        Err(ApiError::bad_request("invalid_email", "邮箱必须包含本地部分和域名"))
    } else if !is_address(email) {
        Err(ApiError::bad_request("invalid_email", "邮箱格式无效"))
    } else {
        Ok(text::ascii_lowercase(email))
    }
}

fn find_at(all: &Vec<char>) -> (at: Option<usize>)
    ensures
        match at {
            Some(at) => at < all@.len() && at == first_index(all@, '@') && all@.contains('@'),
            None => !all@.contains('@'),
        },
{
    let mut i: usize = 0;
    while i < all.len()
        invariant
            i <= all@.len(),
            forall|j: int| 0 <= j < i ==> all@[j] != '@',
        decreases all@.len() - i,
    {
        if all[i] == '@' {
            proof {
                lemma_is_first_index(all@, '@', i as int);
                assert(all@[i as int] == '@');
            }
            return Some(i);
        }
        i += 1;
    }
    None
}

fn check_address(email: &str, all: &Vec<char>, at: usize) -> (valid: bool)
    requires
        email@ == all@,
        at < all@.len(),
        at == first_index(all@, '@'),
    ensures
        valid == is_address(all@),
{
    if !email.is_ascii() || text::bytes_in(email) > MAX_EMAIL_BYTES {
        return false;
    }
    let ghost whole = all@;
    let ghost domain = whole.skip(at + 1);
    let mut has_dot = false;
    let mut i: usize = 0;
    while i < all.len()
        invariant
            whole == all@,
            i <= all@.len(),
            at < all@.len(),
            forall|j: int| 0 <= j < i ==> !is_whitespace(#[trigger] whole[j]),
            has_dot <==> exists|j: int| at < j < i && #[trigger] whole[j] == '.',
        decreases all@.len() - i,
    {
        let c = all[i];
        if is_whitespace(c) {
            assert(is_whitespace(whole[i as int]));
            return false;
        }
        if i > at && c == '.' {
            assert(whole[i as int] == '.');
            has_dot = true;
        }
        i += 1;
    }
    proof {
        assert(domain.contains('.') <==> has_dot) by {
            if has_dot {
                let j = choose|j: int| at < j < whole.len() && #[trigger] whole[j] == '.';
                assert(domain[j - at - 1] == '.');
            }
            if domain.contains('.') {
                let j = choose|j: int| 0 <= j < domain.len() && domain[j] == '.';
                assert(whole[j + at + 1] == '.');
            }
        }
    }
    if at == 0 || at + 1 == all.len() || !has_dot {
        return false;
    }
    assert(domain[0] == whole[at + 1]);
    assert(domain.last() == whole.last());
    all[at + 1] != '.' && all[all.len() - 1] != '.'
}

/// Brings an e-mail address into the one form in which it is stored.
pub fn normalize_email(value: &str) -> (email: Result<String, ApiError>)
    ensures
        match email {
            Ok(email) => normalized_email(value@) == Ok::<Seq<char>, ApiError>(email@),
            Err(refused) => normalized_email(value@) == Err::<Seq<char>, ApiError>(refused),
        },
{
    let email = text::trim(value);
    let all = text::characters(email);
    match find_at(&all) {
        None => Err(ApiError::bad_request("invalid_email", "邮箱必须包含本地部分和域名")),
        Some(at) => if check_address(email, &all, at) {
            Ok(text::to_ascii_lowercase(email))
        } else {
            Err(ApiError::bad_request("invalid_email", "邮箱格式无效"))
        },
    }
}

proof fn lemma_lower_keeps(c: char)
    ensures
        text::ascii_lower(text::ascii_lower(c)) == text::ascii_lower(c),
        is_whitespace(text::ascii_lower(c)) == is_whitespace(c),
        (text::ascii_lower(c) <= '\u{7f}') == (c <= '\u{7f}'),
        text::ascii_lower(c) == '@' <==> c == '@',
        text::ascii_lower(c) == '.' <==> c == '.',
{
    if text::is_ascii_uppercase(c) {
        assert(text::ascii_lower(c) as u32 == c as u32 + 32);
    }
}

/// A text without white space is its own middle.
proof fn lemma_nothing_to_trim(text: Seq<char>)
    requires
        forall|i: int| 0 <= i < text.len() ==> !is_whitespace(#[trigger] text[i]),
    ensures
        text::trimmed(text) == text,
{
    if text.len() > 0 {
        assert(!is_whitespace(text[0]));
        assert(text::trimmed_start(text) == text);
        assert(text.last() == text[text.len() - 1]);
    }
}

/// An address that was normalised is normalised: doing it again changes nothing.
pub proof fn normalizing_email_is_idempotent(value: Seq<char>)
    requires
        normalized_email(value) is Ok,
    ensures
        normalized_email(normalized_email(value)->Ok_0) == normalized_email(value),
{
    let email = text::trimmed(value);
    let lower = text::ascii_lowercase(email);
    assert forall|i: int| 0 <= i < email.len() implies {
        &&& is_whitespace(#[trigger] lower[i]) == is_whitespace(email[i])
        &&& (lower[i] <= '\u{7f}') == (email[i] <= '\u{7f}')
        &&& lower[i] == '@' <==> email[i] == '@'
        &&& lower[i] == '.' <==> email[i] == '.'
        &&& text::ascii_lower(lower[i]) == lower[i]
    } by {
        lemma_lower_keeps(email[i]);
    }
    assert forall|i: int| 0 <= i < lower.len() implies !is_whitespace(#[trigger] lower[i]) by {
        assert(!is_whitespace(email[i]));
    }
    lemma_nothing_to_trim(lower);
    let at = first_index(email, '@');
    lemma_first_index(email, '@');
    assert(at < email.len()) by {
        let j = choose|j: int| 0 <= j < email.len() && email[j] == '@';
        assert(email[j] == '@');
    }
    assert(lower[at] == '@');
    assert forall|i: int| 0 <= i < at implies lower[i] != '@' by {
        assert(email[i] != '@');
    }
    lemma_is_first_index(lower, '@', at);
    assert(vstd::utf8::is_ascii_chars(lower)) by {
        assert forall|i: int| 0 <= i < lower.len() implies '\0' <= #[trigger] lower[i]
            <= '\u{7f}' by {
            assert(email[i] <= '\u{7f}');
        }
    }
    vstd::utf8::is_ascii_chars_encode_utf8(lower);
    vstd::utf8::is_ascii_chars_encode_utf8(email);
    let domain = email.skip(at + 1);
    let lower_domain = lower.skip(at + 1);
    assert(lower_domain[0] == lower[at + 1] && domain[0] == email[at + 1]);
    assert(lower_domain.last() == lower.last() && domain.last() == email.last());
    assert(lower.last() == lower[lower.len() - 1] && email.last() == email[email.len() - 1]);
    let dot = choose|j: int| 0 <= j < domain.len() && domain[j] == '.';
    assert(domain[dot] == email[at + 1 + dot]);
    assert(lower_domain[dot] == lower[at + 1 + dot]);
    assert(lower_domain.contains('.'));
    assert(lower.contains('@'));
    assert(is_address(lower));
    assert(text::ascii_lowercase(lower) =~= lower);
}

pub open spec fn password_refusal(password: Seq<char>) -> Option<ApiError> {
    if !(MIN_PASSWORD_BYTES <= text::byte_length(password) <= MAX_PASSWORD_BYTES) {
        Some(ApiError::bad_request("invalid_password_length", "密码长度必须为 8 到 1024 字节"))
    } else {
        None
    }
}

/// Checks the length of a password, in bytes.
pub fn validate_password_input(password: &str) -> (valid: Result<(), ApiError>)
    ensures
        valid == error::unless(password_refusal(password@), ()),
{
    let length = text::bytes_in(password);
    if length < MIN_PASSWORD_BYTES || length > MAX_PASSWORD_BYTES {
        return Err(
            ApiError::bad_request("invalid_password_length", "密码长度必须为 8 到 1024 字节"),
        );
    }
    Ok(())
}

/// A name that a user can have.
pub open spec fn is_username(name: Seq<char>) -> bool {
    0 < name.len() <= MAX_USERNAME_CHARS && !text::has_control(name)
}

/// The address and the name that a form registers, or why it is refused.
pub open spec fn registration(form: RegisterForm) -> Result<(Seq<char>, Seq<char>), ApiError> {
    if form.password@ != form.password_confirm@ {
        Err(ApiError::bad_request("password_mismatch", "两次密码不一致"))
    } else {
        match password_refusal(form.password@) {
            Some(refused) => Err(refused),
            None => match normalized_email(form.email@) {
                Err(refused) => Err(refused),
                Ok(email) => if is_username(text::trimmed(form.username@)) {
                    Ok((email, text::trimmed(form.username@)))
                } else {
                    Err(
                        ApiError::bad_request(
                            "invalid_username",
                            "用户名必须为 1 到 64 个非控制字符",
                        ),
                    )
                },
            },
        }
    }
}

/// Checks a registration; gives the address and the name in the form in which they are
/// stored.
pub fn validate_registration(form: &RegisterForm) -> (registered: Result<
    (String, String),
    ApiError,
>)
    ensures
        match registered {
            Ok((email, username)) => registration(*form) == Ok::<(Seq<char>, Seq<char>), ApiError>(
                (email@, username@),
            ),
            Err(refused) => registration(*form) == Err::<(Seq<char>, Seq<char>), ApiError>(
                refused,
            ),
        },
{
    if !text::same_text(form.password.as_str(), form.password_confirm.as_str()) {
        return Err(ApiError::bad_request("password_mismatch", "两次密码不一致"));
    }
    validate_password_input(form.password.as_str())?;
    let email = normalize_email(form.email.as_str())?;
    let username = text::trim(form.username.as_str());
    let length = username.unicode_len();
    if length == 0 || length > MAX_USERNAME_CHARS || text::contains_control(username) {
        return Err(
            ApiError::bad_request("invalid_username", "用户名必须为 1 到 64 个非控制字符"),
        );
    }
    Ok((email, String::from_str(username)))
}

/// The characters of a code that count: all but hyphens and blanks.
pub open spec fn counted(value: Seq<char>) -> Seq<char>
    decreases value.len(),
{
    if value.len() == 0 {
        value
    } else {
        let before = counted(value.drop_last());
        if value.last() != '-' && !is_ascii_whitespace(value.last()) {
            before.push(text::ascii_upper(value.last()))
        } else {
            before
        }
    }
}

/// A hexadecimal digit, with letters in upper case.
#[verifier::allow_in_spec]
pub fn is_upper_hex_digit(c: char) -> bool
    returns
        is_ascii_digit(c) || ('A' <= c && c <= 'F'),
{
    is_ascii_digit(c) || ('A' <= c && c <= 'F')
}

/// Twelve hexadecimal digits in upper case.
pub open spec fn is_user_code(code: Seq<char>) -> bool {
    code.len() == EMAIL_USER_CODE_CHARS && forall|i: int|
        0 <= i < code.len() ==> is_upper_hex_digit(#[trigger] code[i])
}

/// A code in the one form in which it is stored, or the error that it is none.
pub open spec fn normalized_user_code(value: Seq<char>) -> Result<Seq<char>, ApiError> {
    let code = counted(text::trimmed(value));
    if !text::has_control(value) && is_user_code(code) {
        Ok(code)
    } else {
        Err(ApiError::authentication("设备验证码无效，请核对自己终端显示的验证码"))
    }
}

/// Brings the code of a terminal into the one form in which it is stored.
pub fn normalize_user_code(value: &str) -> (code: Result<String, ApiError>)
    ensures
        match code {
            Ok(code) => normalized_user_code(value@) == Ok::<Seq<char>, ApiError>(code@),
            Err(refused) => normalized_user_code(value@) == Err::<Seq<char>, ApiError>(refused),
        },
{
    if text::contains_control(value) {
        return Err(
            ApiError::authentication("设备验证码无效，请核对自己终端显示的验证码"),
        );
    }
    let all = text::characters(text::trim(value));
    let mut code = String::new();
    let mut length: usize = 0;
    let mut digits = true;
    let mut i: usize = 0;
    assert(all@.take(0) =~= Seq::<char>::empty());
    while i < all.len()
        invariant
            i <= all@.len(),
            code@ == counted(all@.take(i as int)),
            length == code@.len(),
            length <= i,
            digits <==> forall|j: int| 0 <= j < code@.len() ==> is_upper_hex_digit(
                #[trigger] code@[j],
            ),
        decreases all@.len() - i,
    {
        let c = all[i];
        let ghost before = code@;
        proof {
            let longer = all@.take(i + 1);
            assert(longer.drop_last() =~= all@.take(i as int));
            assert(longer.last() == c);
        }
        if c != '-' && !is_ascii_whitespace(c) {
            let upper = text::to_ascii_upper(c);
            code.push(upper);
            length += 1;
            if !is_upper_hex_digit(upper) {
                assert(!is_upper_hex_digit(code@[before.len() as int]));
                digits = false;
            }
            proof {
                if !digits && is_upper_hex_digit(upper) {
                    let j = choose|j: int|
                        0 <= j < before.len() && !is_upper_hex_digit(#[trigger] before[j]);
                    assert(code@[j] == before[j]);
                }
                if digits {
                    assert forall|j: int| 0 <= j < code@.len() implies is_upper_hex_digit(
                        #[trigger] code@[j],
                    ) by {
                        if j < before.len() {
                            assert(code@[j] == before[j]);
                        }
                    }
                }
            }
        }
        i += 1;
    }
    assert(all@.take(all@.len() as int) =~= all@);
    if length != EMAIL_USER_CODE_CHARS || !digits {
        return Err(
            ApiError::authentication("设备验证码无效，请核对自己终端显示的验证码"),
        );
    }
    Ok(code)
}

/// Nothing is left out of a code, or changed in it, that is digits in upper case already.
proof fn lemma_counted_digits(code: Seq<char>)
    requires
        forall|i: int| 0 <= i < code.len() ==> is_upper_hex_digit(#[trigger] code[i]),
    ensures
        counted(code) == code,
    decreases code.len(),
{
    if code.len() > 0 {
        let before = code.drop_last();
        assert forall|i: int| 0 <= i < before.len() implies is_upper_hex_digit(
            #[trigger] before[i],
        ) by {
            assert(before[i] == code[i]);
        }
        lemma_counted_digits(before);
        assert(code.last() == code[code.len() - 1]);
        assert(is_upper_hex_digit(code.last()));
        assert(text::ascii_upper(code.last()) == code.last());
        assert(code =~= before.push(code.last()));
    }
}

/// A code that was normalised is normalised: doing it again changes nothing.
pub proof fn normalizing_user_codes_is_idempotent(value: Seq<char>)
    requires
        normalized_user_code(value) is Ok,
    ensures
        normalized_user_code(normalized_user_code(value)->Ok_0) == normalized_user_code(value),
{
    let code = counted(text::trimmed(value));
    assert forall|i: int| 0 <= i < code.len() implies !is_whitespace(#[trigger] code[i])
        && !is_control(code[i]) by {
        assert(is_upper_hex_digit(code[i]));
    }
    lemma_nothing_to_trim(code);
    lemma_counted_digits(code);
}

pub const VERIFICATION_PREFIX: &'static str = "mnev_";

/// The shape of a token that confirms an address.
pub open spec fn is_verification_token(token: Seq<char>) -> bool {
    &&& token.len() == 48
    &&& text::starts_with(token, VERIFICATION_PREFIX@)
    &&& forall|i: int| 5 <= i < token.len() ==> is_url_safe(#[trigger] token[i])
}

/// Whether a text has the shape of a token that confirms an address.
pub fn valid_verification_token(token: &str) -> (valid: bool)
    ensures
        valid == is_verification_token(token@),
{
    proof {
        reveal_strlit("mnev_");
    }
    let all = text::characters(token);
    if all.len() != 48 || text::strip_prefix(token, VERIFICATION_PREFIX).is_none() {
        return false;
    }
    let mut i: usize = 5;
    while i < 48
        invariant
            5 <= i <= 48,
            all@ == token@,
            all@.len() == 48,
            forall|j: int| 5 <= j < i ==> is_url_safe(#[trigger] token@[j]),
        decreases 48 - i,
    {
        if !is_url_safe(all[i]) {
            assert(!is_url_safe(token@[i as int]));
            return false;
        }
        i += 1;
    }
    true
}

/// Spells a token: a prefix, and bytes in Base64.
pub fn one_time_token(prefix: &str, bytes: &[u8]) -> (token: String)
    requires
        bytes@.len() <= usize::MAX / 4,
    ensures
        token@ == prefix@ + crypto::base64_url_text(bytes@),
        bytes@.len() == 32 && prefix@ == VERIFICATION_PREFIX@ ==> is_verification_token(token@),
{
    let encoded = crypto::base64_url_encode(bytes);
    let mut token = String::new();
    text::push_text(&mut token, prefix);
    text::push_text(&mut token, encoded.as_str());
    proof {
        assert(token@ =~= prefix@ + encoded@);
        if bytes@.len() == 32 && prefix@ == VERIFICATION_PREFIX@ {
            reveal_strlit("mnev_");
            assert(VERIFICATION_PREFIX@.len() == 5);
            assert(encoded@.len() == 43);
            assert(token@.take(5) =~= prefix@);
            assert forall|i: int| 5 <= i < token@.len() implies is_url_safe(
                #[trigger] token@[i],
            ) by {
                assert(token@[i] == encoded@[i - 5]);
            }
        }
    }
    token
}

/// Makes a random token of 32 bytes. One that confirms an address has the shape of such
/// tokens. Only a system that gives no random bytes makes this fail.
pub fn new_one_time_token(prefix: &str) -> (token: Result<String, ApiError>)
    ensures
        match token {
            Ok(token) => {
                &&& exists|bytes: Seq<u8>|
                    bytes.len() == 32 && token@ == prefix@ + #[trigger] crypto::base64_url_text(
                        bytes,
                    )
                &&& prefix@ == VERIFICATION_PREFIX@ ==> is_verification_token(token@)
            },
            Err(refused) => refused == ApiError::internal(),
        },
{
    match crypto::random_bytes(32) {
        Some(bytes) => {
            let mut bytes = bytes;
            let token = one_time_token(prefix, bytes.as_slice());
            crypto::wipe_bytes(&mut bytes);
            Ok(token)
        },
        None => Err(ApiError::internal()),
    }
}

/// The link that confirms an address.
pub fn verification_url(base_url: &str, token: &str) -> (url: String)
    ensures
        url@ == base_url@ + "/auth/verify-email?token="@ + token@,
{
    let mut url = String::new();
    text::push_text(&mut url, base_url);
    text::push_text(&mut url, "/auth/verify-email?token=");
    text::push_text(&mut url, token);
    assert(url@ =~= base_url@ + "/auth/verify-email?token="@ + token@);
    url
}

/// An address that is registered already is not registered again.
pub fn check_registered(rows_affected: u64) -> (checked: Result<(), ApiError>)
    ensures
        checked == if rows_affected == 1 {
            Ok::<(), ApiError>(())
        } else {
            Err::<(), ApiError>(
                ApiError::conflict("email_exists", "该邮箱已注册；请登录或联系运维人员恢复账户"),
            )
        },
{
    if rows_affected != 1 {
        return Err(
            ApiError::conflict("email_exists", "该邮箱已注册；请登录或联系运维人员恢复账户"),
        );
    }
    Ok(())
}

/// A page that is shown for a link that confirms an address.
pub enum VerificationPage {
    /// The request is not what a link makes.
    Refused { message: &'static str },
    /// A form that asks for the confirmation. Showing it changes nothing.
    Confirm { html: String },
}

pub open spec fn confirmation_page(token: Seq<char>) -> Seq<char> {
    "<!doctype html><html lang=\"zh-CN\"><head><meta charset=\"utf-8\"><meta name=\"referrer\" content=\"no-referrer\"><title>确认邮箱验证</title></head><body><main><h1>确认验证邮箱</h1><p>请仅在你本人刚刚注册 MindOne 时继续。安全扫描器打开此页面不会激活账户。</p><form method=\"post\" action=\"/auth/verify-email\"><input type=\"hidden\" name=\"token\" value=\""@
        + token + "\"><button type=\"submit\">确认并激活账户</button></form></main></body></html>"@
}

/// Makes the page for a link. Nothing of a token is shown that does not have the shape of
/// one. `None` stands for a query that could not be read.
pub fn verify_email_page(query: &Option<VerifyEmailToken>) -> (page: VerificationPage)
    ensures
        match *query {
            None => page matches VerificationPage::Refused { message } && message@
                == "邮箱验证请求格式无效"@,
            Some(query) => if is_verification_token(query.token@) {
                page matches VerificationPage::Confirm { html } && html@ == confirmation_page(
                    query.token@,
                )
            } else {
                page matches VerificationPage::Refused { message } && message@ == "验证链接无效"@
            },
        },
{
    match query {
        None => VerificationPage::Refused { message: "邮箱验证请求格式无效" },
        Some(query) => {
            if !valid_verification_token(query.token.as_str()) {
                return VerificationPage::Refused { message: "验证链接无效" };
            }
            let mut html = String::new();
            text::push_text(
                &mut html,
                "<!doctype html><html lang=\"zh-CN\"><head><meta charset=\"utf-8\"><meta name=\"referrer\" content=\"no-referrer\"><title>确认邮箱验证</title></head><body><main><h1>确认验证邮箱</h1><p>请仅在你本人刚刚注册 MindOne 时继续。安全扫描器打开此页面不会激活账户。</p><form method=\"post\" action=\"/auth/verify-email\"><input type=\"hidden\" name=\"token\" value=\"",
            );
            text::push_text(&mut html, query.token.as_str());
            text::push_text(
                &mut html,
                "\"><button type=\"submit\">确认并激活账户</button></form></main></body></html>",
            );
            assert(html@ =~= confirmation_page(query.token@));
            VerificationPage::Confirm { html }
        },
    }
}

/// What is stored of a token that confirms an address. Times are nanoseconds since the
/// Unix epoch.
pub struct StoredVerification {
    pub expires_at: i128,
    pub used: bool,
}

/// What a confirmation comes to.
#[derive(Clone, Copy, Debug, PartialEq, Eq, Structural)]
pub enum VerificationStep {
    /// There is no such token.
    Invalid,
    /// The address was confirmed before.
    AlreadyVerified,
    /// The token is too old.
    Expired,
    /// The token is used up and the address is confirmed.
    Consume,
}

pub open spec fn verification_step(
    token: Seq<char>,
    stored: Option<StoredVerification>,
    now: i128,
) -> VerificationStep {
    match stored {
        Some(stored) => if !is_verification_token(token) {
            VerificationStep::Invalid
        } else if stored.used {
            VerificationStep::AlreadyVerified
        } else if now >= stored.expires_at {
            VerificationStep::Expired
        } else {
            VerificationStep::Consume
        },
        None => VerificationStep::Invalid,
    }
}

/// Decides what a confirmation comes to.
pub fn plan_verification(token: &str, stored: &Option<StoredVerification>, now: i128) -> (step:
    VerificationStep)
    ensures
        step == verification_step(token@, *stored, now),
{
    if !valid_verification_token(token) {
        return VerificationStep::Invalid;
    }
    match stored {
        None => VerificationStep::Invalid,
        Some(stored) => if stored.used {
            VerificationStep::AlreadyVerified
        } else if now >= stored.expires_at {
            VerificationStep::Expired
        } else {
            VerificationStep::Consume
        },
    }
}

/// A token confirms an address once, and not after its time.
pub proof fn tokens_confirm_once(token: Seq<char>, stored: StoredVerification, now: i128)
    requires
        stored.used || now >= stored.expires_at,
    ensures
        verification_step(token, Some(stored), now) != VerificationStep::Consume,
{
}

/// A token that someone else used up in the meantime is not used again.
pub fn check_consumed(rows_affected: u64) -> (checked: Result<(), ApiError>)
    ensures
        checked == if rows_affected == 1 {
            Ok::<(), ApiError>(())
        } else {
            Err::<(), ApiError>(
                ApiError::conflict("verification_already_consumed", "验证链接已被消费"),
            )
        },
{
    if rows_affected != 1 {
        return Err(ApiError::conflict("verification_already_consumed", "验证链接已被消费"));
    }
    Ok(())
}

/// What is stored of an account that logs in by e-mail.
pub struct EmailAccount {
    pub user_id: Uuid,
    pub has_password: bool,
    pub verified: bool,
}

/// The address and the code of a login in the form in which they are stored, or why the
/// form is refused.
pub open spec fn login(form: LoginForm) -> Result<(Seq<char>, Seq<char>), ApiError> {
    match normalized_email(form.email@) {
        Err(refused) => Err(refused),
        Ok(email) => match password_refusal(form.password@) {
            Some(refused) => Err(refused),
            None => match normalized_user_code(form.user_code@) {
                Err(refused) => Err(refused),
                Ok(code) => Ok((email, code)),
            },
        },
    }
}

/// Checks a login form.
pub fn validate_login(form: &LoginForm) -> (validated: Result<(String, String), ApiError>)
    ensures
        match validated {
            Ok((email, code)) => login(*form) == Ok::<(Seq<char>, Seq<char>), ApiError>(
                (email@, code@),
            ),
            Err(refused) => login(*form) == Err::<(Seq<char>, Seq<char>), ApiError>(refused),
        },
{
    let email = normalize_email(form.email.as_str())?;
    validate_password_input(form.password.as_str())?;
    let code = normalize_user_code(form.user_code.as_str())?;
    Ok((email, code))
}

/// Checks that an account can log in by e-mail, before its password is looked at.
pub fn check_account(account: &Option<EmailAccount>) -> (checked: Result<Uuid, ApiError>)
    ensures
        checked == match *account {
            None => Err::<Uuid, ApiError>(ApiError::authentication("邮箱或密码错误")),
            Some(account) => if !account.verified {
                Err::<Uuid, ApiError>(ApiError::forbidden("邮箱尚未验证，请检查邮箱"))
            } else if !account.has_password {
                Err::<Uuid, ApiError>(ApiError::authentication("邮箱或密码错误"))
            } else {
                Ok::<Uuid, ApiError>(account.user_id)
            },
        },
{
    match account {
        None => Err(ApiError::authentication("邮箱或密码错误")),
        Some(account) => if !account.verified {
            Err(ApiError::forbidden("邮箱尚未验证，请检查邮箱"))
        } else if !account.has_password {
            Err(ApiError::authentication("邮箱或密码错误"))
        } else {
            Ok(account.user_id)
        },
    }
}

/// Takes the outcome of the comparison of the password, and whether the account still is
/// what it was before it.
pub fn check_password(password_matches: bool, user_id: Uuid, current_user: Option<Uuid>) -> (checked: Result<
    (),
    ApiError,
>)
    ensures
        checked == if password_matches && current_user == Some(user_id) {
            Ok::<(), ApiError>(())
        } else {
            Err::<(), ApiError>(ApiError::authentication("邮箱或密码错误"))
        },
{
    if !password_matches || !is_id(current_user, user_id) {
        return Err(ApiError::authentication("邮箱或密码错误"));
    }
    Ok(())
}

/// A login says yes to one open flow, which nobody has said yes to.
pub fn check_bound(rows_affected: u64) -> (checked: Result<(), ApiError>)
    ensures
        checked == if rows_affected == 1 {
            Ok::<(), ApiError>(())
        } else {
            Err::<(), ApiError>(
                ApiError::conflict(
                    "device_flow_unavailable",
                    "设备登录流程无效、已过期或已被消费，请从终端重新发起登录",
                ),
            )
        },
{
    if rows_affected != 1 {
        return Err(
            ApiError::conflict(
                "device_flow_unavailable",
                "设备登录流程无效、已过期或已被消费，请从终端重新发起登录",
            ),
        );
    }
    Ok(())
}

/// The first field of a form under a name, if there is one.
pub open spec fn field(members: Seq<(String, String)>, name: Seq<char>) -> Option<Seq<char>>
    decreases members.len(),
{
    if members.len() == 0 {
        None
    } else if members[0].0@ == name {
        Some(members[0].1@)
    } else {
        field(members.skip(1), name)
    }
}

/// A form has the named fields and no others, each once.
pub open spec fn has_exactly(members: Seq<(String, String)>, names: Seq<Seq<char>>) -> bool {
    &&& members.len() == names.len()
    &&& forall|i: int| 0 <= i < names.len() ==> field(members, #[trigger] names[i]) is Some
}

fn read_field(members: &Vec<(String, String)>, name: &str) -> (value: Option<String>)
    ensures
        match value {
            Some(value) => field(members@, name@) == Some(value@),
            None => field(members@, name@) is None,
        },
{
    let mut i: usize = 0;
    assert(members@.skip(0) =~= members@);
    while i < members.len()
        invariant
            i <= members@.len(),
            field(members@, name@) == field(members@.skip(i as int), name@),
        decreases members@.len() - i,
    {
        assert(members@.skip(i as int).skip(1) =~= members@.skip(i + 1));
        if text::same_text(members[i].0.as_str(), name) {
            return Some(members[i].1.clone());
        }
        i += 1;
    }
    None
}

impl RegisterForm {
    pub open spec fn names() -> Seq<Seq<char>> {
        seq!["email"@, "username"@, "password"@, "password_confirm"@]
    }

    /// Reads the form out of its fields; one that is missing, unknown or there twice
    /// makes it invalid.
    pub fn from_members(members: &Vec<(String, String)>) -> (form: Option<RegisterForm>)
        ensures
            match form {
                Some(form) => {
                    &&& has_exactly(members@, RegisterForm::names())
                    &&& field(members@, "email"@) == Some(form.email@)
                    &&& field(members@, "username"@) == Some(form.username@)
                    &&& field(members@, "password"@) == Some(form.password@)
                    &&& field(members@, "password_confirm"@) == Some(form.password_confirm@)
                },
                None => !has_exactly(members@, RegisterForm::names()),
            },
    {
        let ghost names = RegisterForm::names();
        assert(names[0] == "email"@ && names[1] == "username"@ && names[2] == "password"@
            && names[3] == "password_confirm"@);
        if members.len() != 4 {
            return None;
        }
        match (
            read_field(members, "email"),
            read_field(members, "username"),
            read_field(members, "password"),
            read_field(members, "password_confirm"),
        ) {
            (Some(email), Some(username), Some(password), Some(password_confirm)) => Some(
                RegisterForm { email, username, password, password_confirm },
            ),
            _ => None,
        }
    }
}

impl LoginForm {
    pub open spec fn names() -> Seq<Seq<char>> {
        seq!["email"@, "password"@, "user_code"@]
    }

    /// Reads the form out of its fields; one that is missing, unknown or there twice
    /// makes it invalid.
    pub fn from_members(members: &Vec<(String, String)>) -> (form: Option<LoginForm>)
        ensures
            match form {
                Some(form) => {
                    &&& has_exactly(members@, LoginForm::names())
                    &&& field(members@, "email"@) == Some(form.email@)
                    &&& field(members@, "password"@) == Some(form.password@)
                    &&& field(members@, "user_code"@) == Some(form.user_code@)
                },
                None => !has_exactly(members@, LoginForm::names()),
            },
    {
        let ghost names = LoginForm::names();
        assert(names[0] == "email"@ && names[1] == "password"@ && names[2] == "user_code"@);
        if members.len() != 3 {
            return None;
        }
        match (
            read_field(members, "email"),
            read_field(members, "password"),
            read_field(members, "user_code"),
        ) {
            (Some(email), Some(password), Some(user_code)) => Some(
                LoginForm { email, password, user_code },
            ),
            _ => None,
        }
    }
}

impl VerifyEmailToken {
    /// Reads the token out of the fields of a query, which has no other.
    pub fn from_members(members: &Vec<(String, String)>) -> (query: Option<VerifyEmailToken>)
        ensures
            match query {
                Some(query) => has_exactly(members@, seq!["token"@]) && field(members@, "token"@)
                    == Some(query.token@),
                None => !has_exactly(members@, seq!["token"@]),
            },
    {
        let ghost names = seq!["token"@];
        assert(names[0] == "token"@);
        if members.len() != 1 {
            return None;
        }
        match read_field(members, "token") {
            Some(token) => Some(VerifyEmailToken { token }),
            None => None,
        }
    }
}

proof fn lemma_no_character_is_lower(c: char)
    ensures
        '\u{0}' <= c,
{
}

/// An address is stored exactly if it is one: without the white space around it, in ASCII and
/// in at most 254 bytes, with something before its first `@` and, behind it, a domain with a
/// point inside that neither starts nor ends with one.
pub proof fn addresses_are_stored_in_lower_case(value: Seq<char>, at: int)
    requires
        0 <= at < text::trimmed(value).len(),
        text::trimmed(value)[at] == '@',
        forall|i: int| 0 <= i < at ==> text::trimmed(value)[i] != '@',
    ensures
        normalized_email(value) is Ok <==> {
            let email = text::trimmed(value);
            &&& text::byte_length(email) <= 254
            &&& forall|i: int|
                0 <= i < email.len() ==> #[trigger] email[i] <= '\u{7f}' && !is_whitespace(email[i])
            &&& 0 < at < email.len() - 1
            &&& email[at + 1] != '.'
            &&& email[email.len() - 1] != '.'
            &&& exists|i: int| at < i < email.len() && #[trigger] email[i] == '.'
        },
        normalized_email(value) matches Ok(email) ==> {
            &&& email.len() == text::trimmed(value).len()
            &&& forall|i: int|
                0 <= i < email.len() ==> #[trigger] email[i] == if 'A' <= text::trimmed(value)[i]
                    <= 'Z' {
                    (text::trimmed(value)[i] as u32 + 32) as char
                } else {
                    text::trimmed(value)[i]
                }
        },
{
    let email = text::trimmed(value);
    lemma_is_first_index(email, '@', at);
    assert(email.contains('@'));
    let domain = email.skip(at + 1);
    if domain.contains('.') {
        let i = choose|i: int| 0 <= i < domain.len() && domain[i] == '.';
        assert(email[at + 1 + i] == '.');
    }
    if exists|i: int| at < i < email.len() && #[trigger] email[i] == '.' {
        let i = choose|i: int| at < i < email.len() && #[trigger] email[i] == '.';
        assert(domain[i - at - 1] == '.');
    }
    if domain.len() > 0 {
        assert(domain[0] == email[at + 1]);
        assert(domain.last() == email[email.len() - 1]);
    }
    if is_address(email) {
        assert(domain.len() > 0);
        assert(email[at + 1] != '.');
        assert(email[email.len() - 1] != '.');
        assert forall|i: int| 0 <= i < email.len() implies #[trigger] email[i] <= '\u{7f}'
            && !is_whitespace(email[i]) by {}
        assert(exists|i: int| at < i < email.len() && #[trigger] email[i] == '.');
    } else if text::byte_length(email) <= 254 && (forall|i: int|
        0 <= i < email.len() ==> #[trigger] email[i] <= '\u{7f}' && !is_whitespace(email[i])) && 0
        < at < email.len() - 1 && email[at + 1] != '.' && email[email.len() - 1] != '.' && (exists|
        i: int,
    | at < i < email.len() && #[trigger] email[i] == '.') {
        assert forall|i: int| 0 <= i < email.len() implies '\u{0}' <= #[trigger] email[i]
            <= '\u{7f}' by {
            lemma_no_character_is_lower(email[i]);
        }
        assert(vstd::utf8::is_ascii_chars(email));
        assert(domain.contains('.'));
        assert(domain.len() > 0);
        assert(is_address(email));
    }
}

/// Nothing without an `@` is an address.
pub proof fn addresses_have_an_at_sign(value: Seq<char>)
    requires
        forall|i: int| 0 <= i < text::trimmed(value).len() ==> text::trimmed(value)[i] != '@',
    ensures
        normalized_email(value) is Err,
{
}

/// A password has 8 to 1024 bytes.
pub proof fn passwords_have_their_length(password: Seq<char>)
    ensures
        password_refusal(password) is None <==> 8 <= text::byte_length(password) <= 1_024,
{
}

/// Someone is registered exactly with an address, a password of the right length that was
/// written twice, and a name of 1 to 64 characters without control characters; what is stored
/// is the address in its one form and the name without the white space around it.
pub proof fn registrations_are_complete(form: RegisterForm)
    ensures
        registration(form) is Ok <==> {
            &&& form.password@ == form.password_confirm@
            &&& 8 <= text::byte_length(form.password@) <= 1_024
            &&& normalized_email(form.email@) is Ok
            &&& 1 <= text::trimmed(form.username@).len() <= 64
            &&& forall|i: int|
                0 <= i < text::trimmed(form.username@).len() ==> !is_control(
                    #[trigger] text::trimmed(form.username@)[i],
                )
        },
        registration(form) matches Ok((email, username)) ==> normalized_email(form.email@) == Ok::<
            Seq<char>,
            ApiError,
        >(email) && username == text::trimmed(form.username@),
        form.password@ != form.password_confirm@ ==> registration(form) == Err::<
            (Seq<char>, Seq<char>),
            ApiError,
        >(ApiError::BadRequest { code: "password_mismatch", message: "两次密码不一致" }),
{
}

/// A login needs an address, a password of the right length and the code of the terminal, and
/// hands on the address and the code in their one form.
pub proof fn logins_are_complete(form: LoginForm)
    ensures
        login(form) is Ok <==> {
            &&& normalized_email(form.email@) is Ok
            &&& 8 <= text::byte_length(form.password@) <= 1_024
            &&& normalized_user_code(form.user_code@) is Ok
        },
        login(form) matches Ok((email, code)) ==> normalized_email(form.email@) == Ok::<
            Seq<char>,
            ApiError,
        >(email) && normalized_user_code(form.user_code@) == Ok::<Seq<char>, ApiError>(code),
{
}

/// A character of a code that is left out: a hyphen or a blank.
pub open spec fn is_left_out(c: char) -> bool {
    c == '-' || c == ' ' || c == '\u{9}' || c == '\u{a}' || c == '\u{c}' || c == '\u{d}'
}

proof fn lemma_counted(value: Seq<char>)
    ensures
        counted(value) == value.filter(|c: char| !is_left_out(c)).map_values(
            |c: char| text::ascii_upper(c),
        ),
    decreases value.len(),
{
    let keeps = |c: char| !is_left_out(c);
    let raised = |c: char| text::ascii_upper(c);
    reveal(Seq::filter);
    if value.len() > 0 {
        lemma_counted(value.drop_last());
        let before = value.drop_last().filter(keeps);
        if keeps(value.last()) {
            assert(value.filter(keeps) =~= before.push(value.last()));
            assert(before.push(value.last()).map_values(raised) =~= before.map_values(
                raised,
            ).push(raised(value.last())));
        } else {
            assert(value.filter(keeps) =~= before);
        }
    } else {
        assert(value.filter(keeps).map_values(raised) =~= value);
    }
}

/// The code of a terminal is what is left of the input without hyphens and blanks, in upper
/// case: twelve hexadecimal digits. Control characters are never left out in silence.
pub proof fn user_codes_are_twelve_digits(value: Seq<char>)
    ensures
        normalized_user_code(value) matches Ok(code) ==> {
            &&& code.len() == 12
            &&& forall|i: int|
                0 <= i < code.len() ==> '0' <= #[trigger] code[i] <= '9' || 'A' <= code[i] <= 'F'
            &&& code == text::trimmed(value).filter(|c: char| !is_left_out(c)).map_values(
                |c: char| text::ascii_upper(c),
            )
            &&& forall|i: int| 0 <= i < value.len() ==> !is_control(#[trigger] value[i])
        },
        ({
            let code = text::trimmed(value).filter(|c: char| !is_left_out(c)).map_values(
                |c: char| text::ascii_upper(c),
            );
            &&& code.len() == 12
            &&& forall|i: int|
                0 <= i < code.len() ==> '0' <= #[trigger] code[i] <= '9' || 'A' <= code[i] <= 'F'
            &&& forall|i: int| 0 <= i < value.len() ==> !is_control(#[trigger] value[i])
        }) ==> normalized_user_code(value) is Ok,
{
    lemma_counted(text::trimmed(value));
}

/// A token of a confirmation is its mark and 43 characters that can stand in an address.
pub proof fn tokens_have_their_form(token: Seq<char>)
    ensures
        is_verification_token(token) <==> token.len() == 48 && token.take(5) == "mnev_"@
            && forall|i: int|
            5 <= i < 48 ==> ('a' <= #[trigger] token[i] <= 'z') || ('A' <= token[i] <= 'Z') || (
            '0' <= token[i] <= '9') || token[i] == '-' || token[i] == '_',
{
    reveal_strlit("mnev_");
}

/// A token that is known, in form, unused and not over is the only one that is taken up.
pub proof fn live_tokens_confirm(token: Seq<char>, stored: StoredVerification, now: i128)
    requires
        is_verification_token(token),
    ensures
        verification_step(token, Some(stored), now) == VerificationStep::Consume <==> !stored.used
            && now < stored.expires_at,
        verification_step(token, Some(stored), now) == VerificationStep::AlreadyVerified
            <==> stored.used,
        verification_step(token, Some(stored), now) == VerificationStep::Expired <==> !stored.used
            && now >= stored.expires_at,
        verification_step(token, None, now) == VerificationStep::Invalid,
{
}

/// A field is the first member with its name.
pub proof fn fields_are_found_by_name(members: Seq<(String, String)>, name: Seq<char>, at: int)
    requires
        0 <= at <= members.len(),
        at < members.len() ==> members[at].0@ == name,
        forall|i: int| 0 <= i < at ==> (#[trigger] members[i]).0@ != name,
    ensures
        at < members.len() ==> field(members, name) == Some(members[at].1@),
        at == members.len() ==> field(members, name) is None,
    decreases members.len(),
{
    if at > 0 {
        assert(members[0].0@ != name);
        fields_are_found_by_name(members.skip(1), name, at - 1);
    }
}

/// A form with one field is read exactly if it has that field and nothing else.
pub proof fn forms_hold_nothing_else(members: Seq<(String, String)>, name: Seq<char>)
    ensures
        has_exactly(members, seq![name]) <==> members.len() == 1 && members[0].0@ == name,
{
    assert(seq![name][0] == name);
    if members.len() == 1 {
        assert(members.skip(1).len() == 0);
        assert(field(members.skip(1), name) is None);
    }
}

/// The names of the fields of the two forms.
pub proof fn forms_have_their_fields()
    ensures
        RegisterForm::names() == seq!["email"@, "username"@, "password"@, "password_confirm"@],
        LoginForm::names() == seq!["email"@, "password"@, "user_code"@],
{
}

/// The page that asks for a confirmation hands the token on as it is.
pub proof fn pages_hand_their_token_on(token: Seq<char>)
    ensures
        text::contains(confirmation_page(token), token),
        confirmation_page(token).len() == confirmation_page(Seq::empty()).len() + token.len(),
{
    let before = "<!doctype html><html lang=\"zh-CN\"><head><meta charset=\"utf-8\"><meta name=\"referrer\" content=\"no-referrer\"><title>确认邮箱验证</title></head><body><main><h1>确认验证邮箱</h1><p>请仅在你本人刚刚注册 MindOne 时继续。安全扫描器打开此页面不会激活账户。</p><form method=\"post\" action=\"/auth/verify-email\"><input type=\"hidden\" name=\"token\" value=\""@;
    let after = "\"><button type=\"submit\">确认并激活账户</button></form></main></body></html>"@;
    text::parts_stand_between_others(confirmation_page(token), token, before, after);
}

} // verus!
