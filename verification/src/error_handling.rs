//! The failures an answer can report, and the checks on what callers send.

use crate::response::{ErrCode, Response};
use crate::json_response::{CreateUserRequest, UserDto};
use crate::text::{contains_char, join2, join3, same_text, IntoText};
use vstd::prelude::*;
use vstd::string::{StrSliceExecFns, StringExecFns};
use vstd::utf8::encode_utf8;

verus! {

/// A failure that an answer reports to the caller.
#[derive(Debug)]
pub enum ApiError {
    Validation { message: String },
    Authentication(String),
    Authorization(String),
    NotFound { resource: String },
    Conflict { message: String },
    ExternalService { service: String, message: String },
    Config(String),
    Internal(String),
    RateLimit,
    Timeout,
    PayloadTooLarge,
}

/// The result of an operation that may fail with an `ApiError`.
pub type ApiResult<T> = Result<T, ApiError>;

impl ApiError {
    pub fn validation<M: IntoText>(message: M) -> (e: Self)
        ensures
            e matches ApiError::Validation { message: text } && text@ == message.text(),
    {
        ApiError::Validation { message: message.into_text() }
    }

    pub fn not_found<M: IntoText>(resource: M) -> (e: Self)
        ensures
            e matches ApiError::NotFound { resource: text } && text@ == resource.text(),
    {
        ApiError::NotFound { resource: resource.into_text() }
    }

    pub fn conflict<M: IntoText>(message: M) -> (e: Self)
        ensures
            e matches ApiError::Conflict { message: text } && text@ == message.text(),
    {
        ApiError::Conflict { message: message.into_text() }
    }

    pub fn external_service<S: IntoText, M: IntoText>(service: S, message: M) -> (e: Self)
        ensures
            e matches ApiError::ExternalService { service: name, message: text } && name@
                == service.text() && text@ == message.text(),
    {
        ApiError::ExternalService { service: service.into_text(), message: message.into_text() }
    }

    pub fn internal<M: IntoText>(message: M) -> (e: Self)
        ensures
            e matches ApiError::Internal(text) && text@ == message.text(),
    {
        ApiError::Internal(message.into_text())
    }

    pub fn authentication<M: IntoText>(message: M) -> (e: Self)
        ensures
            e matches ApiError::Authentication(text) && text@ == message.text(),
    {
        ApiError::Authentication(message.into_text())
    }

    pub fn authorization<M: IntoText>(message: M) -> (e: Self)
        ensures
            e matches ApiError::Authorization(text) && text@ == message.text(),
    {
        ApiError::Authorization(message.into_text())
    }

    /// The text of the failure.
    pub open spec fn text_spec(self) -> Seq<char> {
        match self {
            ApiError::Validation { message } => "验证错误: "@ + message@,
            ApiError::Authentication(m) => "认证失败: "@ + m@,
            ApiError::Authorization(m) => "权限不足: "@ + m@,
            ApiError::NotFound { resource } => "资源未找到: "@ + resource@,
            ApiError::Conflict { message } => "资源冲突: "@ + message@,
            ApiError::ExternalService { service, message } => "外部服务错误: "@ + service@ + ": "@
                + message@,
            ApiError::Config(m) => "配置错误: "@ + m@,
            ApiError::Internal(m) => "内部服务器错误: "@ + m@,
            ApiError::RateLimit => "请求过于频繁"@,
            ApiError::Timeout => "请求超时"@,
            ApiError::PayloadTooLarge => "请求体过大"@,
        }
    }

    /// The text of the failure, as it is shown to a person.
    pub fn to_string(&self) -> (s: String)
        ensures
            s@ == self.text_spec(),
    {
        match self {
            ApiError::Validation { message } => join2("验证错误: ", message.as_str()),
            ApiError::Authentication(m) => join2("认证失败: ", m.as_str()),
            ApiError::Authorization(m) => join2("权限不足: ", m.as_str()),
            ApiError::NotFound { resource } => join2("资源未找到: ", resource.as_str()),
            ApiError::Conflict { message } => join2("资源冲突: ", message.as_str()),
            ApiError::ExternalService { service, message } => join3(
                "外部服务错误: ",
                service.as_str(),
                ": ",
            ).concat(message.as_str()),
            ApiError::Config(m) => join2("配置错误: ", m.as_str()),
            ApiError::Internal(m) => join2("内部服务器错误: ", m.as_str()),
            ApiError::RateLimit => String::from_str("请求过于频繁"),
            ApiError::Timeout => String::from_str("请求超时"),
            ApiError::PayloadTooLarge => String::from_str("请求体过大"),
        }
    }

    /// The status of the transport with which the failure is answered.
    pub open spec fn status_spec(self) -> u16 {
        match self {
            ApiError::Validation { .. } => 400,
            ApiError::Authentication(_) => 401,
            ApiError::Authorization(_) => 403,
            ApiError::NotFound { .. } => 404,
            ApiError::Conflict { .. } => 409,
            ApiError::ExternalService { .. } => 502,
            ApiError::Config(_) => 500,
            ApiError::Internal(_) => 500,
            ApiError::RateLimit => 429,
            ApiError::Timeout => 408,
            ApiError::PayloadTooLarge => 413,
        }
    }

    /// The result code with which the failure is answered.
    pub open spec fn code_spec(self) -> ErrCode {
        match self {
            ApiError::Validation { .. } => ErrCode::ValidationError,
            ApiError::Authentication(_) => ErrCode::AuthenticationError,
            ApiError::Authorization(_) => ErrCode::AuthorizationError,
            ApiError::NotFound { .. } => ErrCode::NotFound,
            ApiError::Conflict { .. } => ErrCode::Conflict,
            ApiError::ExternalService { .. } => ErrCode::ExternalServiceError,
            ApiError::Config(_) => ErrCode::ConfigError,
            ApiError::Internal(_) => ErrCode::InternalServerError,
            ApiError::RateLimit => ErrCode::RateLimitError,
            ApiError::Timeout => ErrCode::RequestTimeout,
            ApiError::PayloadTooLarge => ErrCode::PayloadTooLarge,
        }
    }

    /// The message the caller gets. What went wrong inside the service, in
    /// another service or in the configuration is not told.
    pub open spec fn public_message_spec(self) -> Seq<char> {
        match self {
            ApiError::Validation { message } => message@,
            ApiError::Authentication(m) => m@,
            ApiError::Authorization(m) => m@,
            ApiError::NotFound { resource } => resource@ + "不存在"@,
            ApiError::Conflict { message } => message@,
            ApiError::ExternalService { service, .. } => "外部服务"@ + service@ + "调用失败"@,
            ApiError::Config(_) => "系统配置错误"@,
            ApiError::Internal(_) => "内部服务器错误"@,
            ApiError::RateLimit => "请求过于频繁，请稍后再试"@,
            ApiError::Timeout => "请求超时"@,
            ApiError::PayloadTooLarge => "请求体过大"@,
        }
    }

    /// The answer to a request that failed: the status of the transport and
    /// the envelope with the result code and the message for the caller.
    pub fn into_parts(self) -> (r: (u16, Response<()>))
        ensures
            r.0 == self.status_spec(),
            r.1.code == self.code_spec(),
            r.1.msg@ == self.public_message_spec(),
            r.1.reference is None,
            r.1.data is None,
    {
        let (status, code, message): (u16, ErrCode, String) = match self {
            ApiError::Validation { message } => (400, ErrCode::ValidationError, message),
            ApiError::Authentication(message) => (401, ErrCode::AuthenticationError, message),
            ApiError::Authorization(message) => (403, ErrCode::AuthorizationError, message),
            ApiError::NotFound { resource } => (
                404,
                ErrCode::NotFound,
                join2(resource.as_str(), "不存在"),
            ),
            ApiError::Conflict { message } => (409, ErrCode::Conflict, message),
            ApiError::ExternalService { service, message: _ } => (
                502,
                ErrCode::ExternalServiceError,
                join3("外部服务", service.as_str(), "调用失败"),
            ),
            ApiError::Config(_) => (500, ErrCode::ConfigError, String::from_str("系统配置错误")),
            ApiError::Internal(_) => (
                500,
                ErrCode::InternalServerError,
                String::from_str("内部服务器错误"),
            ),
            ApiError::RateLimit => (
                429,
                ErrCode::RateLimitError,
                String::from_str("请求过于频繁，请稍后再试"),
            ),
            ApiError::Timeout => (408, ErrCode::RequestTimeout, String::from_str("请求超时")),
            ApiError::PayloadTooLarge => (
                413,
                ErrCode::PayloadTooLarge,
                String::from_str("请求体过大"),
            ),
        };
        (status, Response::failed(code, Some(message)))
    }
}

/// Whether a character is a letter or a digit, as `char::is_alphanumeric`
/// tells it.
pub uninterp spec fn alphanumeric(c: char) -> bool;

/// `char::is_alphanumeric` tells whether a character is a letter or a digit
/// of any script. Its answer depends on the character alone.
pub assume_specification[ char::is_alphanumeric ](c: char) -> (r: bool)
    ensures
        r == alphanumeric(c),
;

/// Whether a character may stand in a user name, given whether it is a
/// letter or a digit: letters, digits and the underscore may.
pub fn username_char_allowed(c: char, is_alphanumeric: bool) -> (allowed: bool)
    ensures
        allowed == (is_alphanumeric || c == '_'),
{
    is_alphanumeric || c == '_'
}

/// What is wrong with an address for electronic mail, if anything: it is
/// empty, it lacks an at sign or a dot, or nothing stands before its at
/// sign.
pub open spec fn email_fault(email: Seq<char>) -> Option<Seq<char>> {
    if email.len() == 0 {
        Some("邮箱不能为空"@)
    } else if !email.contains('@') || !email.contains('.') || email[0] == '@' {
        Some("邮箱格式不正确"@)
    } else {
        None
    }
}

/// What is wrong with a user name, if anything: it is empty, shorter than 3
/// bytes, longer than 20, or holds a character that is neither a letter, a
/// digit nor an underscore.
pub open spec fn username_fault(name: Seq<char>) -> Option<Seq<char>> {
    if name.len() == 0 {
        Some("用户名不能为空"@)
    } else if encode_utf8(name).len() < 3 {
        Some("用户名长度不能少于3位"@)
    } else if encode_utf8(name).len() > 20 {
        Some("用户名长度不能超过20位"@)
    } else if exists|i: int| 0 <= i < name.len() && !(alphanumeric(name[i]) || name[i] == '_') {
        Some("用户名只能包含字母、数字和下划线"@)
    } else {
        None
    }
}

/// What is wrong with a password, if anything: it is empty, shorter than 6
/// bytes or longer than 50.
pub open spec fn password_fault(password: Seq<char>) -> Option<Seq<char>> {
    if password.len() == 0 {
        Some("密码不能为空"@)
    } else if encode_utf8(password).len() < 6 {
        Some("密码长度不能少于6位"@)
    } else if encode_utf8(password).len() > 50 {
        Some("密码长度不能超过50位"@)
    } else {
        None
    }
}

/// What is wrong with the parameters of a page, if anything, the page
/// standing at 1 and its size at 10 where none is given: the page is 0, the
/// size is 0, or the size exceeds 100.
pub open spec fn page_fault(page: Option<u32>, size: Option<u32>) -> Option<Seq<char>> {
    let page = page.unwrap_or(1);
    let size = size.unwrap_or(10);
    if page == 0 {
        Some("页码必须大于0"@)
    } else if size == 0 {
        Some("每页大小必须大于0"@)
    } else if size > 100 {
        Some("每页大小不能超过100"@)
    } else {
        None
    }
}

/// Whether a result says what a check found: `Ok` where nothing is wrong,
/// and the validation failure with the fault's text where something is.
pub open spec fn reports<T>(r: ApiResult<T>, fault: Option<Seq<char>>) -> bool {
    match r {
        Ok(_) => fault is None,
        Err(e) => e matches ApiError::Validation { message } && fault == Some(message@),
    }
}

/// Whether every character of a text may stand in a user name.
pub fn all_username_chars(name: &str) -> (r: bool)
    ensures
        r == (forall|i: int| 0 <= i < name@.len() ==> (alphanumeric(name@[i]) || name@[i] == '_')),
{
    for c in iter: name.chars()
        invariant
            iter.seq() == name@,
            forall|j: int| 0 <= j < iter.index() ==> (alphanumeric(name@[j]) || name@[j] == '_'),
    {
        if !username_char_allowed(c, c.is_alphanumeric()) {
            assert(!(alphanumeric(name@[iter.index() as int]) || name@[iter.index() as int]
                == '_'));
            return false;
        }
    }
    true
}

/// The checks on what callers send.
pub struct Validator;

impl Validator {
    pub fn validate_email(email: &str) -> (r: ApiResult<()>)
        ensures
            reports(r, email_fault(email@)),
    {
        if email.is_empty() {
            return Err(ApiError::validation("邮箱不能为空"));
        }
        if !contains_char(email, '@') || !contains_char(email, '.') || email.get_char(0) == '@' {
            return Err(ApiError::validation("邮箱格式不正确"));
        }
        Ok(())
    }

    pub fn validate_username(username: &str) -> (r: ApiResult<()>)
        ensures
            reports(r, username_fault(username@)),
    {
        if username.is_empty() {
            return Err(ApiError::validation("用户名不能为空"));
        }
        let length = username.as_bytes().len();
        if length < 3 {
            return Err(ApiError::validation("用户名长度不能少于3位"));
        }
        if length > 20 {
            return Err(ApiError::validation("用户名长度不能超过20位"));
        }
        if !all_username_chars(username) {
            return Err(ApiError::validation("用户名只能包含字母、数字和下划线"));
        }
        Ok(())
    }

    pub fn validate_password(password: &str) -> (r: ApiResult<()>)
        ensures
            reports(r, password_fault(password@)),
    {
        if password.is_empty() {
            return Err(ApiError::validation("密码不能为空"));
        }
        let length = password.as_bytes().len();
        if length < 6 {
            return Err(ApiError::validation("密码长度不能少于6位"));
        }
        if length > 50 {
            return Err(ApiError::validation("密码长度不能超过50位"));
        }
        Ok(())
    }

    /// An identity of a resource must not be 0.
    pub fn validate_id(id: u64, resource: &str) -> (r: ApiResult<()>)
        ensures
            reports(
                r,
                if id == 0 {
                    Some(resource@ + "ID不能为0"@)
                } else {
                    None
                },
            ),
    {
        if id == 0 {
            return Err(ApiError::validation(join2(resource, "ID不能为0")));
        }
        Ok(())
    }

    /// The page and its size, each with its default where none is given.
    pub fn validate_page_params(page: Option<u32>, size: Option<u32>) -> (r: ApiResult<(u32, u32)>)
        ensures
            reports(r, page_fault(page, size)),
            r matches Ok(pair) ==> pair == (page.unwrap_or(1), size.unwrap_or(10)),
    {
        let page = page.unwrap_or(1);
        let size = size.unwrap_or(10);
        if page == 0 {
            return Err(ApiError::validation("页码必须大于0"));
        }
        if size == 0 {
            return Err(ApiError::validation("每页大小必须大于0"));
        }
        if size > 100 {
            return Err(ApiError::validation("每页大小不能超过100"));
        }
        Ok((page, size))
    }
}

/// The messages that were recorded against one field.
#[derive(Debug)]
pub struct FieldEntry {
    pub field: String,
    pub messages: Vec<String>,
}

/// The texts of a list of messages.
pub open spec fn texts(messages: Seq<String>) -> Seq<Seq<char>> {
    messages.map_values(|m: String| m@)
}

/// The messages recorded against fields, field by field in the order in
/// which each field was first named. No field occurs twice, and each has at
/// least one message.
///
/// The fields are kept in a list and found by comparing texts. A hash map
/// keyed by strings would find them faster, but nothing could be proved of
/// it: the verifier has no model of how a string hashes.
#[derive(Debug)]
pub struct FieldErrors {
    entries: Vec<FieldEntry>,
}

impl FieldErrors {
    /// No field occurs twice, and each has at least one message.
    pub closed spec fn wf(self) -> bool {
        &&& forall|i: int, j: int|
            0 <= i < j < self.entries@.len() ==> self.entries@[i].field@ != self.entries@[j].field@
        &&& forall|i: int| 0 <= i < self.entries@.len() ==> self.entries@[i].messages@.len() > 0
    }

    /// The fields against which something was recorded.
    pub closed spec fn fields(self) -> Set<Seq<char>> {
        Set::new(
            |field: Seq<char>|
                exists|i: int| 0 <= i < self.entries@.len() && self.entries@[i].field@ == field,
        )
    }

    /// The messages recorded against a field, oldest first; none for a field
    /// that was never named.
    pub closed spec fn messages_of(self, field: Seq<char>) -> Seq<Seq<char>> {
        if exists|i: int| 0 <= i < self.entries@.len() && self.entries@[i].field@ == field {
            let i = choose|i: int| 0 <= i < self.entries@.len() && self.entries@[i].field@ == field;
            texts(self.entries@[i].messages@)
        } else {
            Seq::empty()
        }
    }

    /// The number of fields against which something was recorded.
    pub closed spec fn count(self) -> nat {
        self.entries@.len()
    }

    /// The fields against which something was recorded, in the order in
    /// which each was first named.
    pub closed spec fn fields_in_order(self) -> Seq<Seq<char>> {
        self.entries@.map_values(|entry: FieldEntry| entry.field@)
    }

    /// The messages of a field are those of its entry.
    proof fn lemma_messages_at(self, i: int)
        requires
            self.wf(),
            0 <= i < self.entries@.len(),
        ensures
            self.messages_of(self.entries@[i].field@) == texts(self.entries@[i].messages@),
    {
        let field = self.entries@[i].field@;
        let k = choose|k: int| 0 <= k < self.entries@.len() && self.entries@[k].field@ == field;
        assert(k == i);
    }

    /// Nothing recorded.
    pub fn new() -> (errors: Self)
        ensures
            errors.wf(),
            errors.count() == 0,
            errors.fields_in_order().len() == 0,
            forall|field: Seq<char>| errors.messages_of(field).len() == 0,
    {
        FieldErrors { entries: Vec::new() }
    }

    /// Whether nothing was recorded.
    pub fn is_empty(&self) -> (r: bool)
        ensures
            r == (self.count() == 0),
    {
        self.entries.len() == 0
    }

    /// The number of fields against which something was recorded.
    pub fn len(&self) -> (n: usize)
        ensures
            n == self.count(),
    {
        self.entries.len()
    }

    /// The field that was named as the `index`-th, with its messages, if
    /// so many fields were named.
    pub fn entry(&self, index: usize) -> (r: Option<&FieldEntry>)
        requires
            self.wf(),
        ensures
            self.count() == self.fields_in_order().len(),
            match r {
                Some(entry) => index < self.count() && entry.field@
                    == self.fields_in_order()[index as int] && entry.messages@.len() > 0
                    && self.messages_of(entry.field@) == texts(entry.messages@),
                None => index >= self.count(),
            },
    {
        if index < self.entries.len() {
            proof {
                self.lemma_messages_at(index as int);
            }
            Some(&self.entries[index])
        } else {
            None
        }
    }

    /// Where the entry of a field stands, if the field was named.
    fn position(&self, field: &str) -> (r: Option<usize>)
        ensures
            match r {
                Some(i) => i < self.entries@.len() && self.entries@[i as int].field@ == field@,
                None => forall|i: int|
                    0 <= i < self.entries@.len() ==> self.entries@[i].field@ != field@,
            },
    {
        let mut i: usize = 0;
        while i < self.entries.len()
            invariant
                i <= self.entries@.len(),
                forall|j: int| 0 <= j < i ==> self.entries@[j].field@ != field@,
            decreases self.entries@.len() - i,
        {
            if crate::text::same_text(self.entries[i].field.as_str(), field) {
                return Some(i);
            }
            i += 1;
        }
        None
    }

    /// The messages recorded against a field, if the field was named.
    pub fn get(&self, field: &str) -> (r: Option<&Vec<String>>)
        requires
            self.wf(),
        ensures
            match r {
                Some(messages) => texts(messages@) == self.messages_of(field@) && messages@.len()
                    > 0,
                None => self.messages_of(field@).len() == 0,
            },
    {
        match self.position(field) {
            Some(i) => {
                proof {
                    let k = choose|k: int|
                        0 <= k < self.entries@.len() && self.entries@[k].field@ == field@;
                    assert(k == i);
                }
                Some(&self.entries[i].messages)
            },
            None => None,
        }
    }

    /// Records a message against a field, after those the field has.
    pub fn add(&mut self, field: String, message: String)
        requires
            old(self).wf(),
        ensures
            final(self).wf(),
            final(self).messages_of(field@) == old(self).messages_of(field@).push(message@),
            forall|other: Seq<char>|
                other != field@ ==> final(self).messages_of(other) == old(self).messages_of(other),
            final(self).count() == old(self).count() + (if old(self).messages_of(field@).len()
                == 0 {
                1nat
            } else {
                0nat
            }),
            final(self).fields_in_order() == (if old(self).messages_of(field@).len() == 0 {
                old(self).fields_in_order().push(field@)
            } else {
                old(self).fields_in_order()
            }),
    {
        let ghost before = *self;
        match self.position(field.as_str()) {
            Some(i) => {
                self.entries[i].messages.push(message);
                proof {
                    let after = *self;
                    assert(after.entries@.len() == before.entries@.len());
                    assert forall|k: int| 0 <= k < after.entries@.len() implies (
                    #[trigger] after.entries@[k]).field@ == before.entries@[k].field@ && (k != i
                        ==> after.entries@[k].messages@ == before.entries@[k].messages@) by {}
                    assert(after.wf());
                    before.lemma_messages_at(i as int);
                    after.lemma_messages_at(i as int);
                    assert(after.fields_in_order() =~= before.fields_in_order());
                    assert(texts(after.entries@[i as int].messages@) =~= texts(
                        before.entries@[i as int].messages@,
                    ).push(message@));
                    assert forall|other: Seq<char>| other != field@ implies after.messages_of(other)
                        == before.messages_of(other) by {
                        if exists|k: int|
                            0 <= k < before.entries@.len() && before.entries@[k].field@ == other {
                            let k = choose|k: int|
                                0 <= k < before.entries@.len() && before.entries@[k].field@
                                    == other;
                            assert(after.entries@[k].field@ == other);
                            before.lemma_messages_at(k);
                            after.lemma_messages_at(k);
                        } else {
                            assert forall|k: int| 0 <= k < after.entries@.len() implies (
                            #[trigger] after.entries@[k]).field@ != other by {
                                assert(before.entries@[k].field@ != other);
                            }
                        }
                    }
                }
            },
            None => {
                let mut messages: Vec<String> = Vec::new();
                messages.push(message);
                self.entries.push(FieldEntry { field, messages });
                proof {
                    let after = *self;
                    let last = before.entries@.len() as int;
                    assert forall|k: int| 0 <= k < last implies #[trigger] after.entries@[k]
                        == before.entries@[k] by {}
                    assert(after.wf());
                    after.lemma_messages_at(last);
                    assert(before.messages_of(field@).len() == 0);
                    assert(after.fields_in_order() =~= before.fields_in_order().push(field@));
                    assert(texts(after.entries@[last].messages@) =~= Seq::<Seq<char>>::empty().push(
                        message@,
                    ));
                    assert forall|other: Seq<char>| other != field@ implies after.messages_of(other)
                        == before.messages_of(other) by {
                        if exists|k: int|
                            0 <= k < before.entries@.len() && before.entries@[k].field@ == other {
                            let k = choose|k: int|
                                0 <= k < before.entries@.len() && before.entries@[k].field@
                                    == other;
                            assert(after.entries@[k].field@ == other);
                            before.lemma_messages_at(k);
                            after.lemma_messages_at(k);
                        } else {
                            assert forall|k: int| 0 <= k < after.entries@.len() implies (
                            #[trigger] after.entries@[k]).field@ != other by {
                                if k < last {
                                    assert(before.entries@[k].field@ != other);
                                }
                            }
                        }
                    }
                }
            },
        }
    }
}

/// The faults found in a request, collected field by field.
#[derive(Debug)]
pub struct ValidationErrors {
    pub errors: FieldErrors,
}

impl ValidationErrors {
    /// No fault yet.
    pub fn new() -> (collected: Self)
        ensures
            collected.errors.wf(),
            collected.errors.count() == 0,
            collected.errors.fields_in_order().len() == 0,
            forall|field: Seq<char>| collected.errors.messages_of(field).len() == 0,
    {
        ValidationErrors { errors: FieldErrors::new() }
    }

    /// Records a fault of a field, after those the field has.
    pub fn add_error<F: IntoText, M: IntoText>(&mut self, field: F, message: M)
        requires
            old(self).errors.wf(),
        ensures
            final(self).errors.wf(),
            final(self).errors.messages_of(field.text()) == old(self).errors.messages_of(
                field.text(),
            ).push(message.text()),
            forall|other: Seq<char>|
                other != field.text() ==> final(self).errors.messages_of(other) == old(
                    self,
                ).errors.messages_of(other),
            final(self).errors.count() == old(self).errors.count() + (if old(
                self,
            ).errors.messages_of(field.text()).len() == 0 {
                1nat
            } else {
                0nat
            }),
            final(self).errors.fields_in_order() == (if old(self).errors.messages_of(
                field.text(),
            ).len() == 0 {
                old(self).errors.fields_in_order().push(field.text())
            } else {
                old(self).errors.fields_in_order()
            }),
    {
        let field = field.into_text();
        let message = message.into_text();
        self.errors.add(field, message);
    }

    /// Whether a fault was recorded.
    pub fn has_errors(&self) -> (r: bool)
        ensures
            r == (self.errors.count() > 0),
    {
        !self.errors.is_empty()
    }

    /// The failure that stands for all the faults together.
    pub fn into_api_error(self) -> (e: ApiError)
        ensures
            e matches ApiError::Validation { message } && message@ == "数据验证失败"@,
    {
        ApiError::Validation { message: String::from_str("数据验证失败") }
    }

    /// The answer to a request with faults: status 400 and an envelope that
    /// carries the faults as its data.
    pub fn into_parts(self) -> (r: (u16, Response<FieldErrors>))
        ensures
            r.0 == 400,
            r.1.code == ErrCode::ValidationError,
            r.1.msg@ == "数据验证失败"@,
            r.1.reference is None,
            r.1.data == Some(self.errors),
    {
        (400, Response::failed(ErrCode::ValidationError, Some("数据验证失败")).set_data(self.errors))
    }
}

/// A text with its letters in lower case, as `str::to_lowercase` writes
/// it.
pub uninterp spec fn lowercase(text: Seq<char>) -> Seq<char>;

/// `str::to_lowercase` gives the text with each letter, of any script, in
/// lower case. Its answer depends on the text alone.
#[verifier::external_body]
pub(crate) fn to_lowercase(text: &str) -> (r: String)
    ensures
        r@ == lowercase(text@),
{
    text.to_lowercase()
}

/// Whether a name, given in lower case, is kept for the service itself.
pub fn is_reserved_name(lowered: &str) -> (r: bool)
    ensures
        r == (lowered@ == "admin"@),
{
    same_text(lowered, "admin")
}

/// The first fault of a request to make a user: of the name, else of the
/// address, else of the password.
pub open spec fn first_fault(request: CreateUserRequest) -> Option<Seq<char>> {
    if username_fault(request.username@) is Some {
        username_fault(request.username@)
    } else if email_fault(request.email@) is Some {
        email_fault(request.email@)
    } else {
        password_fault(request.password@)
    }
}

/// Whether an envelope is the success that carries the user of a request,
/// made at `created_at` with the identity 12345.
pub open spec fn carries_new_user(
    r: Response<UserDto>,
    request: CreateUserRequest,
    created_at: String,
) -> bool {
    &&& r.code == ErrCode::Success
    &&& r.msg@ == ErrCode::Success.default_message_spec()
    &&& r.reference is None
    &&& r.data == Some(
        UserDto {
            id: 12345,
            username: request.username,
            email: request.email,
            active: true,
            created_at,
        },
    )
}

/// Makes the user of a request, at `created_at`, unless the name, the
/// address or the password has a fault. The first fault is reported.
pub fn create_user_with_validation(request: CreateUserRequest, created_at: String) -> (r: ApiResult<
    Response<UserDto>,
>)
    ensures
        reports(r, first_fault(request)),
        r matches Ok(answer) ==> carries_new_user(answer, request, created_at),
{
    match Validator::validate_username(request.username.as_str()) {
        Err(e) => {
            return Err(e);
        },
        Ok(_) => {},
    }
    match Validator::validate_email(request.email.as_str()) {
        Err(e) => {
            return Err(e);
        },
        Ok(_) => {},
    }
    match Validator::validate_password(request.password.as_str()) {
        Err(e) => {
            return Err(e);
        },
        Ok(_) => {},
    }
    let user = UserDto {
        id: 12345,
        username: request.username,
        email: request.email,
        active: true,
        created_at,
    };
    Ok(Response::success(Some(user)))
}

/// The messages that a fault leaves with its field: the text of the
/// validation failure, or nothing.
pub open spec fn fault_messages(fault: Option<Seq<char>>) -> Seq<Seq<char>> {
    match fault {
        Some(message) => seq!["验证错误: "@ + message],
        None => Seq::empty(),
    }
}

/// The messages a request to make a user leaves with the field of the
/// name: the fault of the name, and that the name is kept for the service.
pub open spec fn username_messages(username: Seq<char>) -> Seq<Seq<char>> {
    fault_messages(username_fault(username)) + (if lowercase(username) == "admin"@ {
        seq!["用户名 'admin' 是保留字段"@]
    } else {
        Seq::empty()
    })
}

/// Makes the user of a request, at `created_at`, unless the request has
/// faults. All faults are reported, each with its field.
pub fn create_user_with_batch_validation(request: CreateUserRequest, created_at: String) -> (r:
    Result<Response<UserDto>, ValidationErrors>)
    ensures
        match r {
            Ok(answer) => {
                &&& first_fault(request) is None
                &&& lowercase(request.username@) != "admin"@
                &&& carries_new_user(answer, request, created_at)
            },
            Err(e) => {
                &&& first_fault(request) is Some || lowercase(request.username@) == "admin"@
                &&& e.errors.wf()
                &&& e.errors.messages_of("username"@) == username_messages(request.username@)
                &&& e.errors.messages_of("email"@) == fault_messages(email_fault(request.email@))
                &&& e.errors.messages_of("password"@) == fault_messages(
                    password_fault(request.password@),
                )
            },
        },
{
    proof {
        reveal_strlit("username");
        reveal_strlit("email");
        reveal_strlit("password");
        assert("username"@ != "email"@) by {
            assert("username"@.len() != "email"@.len());
        }
        assert("username"@ != "password"@) by {
            assert("username"@[0] != "password"@[0]);
        }
        assert("email"@ != "password"@) by {
            assert("email"@.len() != "password"@.len());
        }
    }
    let mut errors = ValidationErrors::new();
    match Validator::validate_username(request.username.as_str()) {
        Err(e) => {
            errors.add_error("username", e.to_string());
        },
        Ok(_) => {},
    }
    match Validator::validate_email(request.email.as_str()) {
        Err(e) => {
            errors.add_error("email", e.to_string());
        },
        Ok(_) => {},
    }
    match Validator::validate_password(request.password.as_str()) {
        Err(e) => {
            errors.add_error("password", e.to_string());
        },
        Ok(_) => {},
    }
    let lowered = to_lowercase(request.username.as_str());
    if is_reserved_name(lowered.as_str()) {
        errors.add_error("username", "用户名 'admin' 是保留字段");
    }
    proof {
        assert(errors.errors.messages_of("username"@) =~= username_messages(request.username@));
        assert(errors.errors.messages_of("email"@) =~= fault_messages(
            email_fault(request.email@),
        ));
        assert(errors.errors.messages_of("password"@) =~= fault_messages(
            password_fault(request.password@),
        ));
    }
    if errors.has_errors() {
        return Err(errors);
    }
    let user = UserDto {
        id: 12345,
        username: request.username,
        email: request.email,
        active: true,
        created_at,
    };
    Ok(Response::success(Some(user)))
}

/// The answer to a request that could not be read: status 400 and the
/// reason.
pub fn rejection_parts(message: String) -> (r: (u16, Response<()>))
    ensures
        r.0 == 400,
        r.1.code == ErrCode::BadRequest,
        r.1.msg == message,
        r.1.reference is None,
        r.1.data is None,
{
    (400, Response { code: ErrCode::BadRequest, msg: message, reference: None, data: None })
}

/// The answer to a failure that nothing else handled: status 500, and
/// nothing of what went wrong.
pub fn global_error_parts() -> (r: (u16, Response<()>))
    ensures
        r.0 == 500,
        r.1.code == ErrCode::InternalServerError,
        r.1.msg@ == "服务器内部错误，请稍后重试"@,
        r.1.reference is None,
        r.1.data is None,
{
    (500, Response::failed(ErrCode::InternalServerError, Some("服务器内部错误，请稍后重试")))
}

} // verus!
