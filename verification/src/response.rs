//! The envelope every answer of the service comes in, and its result codes.

use crate::text::{decimal, decimal_string, IntoText};
use vstd::prelude::*;
use vstd::std_specs::convert::FromSpecImpl;

verus! {

/// The result code of an answer. The codes below 1000 are those of the
/// transport; those from 1000 on are the service's own.
#[derive(Clone, Copy, Debug, PartialEq, Eq, Hash, Structural)]
pub enum ErrCode {
    /// The operation succeeded.
    Success,
    /// The request's parameters are wrong.
    BadRequest,
    /// The caller is not known.
    Unauthorized,
    /// The caller may not do this.
    Forbidden,
    /// There is no such resource.
    NotFound,
    /// The method is not allowed.
    MethodNotAllowed,
    /// The request took too long.
    RequestTimeout,
    /// The resource is in the way.
    Conflict,
    /// The request is too large.
    PayloadTooLarge,
    /// The caller asks too often.
    TooManyRequests,
    /// The server failed.
    InternalServerError,
    /// The function is not there.
    NotImplemented,
    /// A gateway failed.
    BadGateway,
    /// The service cannot be had.
    ServiceUnavailable,
    /// A gateway took too long.
    GatewayTimeout,
    /// A parameter did not pass validation.
    ValidationError,
    /// The database failed.
    DatabaseError,
    /// Another service failed.
    ExternalServiceError,
    /// The configuration is wrong.
    ConfigError,
    /// The caller could not be authenticated.
    AuthenticationError,
    /// The caller is not authorised.
    AuthorizationError,
    /// A rule of the business was broken.
    BusinessLogicError,
    /// The data contradict each other.
    DataInconsistencyError,
    /// The rate limit was reached.
    RateLimitError,
    /// The cache failed.
    CacheError,
}

impl ErrCode {
    /// The number of the code.
    pub open spec fn code_spec(self) -> int {
        match self {
            ErrCode::Success => 0,
            ErrCode::BadRequest => 400,
            ErrCode::Unauthorized => 401,
            ErrCode::Forbidden => 403,
            ErrCode::NotFound => 404,
            ErrCode::MethodNotAllowed => 405,
            ErrCode::RequestTimeout => 408,
            ErrCode::Conflict => 409,
            ErrCode::PayloadTooLarge => 413,
            ErrCode::TooManyRequests => 429,
            ErrCode::InternalServerError => 500,
            ErrCode::NotImplemented => 501,
            ErrCode::BadGateway => 502,
            ErrCode::ServiceUnavailable => 503,
            ErrCode::GatewayTimeout => 504,
            ErrCode::ValidationError => 1001,
            ErrCode::DatabaseError => 1002,
            ErrCode::ExternalServiceError => 1003,
            ErrCode::ConfigError => 1004,
            ErrCode::AuthenticationError => 1005,
            ErrCode::AuthorizationError => 1006,
            ErrCode::BusinessLogicError => 1007,
            ErrCode::DataInconsistencyError => 1008,
            ErrCode::RateLimitError => 1009,
            ErrCode::CacheError => 1010,
        }
    }

    /// The status of the transport that goes with the code: the code itself
    /// for the transport's codes, 200 for success, and for each of the
    /// service's own codes the status of the failure it stands for.
    pub open spec fn http_status_spec(self) -> int {
        match self {
            ErrCode::Success => 200,
            ErrCode::ValidationError => 400,
            ErrCode::AuthenticationError => 401,
            ErrCode::AuthorizationError => 403,
            ErrCode::BusinessLogicError => 400,
            ErrCode::DataInconsistencyError => 500,
            ErrCode::DatabaseError => 500,
            ErrCode::ExternalServiceError => 502,
            ErrCode::ConfigError => 500,
            ErrCode::RateLimitError => 429,
            ErrCode::CacheError => 500,
            _ => self.code_spec(),
        }
    }

    /// The message that goes with the code when the caller gives none.
    pub open spec fn default_message_spec(self) -> Seq<char> {
        match self {
            ErrCode::Success => "操作成功"@,
            ErrCode::BadRequest => "请求参数错误"@,
            ErrCode::Unauthorized => "未授权访问"@,
            ErrCode::Forbidden => "权限不足"@,
            ErrCode::NotFound => "资源未找到"@,
            ErrCode::MethodNotAllowed => "请求方法不允许"@,
            ErrCode::RequestTimeout => "请求超时"@,
            ErrCode::Conflict => "资源冲突"@,
            ErrCode::PayloadTooLarge => "请求实体过大"@,
            ErrCode::TooManyRequests => "请求过于频繁"@,
            ErrCode::InternalServerError => "内部服务器错误"@,
            ErrCode::NotImplemented => "功能未实现"@,
            ErrCode::BadGateway => "网关错误"@,
            ErrCode::ServiceUnavailable => "服务不可用"@,
            ErrCode::GatewayTimeout => "网关超时"@,
            ErrCode::ValidationError => "参数验证失败"@,
            ErrCode::DatabaseError => "数据库操作失败"@,
            ErrCode::ExternalServiceError => "外部服务调用失败"@,
            ErrCode::ConfigError => "配置错误"@,
            ErrCode::AuthenticationError => "认证失败"@,
            ErrCode::AuthorizationError => "授权失败"@,
            ErrCode::BusinessLogicError => "业务逻辑错误"@,
            ErrCode::DataInconsistencyError => "数据不一致"@,
            ErrCode::RateLimitError => "访问频率超限"@,
            ErrCode::CacheError => "缓存操作失败"@,
        }
    }

    /// The code that stands for a status of the transport: 200 is success,
    /// each failure the transport's codes know is itself, and any other
    /// status is a failure of the server.
    pub open spec fn from_status_spec(status: u16) -> ErrCode {
        if status == 200 {
            ErrCode::Success
        } else if status == 400 {
            ErrCode::BadRequest
        } else if status == 401 {
            ErrCode::Unauthorized
        } else if status == 403 {
            ErrCode::Forbidden
        } else if status == 404 {
            ErrCode::NotFound
        } else if status == 405 {
            ErrCode::MethodNotAllowed
        } else if status == 408 {
            ErrCode::RequestTimeout
        } else if status == 409 {
            ErrCode::Conflict
        } else if status == 413 {
            ErrCode::PayloadTooLarge
        } else if status == 429 {
            ErrCode::TooManyRequests
        } else if status == 501 {
            ErrCode::NotImplemented
        } else if status == 502 {
            ErrCode::BadGateway
        } else if status == 503 {
            ErrCode::ServiceUnavailable
        } else if status == 504 {
            ErrCode::GatewayTimeout
        } else {
            ErrCode::InternalServerError
        }
    }

    /// The number of the code.
    pub fn code(&self) -> (code: i32)
        ensures
            code == self.code_spec(),
    {
        match *self {
            ErrCode::Success => 0,
            ErrCode::BadRequest => 400,
            ErrCode::Unauthorized => 401,
            ErrCode::Forbidden => 403,
            ErrCode::NotFound => 404,
            ErrCode::MethodNotAllowed => 405,
            ErrCode::RequestTimeout => 408,
            ErrCode::Conflict => 409,
            ErrCode::PayloadTooLarge => 413,
            ErrCode::TooManyRequests => 429,
            ErrCode::InternalServerError => 500,
            ErrCode::NotImplemented => 501,
            ErrCode::BadGateway => 502,
            ErrCode::ServiceUnavailable => 503,
            ErrCode::GatewayTimeout => 504,
            ErrCode::ValidationError => 1001,
            ErrCode::DatabaseError => 1002,
            ErrCode::ExternalServiceError => 1003,
            ErrCode::ConfigError => 1004,
            ErrCode::AuthenticationError => 1005,
            ErrCode::AuthorizationError => 1006,
            ErrCode::BusinessLogicError => 1007,
            ErrCode::DataInconsistencyError => 1008,
            ErrCode::RateLimitError => 1009,
            ErrCode::CacheError => 1010,
        }
    }

    /// The code with a given number, if there is one.
    pub fn from_code(code: i32) -> (r: Option<ErrCode>)
        ensures
            match r {
                Some(c) => c.code_spec() == code,
                None => forall|c: ErrCode| c.code_spec() != code,
            },
    {
        match code {
            0 => Some(ErrCode::Success),
            400 => Some(ErrCode::BadRequest),
            401 => Some(ErrCode::Unauthorized),
            403 => Some(ErrCode::Forbidden),
            404 => Some(ErrCode::NotFound),
            405 => Some(ErrCode::MethodNotAllowed),
            408 => Some(ErrCode::RequestTimeout),
            409 => Some(ErrCode::Conflict),
            413 => Some(ErrCode::PayloadTooLarge),
            429 => Some(ErrCode::TooManyRequests),
            500 => Some(ErrCode::InternalServerError),
            501 => Some(ErrCode::NotImplemented),
            502 => Some(ErrCode::BadGateway),
            503 => Some(ErrCode::ServiceUnavailable),
            504 => Some(ErrCode::GatewayTimeout),
            1001 => Some(ErrCode::ValidationError),
            1002 => Some(ErrCode::DatabaseError),
            1003 => Some(ErrCode::ExternalServiceError),
            1004 => Some(ErrCode::ConfigError),
            1005 => Some(ErrCode::AuthenticationError),
            1006 => Some(ErrCode::AuthorizationError),
            1007 => Some(ErrCode::BusinessLogicError),
            1008 => Some(ErrCode::DataInconsistencyError),
            1009 => Some(ErrCode::RateLimitError),
            1010 => Some(ErrCode::CacheError),
            _ => None,
        }
    }

    /// The status of the transport that goes with the code.
    pub fn http_status(&self) -> (status: u16)
        ensures
            status == self.http_status_spec(),
    {
        match *self {
            ErrCode::Success => 200,
            ErrCode::BadRequest => 400,
            ErrCode::Unauthorized => 401,
            ErrCode::Forbidden => 403,
            ErrCode::NotFound => 404,
            ErrCode::MethodNotAllowed => 405,
            ErrCode::RequestTimeout => 408,
            ErrCode::Conflict => 409,
            ErrCode::PayloadTooLarge => 413,
            ErrCode::TooManyRequests => 429,
            ErrCode::InternalServerError => 500,
            ErrCode::NotImplemented => 501,
            ErrCode::BadGateway => 502,
            ErrCode::ServiceUnavailable => 503,
            ErrCode::GatewayTimeout => 504,
            ErrCode::ValidationError => 400,
            ErrCode::AuthenticationError => 401,
            ErrCode::AuthorizationError => 403,
            ErrCode::BusinessLogicError => 400,
            ErrCode::DataInconsistencyError => 500,
            ErrCode::DatabaseError => 500,
            ErrCode::ExternalServiceError => 502,
            ErrCode::ConfigError => 500,
            ErrCode::RateLimitError => 429,
            ErrCode::CacheError => 500,
        }
    }

    /// The message that goes with the code when the caller gives none.
    pub fn default_message(&self) -> (message: &'static str)
        ensures
            message@ == self.default_message_spec(),
    {
        match *self {
            ErrCode::Success => "操作成功",
            ErrCode::BadRequest => "请求参数错误",
            ErrCode::Unauthorized => "未授权访问",
            ErrCode::Forbidden => "权限不足",
            ErrCode::NotFound => "资源未找到",
            ErrCode::MethodNotAllowed => "请求方法不允许",
            ErrCode::RequestTimeout => "请求超时",
            ErrCode::Conflict => "资源冲突",
            ErrCode::PayloadTooLarge => "请求实体过大",
            ErrCode::TooManyRequests => "请求过于频繁",
            ErrCode::InternalServerError => "内部服务器错误",
            ErrCode::NotImplemented => "功能未实现",
            ErrCode::BadGateway => "网关错误",
            ErrCode::ServiceUnavailable => "服务不可用",
            ErrCode::GatewayTimeout => "网关超时",
            ErrCode::ValidationError => "参数验证失败",
            ErrCode::DatabaseError => "数据库操作失败",
            ErrCode::ExternalServiceError => "外部服务调用失败",
            ErrCode::ConfigError => "配置错误",
            ErrCode::AuthenticationError => "认证失败",
            ErrCode::AuthorizationError => "授权失败",
            ErrCode::BusinessLogicError => "业务逻辑错误",
            ErrCode::DataInconsistencyError => "数据不一致",
            ErrCode::RateLimitError => "访问频率超限",
            ErrCode::CacheError => "缓存操作失败",
        }
    }

    /// Whether the code is that of success.
    pub fn is_success(&self) -> (r: bool)
        ensures
            r == (*self == ErrCode::Success),
    {
        matches!(*self, ErrCode::Success)
    }

    /// Whether the status that goes with the code is a failure of the
    /// caller, from 400 up to 499.
    pub fn is_client_error(&self) -> (r: bool)
        ensures
            r == (400 <= self.http_status_spec() < 500),
    {
        let status = self.http_status();
        status >= 400 && status < 500
    }

    /// Whether the status that goes with the code is a failure of the
    /// server, from 500 up to 599.
    pub fn is_server_error(&self) -> (r: bool)
        ensures
            r == (500 <= self.http_status_spec() < 600),
    {
        let status = self.http_status();
        status >= 500 && status < 600
    }

    /// Whether the code is one of the service's own, from 1000 on.
    pub fn is_business_error(&self) -> (r: bool)
        ensures
            r == (self.code_spec() >= 1000),
    {
        self.code() >= 1000
    }

    /// The number of the code in decimal.
    pub fn to_string(&self) -> (s: String)
        ensures
            s@ == decimal(self.code_spec() as nat),
    {
        decimal_string(self.code() as u64)
    }
}

impl From<u16> for ErrCode {
    fn from(status: u16) -> (code: ErrCode) {
        match status {
            200 => ErrCode::Success,
            400 => ErrCode::BadRequest,
            401 => ErrCode::Unauthorized,
            403 => ErrCode::Forbidden,
            404 => ErrCode::NotFound,
            405 => ErrCode::MethodNotAllowed,
            408 => ErrCode::RequestTimeout,
            409 => ErrCode::Conflict,
            413 => ErrCode::PayloadTooLarge,
            429 => ErrCode::TooManyRequests,
            500 => ErrCode::InternalServerError,
            501 => ErrCode::NotImplemented,
            502 => ErrCode::BadGateway,
            503 => ErrCode::ServiceUnavailable,
            504 => ErrCode::GatewayTimeout,
            _ => ErrCode::InternalServerError,
        }
    }
}

impl FromSpecImpl<u16> for ErrCode {
    open spec fn obeys_from_spec() -> bool {
        true
    }

    open spec fn from_spec(status: u16) -> ErrCode {
        ErrCode::from_status_spec(status)
    }
}

/// The envelope of an answer: a code, a message, an optional reference for
/// tracing, and the data, if there are any.
#[derive(Clone, Debug, PartialEq)]
pub struct Response<T> {
    /// The result code.
    pub code: ErrCode,
    /// The message for the caller.
    pub msg: String,
    /// A reference by which the answer can be traced.
    pub reference: Option<String>,
    /// The data of the answer.
    pub data: Option<T>,
}

impl<T> Response<T> {
    /// An answer without reference and without data.
    pub fn new<M: IntoText>(code: ErrCode, msg: M) -> (r: Self)
        ensures
            r.code == code,
            r.msg@ == msg.text(),
            r.reference is None,
            r.data is None,
    {
        Response { code, msg: msg.into_text(), reference: None, data: None }
    }

    /// An answer with data.
    pub fn with_data<M: IntoText>(code: ErrCode, msg: M, data: T) -> (r: Self)
        ensures
            r.code == code,
            r.msg@ == msg.text(),
            r.reference is None,
            r.data == Some(data),
    {
        Response { code, msg: msg.into_text(), reference: None, data: Some(data) }
    }

    /// The answer with its reference replaced.
    pub fn set_ref<M: IntoText>(self, reference: M) -> (r: Self)
        ensures
            r.code == self.code,
            r.msg == self.msg,
            r.reference matches Some(text) && text@ == reference.text(),
            r.data == self.data,
    {
        let mut changed = self;
        changed.reference = Some(reference.into_text());
        changed
    }

    /// The answer with its data replaced.
    pub fn set_data(self, data: T) -> (r: Self)
        ensures
            r.code == self.code,
            r.msg == self.msg,
            r.reference == self.reference,
            r.data == Some(data),
    {
        let mut changed = self;
        changed.data = Some(data);
        changed
    }

    /// The answer to an operation that succeeded, with the message that
    /// goes with success.
    pub fn success(data: Option<T>) -> (r: Self)
        ensures
            r.code == ErrCode::Success,
            r.msg@ == ErrCode::Success.default_message_spec(),
            r.reference is None,
            r.data == data,
    {
        match data {
            None => Self::new(ErrCode::Success, ErrCode::Success.default_message()),
            Some(data) => Self::with_data(
                ErrCode::Success,
                ErrCode::Success.default_message(),
                data,
            ),
        }
    }

    /// The answer to an operation that failed: with the given message, or
    /// with the one that goes with the code.
    pub fn failed<M: IntoText>(code: ErrCode, msg: Option<M>) -> (r: Self)
        ensures
            r.code == code,
            r.msg@ == (match msg {
                Some(text) => text.text(),
                None => code.default_message_spec(),
            }),
            r.reference is None,
            r.data is None,
    {
        match msg {
            None => Self::new(code, code.default_message()),
            Some(text) => Self::new(code, text),
        }
    }
}

} // verus!
