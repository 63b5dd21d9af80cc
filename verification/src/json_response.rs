//! Answers of the demonstration endpoints: what they carry and how they are
//! decided.

use crate::error_handling::{FieldErrors, ValidationErrors};
use crate::response::{ErrCode, Response};
use crate::text::{contains_char, decimal, decimal_string, join2, join3};
use vstd::prelude::*;
use vstd::string::StringExecFns;
use vstd::utf8::encode_utf8;

verus! {

/// A user as the endpoints show them.
#[derive(Clone, Debug, PartialEq, Eq)]
pub struct UserDto {
    pub id: u64,
    pub username: String,
    pub email: String,
    pub active: bool,
    pub created_at: String,
}

/// The request to make a user.
#[derive(Clone, Debug)]
pub struct CreateUserRequest {
    pub username: String,
    pub email: String,
    pub password: String,
}

/// The request to change a user. What is absent stays as it is.
#[derive(Clone, Debug)]
pub struct UpdateUserRequest {
    pub username: Option<String>,
    pub email: Option<String>,
    pub active: Option<bool>,
}

/// The page a caller asks for.
#[derive(Clone, Debug)]
pub struct PaginationQuery {
    pub page: Option<u32>,
    pub size: Option<u32>,
    pub sort: Option<String>,
}

/// One page of items.
#[derive(Clone, Debug)]
pub struct PaginatedResponse<T> {
    pub items: Vec<T>,
    pub total: u64,
    pub page: u32,
    pub size: u32,
    pub pages: u32,
}

/// A user with their profile and settings.
#[derive(Clone, Debug)]
pub struct UserProfile {
    pub user: UserDto,
    pub profile: ProfileDto,
    pub settings: UserSettings,
}

/// What a user tells of themselves.
#[derive(Clone, Debug)]
pub struct ProfileDto {
    pub avatar: Option<String>,
    pub bio: Option<String>,
    pub location: Option<String>,
    pub website: Option<String>,
}

/// How a user wants the service to look and to speak.
#[derive(Clone, Debug)]
pub struct UserSettings {
    pub theme: String,
    pub language: String,
    pub notifications: NotificationSettings,
}

/// Which notifications a user wants.
#[derive(Clone, Copy, Debug, PartialEq, Eq)]
pub struct NotificationSettings {
    pub email_notifications: bool,
    pub push_notifications: bool,
    pub sms_notifications: bool,
}

/// The answer to an upload.
#[derive(Clone, Debug)]
pub struct FileUploadResponse {
    pub file_id: String,
    pub filename: String,
    pub size: u64,
    pub content_type: String,
    pub url: String,
    pub uploaded_at: String,
}

/// An envelope together with the status of the transport it is sent with.
#[derive(Clone, Debug, PartialEq)]
pub struct JsonResponse<T>(pub u16, pub Response<T>);

impl<T> JsonResponse<T> {
    /// Status 200 with the data.
    pub fn success(data: T) -> (r: Self)
        ensures
            r.0 == 200,
            r.1.code == ErrCode::Success,
            r.1.msg@ == ErrCode::Success.default_message_spec(),
            r.1.reference is None,
            r.1.data == Some(data),
    {
        JsonResponse(200, Response::success(Some(data)))
    }

    /// Status 201 with the data.
    pub fn created(data: T) -> (r: Self)
        ensures
            r.0 == 201,
            r.1.code == ErrCode::Success,
            r.1.msg@ == ErrCode::Success.default_message_spec(),
            r.1.reference is None,
            r.1.data == Some(data),
    {
        JsonResponse(201, Response::success(Some(data)))
    }
}

/// Whether an answer is the failure with a status, a code and a message.
pub open spec fn is_failure(r: JsonResponse<()>, status: u16, code: ErrCode, message: Seq<char>) -> bool {
    &&& r.0 == status
    &&& r.1.code == code
    &&& r.1.msg@ == message
    &&& r.1.reference is None
    &&& r.1.data is None
}

impl JsonResponse<()> {
    /// Status 204 and a success without data.
    pub fn no_content() -> (r: Self)
        ensures
            r.0 == 204,
            r.1.code == ErrCode::Success,
            r.1.msg@ == ErrCode::Success.default_message_spec(),
            r.1.reference is None,
            r.1.data is None,
    {
        JsonResponse(204, Response::success(None))
    }

    /// Status 400 with the message.
    pub fn bad_request(message: &str) -> (r: Self)
        ensures
            is_failure(r, 400, ErrCode::BadRequest, message@),
    {
        JsonResponse(400, Response::failed(ErrCode::BadRequest, Some(message)))
    }

    /// Status 404 with the message.
    pub fn not_found(message: &str) -> (r: Self)
        ensures
            is_failure(r, 404, ErrCode::NotFound, message@),
    {
        JsonResponse(404, Response::failed(ErrCode::NotFound, Some(message)))
    }

    /// Status 500 with the message.
    pub fn internal_error(message: &str) -> (r: Self)
        ensures
            is_failure(r, 500, ErrCode::InternalServerError, message@),
    {
        JsonResponse(500, Response::failed(ErrCode::InternalServerError, Some(message)))
    }
}

/// The name the demonstration gives to the user with a number.
pub open spec fn demo_name(number: nat) -> Seq<char> {
    "user_"@ + decimal(number)
}

/// The address the demonstration gives to the user with a number.
pub open spec fn demo_email(number: nat) -> Seq<char> {
    "user_"@ + decimal(number) + "@example.com"@
}

/// The name the demonstration gives to the user with a number.
pub fn demo_name_of(number: u64) -> (name: String)
    ensures
        name@ == demo_name(number as nat),
{
    join2("user_", decimal_string(number).as_str())
}

/// The address the demonstration gives to the user with a number.
pub fn demo_email_of(number: u64) -> (email: String)
    ensures
        email@ == demo_email(number as nat),
{
    join3("user_", decimal_string(number).as_str(), "@example.com")
}

/// Why the user with an identity cannot be shown, if they cannot: the
/// identity 0 is no identity, and the user 999 does not exist.
pub open spec fn user_refusal(user_id: u64, r: JsonResponse<()>) -> bool {
    if user_id == 0 {
        is_failure(r, 400, ErrCode::BadRequest, "用户ID不能为0"@)
    } else if user_id == 999 {
        is_failure(r, 404, ErrCode::NotFound, "用户不存在"@)
    } else {
        false
    }
}

/// Shows the user with an identity, as it was made at `created_at`.
pub fn get_user(user_id: u64, created_at: String) -> (r: Result<
    JsonResponse<UserDto>,
    JsonResponse<()>,
>)
    ensures
        match r {
            Ok(answer) => {
                &&& user_id != 0 && user_id != 999
                &&& answer.0 == 200
                &&& answer.1.code == ErrCode::Success
                &&& answer.1.data matches Some(user)
                &&& user.id == user_id
                &&& user.username@ == demo_name(user_id as nat)
                &&& user.email@ == demo_email(user_id as nat)
                &&& user.active
                &&& user.created_at == created_at
            },
            Err(refused) => user_refusal(user_id, refused),
        },
{
    if user_id == 0 {
        return Err(JsonResponse::bad_request("用户ID不能为0"));
    }
    if user_id == 999 {
        return Err(JsonResponse::not_found("用户不存在"));
    }
    let user = UserDto {
        id: user_id,
        username: demo_name_of(user_id),
        email: demo_email_of(user_id),
        active: true,
        created_at,
    };
    Ok(JsonResponse::success(user))
}

/// How many pages hold `total` items, `size` to a page.
pub open spec fn page_count(total: u64, size: u32) -> int {
    (total + size - 1) / (size as int)
}

/// Why a page cannot be shown, if it cannot, the page standing at 1 and its
/// size at 10 where none is given: the size exceeds 100, the page is 0, or
/// the size is 0.
pub open spec fn page_refusal(page: Option<u32>, size: Option<u32>) -> Option<Seq<char>> {
    let page = page.unwrap_or(1);
    let size = size.unwrap_or(10);
    if size > 100 {
        Some("每页大小不能超过100"@)
    } else if page == 0 {
        Some("页码必须大于0"@)
    } else if size == 0 {
        Some("每页大小必须大于0"@)
    } else {
        None
    }
}

/// Shows a page of the thousand users of the demonstration, each as it was
/// made at `created_at`. The users of a page are numbered from 1 within the
/// page, and every second one is active.
pub fn list_users(params: PaginationQuery, created_at: String) -> (r: Result<
    JsonResponse<PaginatedResponse<UserDto>>,
    JsonResponse<()>,
>)
    ensures
        match r {
            Ok(answer) => {
                &&& page_refusal(params.page, params.size) is None
                &&& answer.0 == 200
                &&& answer.1.code == ErrCode::Success
                &&& answer.1.data matches Some(listed)
                &&& listed.page == params.page.unwrap_or(1)
                &&& listed.size == params.size.unwrap_or(10)
                &&& listed.total == 1000
                &&& listed.pages == page_count(1000, listed.size)
                &&& listed.items@.len() == listed.size
                &&& forall|k: int|
                    0 <= k < listed.items@.len() ==> {
                        let user = #[trigger] listed.items@[k];
                        &&& user.id == (listed.page - 1) * listed.size + k + 1
                        &&& user.username@ == demo_name((k + 1) as nat)
                        &&& user.email@ == demo_email((k + 1) as nat)
                        &&& user.active == ((k + 1) % 2 == 0)
                        &&& user.created_at@ == created_at@
                    }
            },
            Err(refused) => page_refusal(params.page, params.size) matches Some(message)
                && is_failure(refused, 400, ErrCode::BadRequest, message),
        },
{
    let page: u32 = params.page.unwrap_or(1);
    let size: u32 = params.size.unwrap_or(10);
    if size > 100 {
        return Err(JsonResponse::bad_request("每页大小不能超过100"));
    }
    if page == 0 {
        return Err(JsonResponse::bad_request("页码必须大于0"));
    }
    if size == 0 {
        return Err(JsonResponse::bad_request("每页大小必须大于0"));
    }
    let mut users: Vec<UserDto> = Vec::new();
    let mut i: u64 = 1;
    while i <= size as u64
        invariant
            1 <= i <= size + 1,
            size <= 100,
            page >= 1,
            users@.len() == i - 1,
            forall|k: int|
                0 <= k < users@.len() ==> {
                    let user = #[trigger] users@[k];
                    &&& user.id == (page - 1) * size + k + 1
                    &&& user.username@ == demo_name((k + 1) as nat)
                    &&& user.email@ == demo_email((k + 1) as nat)
                    &&& user.active == ((k + 1) % 2 == 0)
                    &&& user.created_at@ == created_at@
                },
        decreases size + 1 - i,
    {
        assert((page - 1) * size <= 0xffff_ffff * 100) by (nonlinear_arith)
            requires
                1 <= page <= 0xffff_ffff,
                0 <= size <= 100,
        ;
        let user = UserDto {
            id: (page - 1) as u64 * size as u64 + i,
            username: demo_name_of(i),
            email: demo_email_of(i),
            active: i % 2 == 0,
            created_at: created_at.clone(),
        };
        users.push(user);
        i += 1;
    }
    let total: u64 = 1000;
    let pages: u64 = (total + size as u64 - 1) / (size as u64);
    assert(pages <= 1099) by (nonlinear_arith)
        requires
            pages == (1000 + size - 1) / (size as int),
            1 <= size <= 100,
    ;
    let response = PaginatedResponse { items: users, total, page, size, pages: pages as u32 };
    Ok(JsonResponse::success(response))
}

/// What is wrong with a request to make a user, if anything: the name is
/// empty, the address is empty or lacks an at sign, or the password is
/// shorter than 6 bytes.
pub open spec fn create_fault(username: Seq<char>, email: Seq<char>, password: Seq<char>) -> Option<
    Seq<char>,
> {
    if username.len() == 0 {
        Some("用户名不能为空"@)
    } else if email.len() == 0 {
        Some("邮箱不能为空"@)
    } else if !email.contains('@') {
        Some("邮箱格式不正确"@)
    } else if encode_utf8(password).len() < 6 {
        Some("密码长度不能少于6位"@)
    } else {
        None
    }
}

/// Makes the user of a request, at `created_at`. The demonstration gives
/// every new user the identity 12345.
pub fn create_user(request: CreateUserRequest, created_at: String) -> (r: Result<
    JsonResponse<UserDto>,
    JsonResponse<()>,
>)
    ensures
        match r {
            Ok(answer) => {
                &&& create_fault(request.username@, request.email@, request.password@) is None
                &&& answer.0 == 201
                &&& answer.1.code == ErrCode::Success
                &&& answer.1.data == Some(
                    UserDto {
                        id: 12345,
                        username: request.username,
                        email: request.email,
                        active: true,
                        created_at,
                    },
                )
            },
            Err(refused) => create_fault(
                request.username@,
                request.email@,
                request.password@,
            ) matches Some(message) && is_failure(refused, 400, ErrCode::BadRequest, message),
        },
{
    if request.username.as_str().is_empty() {
        return Err(JsonResponse::bad_request("用户名不能为空"));
    }
    if request.email.as_str().is_empty() {
        return Err(JsonResponse::bad_request("邮箱不能为空"));
    }
    if !contains_char(request.email.as_str(), '@') {
        return Err(JsonResponse::bad_request("邮箱格式不正确"));
    }
    if request.password.as_str().as_bytes().len() < 6 {
        return Err(JsonResponse::bad_request("密码长度不能少于6位"));
    }
    let user = UserDto {
        id: 12345,
        username: request.username,
        email: request.email,
        active: true,
        created_at,
    };
    Ok(JsonResponse::created(user))
}

/// Why a user cannot be changed as a request asks, if they cannot: the
/// identity 0 is no identity, the user 999 does not exist, and a new
/// address needs an at sign.
pub open spec fn update_refusal(user_id: u64, email: Option<String>, r: JsonResponse<()>) -> bool {
    if user_id == 0 || user_id == 999 {
        user_refusal(user_id, r)
    } else {
        email matches Some(address) && !address@.contains('@') && is_failure(
            r,
            400,
            ErrCode::BadRequest,
            "邮箱格式不正确"@,
        )
    }
}

/// Changes the user with an identity as a request asks, and shows them.
/// What the request leaves out is what the demonstration gives the user.
pub fn update_user(user_id: u64, request: UpdateUserRequest, created_at: String) -> (r: Result<
    JsonResponse<UserDto>,
    JsonResponse<()>,
>)
    ensures
        match r {
            Ok(answer) => {
                &&& user_id != 0 && user_id != 999
                &&& request.email matches Some(address) ==> address@.contains('@')
                &&& answer.0 == 200
                &&& answer.1.code == ErrCode::Success
                &&& answer.1.data matches Some(user)
                &&& user.id == user_id
                &&& user.username@ == match request.username {
                    Some(name) => name@,
                    None => demo_name(user_id as nat),
                }
                &&& user.email@ == match request.email {
                    Some(address) => address@,
                    None => demo_email(user_id as nat),
                }
                &&& user.active == request.active.unwrap_or(true)
                &&& user.created_at == created_at
            },
            Err(refused) => update_refusal(user_id, request.email, refused),
        },
{
    if user_id == 0 {
        return Err(JsonResponse::bad_request("用户ID不能为0"));
    }
    if user_id == 999 {
        return Err(JsonResponse::not_found("用户不存在"));
    }
    let email = match request.email {
        Some(address) => {
            if !contains_char(address.as_str(), '@') {
                return Err(JsonResponse::bad_request("邮箱格式不正确"));
            }
            address
        },
        None => demo_email_of(user_id),
    };
    let username = match request.username {
        Some(name) => name,
        None => demo_name_of(user_id),
    };
    let active = match request.active {
        Some(active) => active,
        None => true,
    };
    let user = UserDto { id: user_id, username, email, active, created_at };
    Ok(JsonResponse::success(user))
}

/// Removes the user with an identity.
pub fn delete_user(user_id: u64) -> (r: JsonResponse<()>)
    ensures
        if user_id == 0 || user_id == 999 {
            user_refusal(user_id, r)
        } else {
            r.0 == 204 && r.1.code == ErrCode::Success && r.1.data is None
        },
{
    if user_id == 0 {
        return JsonResponse::bad_request("用户ID不能为0");
    }
    if user_id == 999 {
        return JsonResponse::not_found("用户不存在");
    }
    JsonResponse::no_content()
}

/// The answer to a request during which the database failed.
pub fn simulate_db_error() -> (r: JsonResponse<()>)
    ensures
        is_failure(r, 500, ErrCode::InternalServerError, "数据库连接失败"@),
{
    JsonResponse::internal_error("数据库连接失败")
}

/// The answer to a request with faults in two fields: the name is taken,
/// and the address is malformed and taken.
pub fn simulate_validation_error() -> (r: Response<FieldErrors>)
    ensures
        r.code == ErrCode::ValidationError,
        r.msg@ == "数据验证失败"@,
        r.reference is None,
        r.data matches Some(errors) && errors.wf() && errors.count() == 2 && errors.messages_of(
            "username"@,
        ) == seq!["用户名已存在"@] && errors.messages_of("email"@) == seq![
            "邮箱格式不正确"@,
            "邮箱已被使用"@,
        ],
{
    let mut errors = ValidationErrors::new();
    errors.add_error("username", "用户名已存在");
    proof {
        reveal_strlit("username");
        reveal_strlit("email");
        assert("username"@ != "email"@) by {
            assert("username"@.len() != "email"@.len());
        }
    }
    errors.add_error("email", "邮箱格式不正确");
    errors.add_error("email", "邮箱已被使用");
    let r = Response::failed(ErrCode::ValidationError, Some("数据验证失败")).set_data(
        errors.errors,
    );
    proof {
        let got = r.data->0;
        assert(got.messages_of("username"@) =~= seq!["用户名已存在"@]);
        assert(got.messages_of("email"@) =~= seq!["邮箱格式不正确"@, "邮箱已被使用"@]);
    }
    r
}

/// Shows the user with an identity together with their profile and
/// settings. The user 999 does not exist.
pub fn get_user_profile(user_id: u64, created_at: String) -> (r: Result<
    JsonResponse<UserProfile>,
    JsonResponse<()>,
>)
    ensures
        match r {
            Ok(answer) => {
                &&& user_id != 999
                &&& answer.0 == 200
                &&& answer.1.code == ErrCode::Success
                &&& answer.1.data matches Some(shown)
                &&& shown.user.id == user_id
                &&& shown.user.username@ == demo_name(user_id as nat)
                &&& shown.user.email@ == demo_email(user_id as nat)
                &&& shown.user.active
                &&& shown.user.created_at == created_at
                &&& shown.profile.avatar matches Some(avatar) && avatar@
                    == "https://example.com/avatars/"@ + decimal(user_id as nat) + ".jpg"@
                &&& shown.profile.bio matches Some(bio) && bio@ == "这是一个示例用户简介"@
                &&& shown.profile.location matches Some(location) && location@ == "北京, 中国"@
                &&& shown.profile.website matches Some(website) && website@
                    == "https://example.com"@
                &&& shown.settings.theme@ == "dark"@
                &&& shown.settings.language@ == "zh-CN"@
                &&& shown.settings.notifications == (NotificationSettings {
                    email_notifications: true,
                    push_notifications: false,
                    sms_notifications: true,
                })
            },
            Err(refused) => user_id == 999 && is_failure(
                refused,
                404,
                ErrCode::NotFound,
                "用户不存在"@,
            ),
        },
{
    if user_id == 999 {
        return Err(JsonResponse::not_found("用户不存在"));
    }
    let profile = UserProfile {
        user: UserDto {
            id: user_id,
            username: demo_name_of(user_id),
            email: demo_email_of(user_id),
            active: true,
            created_at,
        },
        profile: ProfileDto {
            avatar: Some(
                join3("https://example.com/avatars/", decimal_string(user_id).as_str(), ".jpg"),
            ),
            bio: Some(String::from_str("这是一个示例用户简介")),
            location: Some(String::from_str("北京, 中国")),
            website: Some(String::from_str("https://example.com")),
        },
        settings: UserSettings {
            theme: String::from_str("dark"),
            language: String::from_str("zh-CN"),
            notifications: NotificationSettings {
                email_notifications: true,
                push_notifications: false,
                sms_notifications: true,
            },
        },
    };
    Ok(JsonResponse::success(profile))
}

/// The answer to the upload of the demonstration's picture, stored under
/// `file_id` at `uploaded_at`.
pub fn upload_file_response(file_id: String, uploaded_at: String) -> (r: JsonResponse<
    FileUploadResponse,
>)
    ensures
        r.0 == 201,
        r.1.code == ErrCode::Success,
        r.1.data matches Some(stored) && stored.file_id == file_id && stored.filename@
            == "example.jpg"@ && stored.size == 512000 && stored.content_type@ == "image/jpeg"@
            && stored.url@ == "https://cdn.example.com/files/example.jpg"@ && stored.uploaded_at
            == uploaded_at,
{
    let response = FileUploadResponse {
        file_id,
        filename: String::from_str("example.jpg"),
        size: 1024 * 500,
        content_type: String::from_str("image/jpeg"),
        url: String::from_str("https://cdn.example.com/files/example.jpg"),
        uploaded_at,
    };
    JsonResponse::created(response)
}

} // verus!
