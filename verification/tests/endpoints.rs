use tinyid::error::TinyIdError;
use tinyid::error_handling::{
    create_user_with_batch_validation, create_user_with_validation, global_error_parts,
    is_reserved_name, rejection_parts, username_char_allowed, ApiError,
};
use tinyid::json_response::{
    create_user, delete_user, demo_email_of, demo_name_of, get_user, get_user_profile, list_users,
    simulate_db_error, simulate_validation_error, update_user, upload_file_response,
    CreateUserRequest, JsonResponse, NotificationSettings, PaginationQuery, UpdateUserRequest,
    UserDto,
};
use tinyid::middleware::{
    is_unhandled_server_error, request_log, span_status, OptimalTracingConfig, RequestLog,
    SpanStatus, TimeoutConfig, TracingConfig,
};
use tinyid::proto::{error_parts, ApiResponse};
use tinyid::response::ErrCode;

fn at() -> String {
    "2025-01-28T00:00:00+00:00".to_string()
}

fn request(username: &str, email: &str, password: &str) -> CreateUserRequest {
    CreateUserRequest {
        username: username.to_string(),
        email: email.to_string(),
        password: password.to_string(),
    }
}

fn refused<T: std::fmt::Debug>(result: Result<T, JsonResponse<()>>) -> (u16, ErrCode, String) {
    match result {
        Err(JsonResponse(status, body)) => {
            assert!(body.data.is_none());
            (status, body.code, body.msg)
        }
        Ok(answer) => panic!("expected a refusal, got {:?}", answer),
    }
}

#[test]
fn envelopes_come_with_their_status() {
    let JsonResponse(status, body) = JsonResponse::success(5u32);
    assert_eq!((status, body.code, body.data), (200, ErrCode::Success, Some(5)));
    assert_eq!(body.msg, "操作成功");
    let JsonResponse(status, body) = JsonResponse::created("x");
    assert_eq!((status, body.code, body.data), (201, ErrCode::Success, Some("x")));
    let JsonResponse(status, body) = JsonResponse::no_content();
    assert_eq!((status, body.code, body.data), (204, ErrCode::Success, None));
    let JsonResponse(status, body) = JsonResponse::bad_request("b");
    assert_eq!((status, body.code, body.msg.as_str()), (400, ErrCode::BadRequest, "b"));
    let JsonResponse(status, body) = JsonResponse::not_found("n");
    assert_eq!((status, body.code, body.msg.as_str()), (404, ErrCode::NotFound, "n"));
    let JsonResponse(status, body) = JsonResponse::internal_error("i");
    assert_eq!(
        (status, body.code, body.msg.as_str()),
        (500, ErrCode::InternalServerError, "i")
    );
}

#[test]
fn a_user_is_shown_by_identity() {
    let JsonResponse(status, body) = get_user(42, at()).unwrap();
    assert_eq!(status, 200);
    assert_eq!(
        body.data,
        Some(UserDto {
            id: 42,
            username: "user_42".to_string(),
            email: "user_42@example.com".to_string(),
            active: true,
            created_at: at(),
        })
    );
    assert_eq!(
        refused(get_user(0, at())),
        (400, ErrCode::BadRequest, "用户ID不能为0".to_string())
    );
    assert_eq!(
        refused(get_user(999, at())),
        (404, ErrCode::NotFound, "用户不存在".to_string())
    );
    assert_eq!(demo_name_of(1000), "user_1000");
    assert_eq!(demo_email_of(7), "user_7@example.com");
}

#[test]
fn a_page_of_users_is_numbered_within_the_page() {
    let query = PaginationQuery { page: Some(3), size: Some(4), sort: None };
    let JsonResponse(status, body) = list_users(query, at()).unwrap();
    assert_eq!(status, 200);
    let listed = body.data.unwrap();
    assert_eq!((listed.total, listed.page, listed.size, listed.pages), (1000, 3, 4, 250));
    assert_eq!(listed.items.len(), 4);
    let ids: Vec<u64> = listed.items.iter().map(|u| u.id).collect();
    assert_eq!(ids, vec![9, 10, 11, 12]);
    let names: Vec<&str> = listed.items.iter().map(|u| u.username.as_str()).collect();
    assert_eq!(names, vec!["user_1", "user_2", "user_3", "user_4"]);
    let active: Vec<bool> = listed.items.iter().map(|u| u.active).collect();
    assert_eq!(active, vec![false, true, false, true]);
    assert_eq!(listed.items[3].email, "user_4@example.com");
    assert_eq!(listed.items[0].created_at, at());

    let query = PaginationQuery { page: None, size: None, sort: Some("id".to_string()) };
    let listed = list_users(query, at()).unwrap().1.data.unwrap();
    assert_eq!((listed.page, listed.size, listed.pages, listed.items.len()), (1, 10, 100, 10));

    let query = PaginationQuery { page: Some(u32::MAX), size: Some(100), sort: None };
    let listed = list_users(query, at()).unwrap().1.data.unwrap();
    assert_eq!(listed.items[99].id, (u32::MAX as u64 - 1) * 100 + 100);
    assert_eq!(listed.pages, 10);

    let query = PaginationQuery { page: Some(1), size: Some(3), sort: None };
    assert_eq!(list_users(query, at()).unwrap().1.data.unwrap().pages, 334);
}

#[test]
fn a_page_that_cannot_be_is_refused() {
    let query = PaginationQuery { page: Some(1), size: Some(101), sort: None };
    assert_eq!(
        refused(list_users(query, at())),
        (400, ErrCode::BadRequest, "每页大小不能超过100".to_string())
    );
    let query = PaginationQuery { page: Some(0), size: Some(101), sort: None };
    assert_eq!(refused(list_users(query, at())).2, "每页大小不能超过100");
    let query = PaginationQuery { page: Some(0), size: Some(10), sort: None };
    assert_eq!(refused(list_users(query, at())).2, "页码必须大于0");
    let query = PaginationQuery { page: Some(1), size: Some(0), sort: None };
    assert_eq!(refused(list_users(query, at())).2, "每页大小必须大于0");
}

#[test]
fn a_user_is_made_from_a_sound_request() {
    let JsonResponse(status, body) =
        create_user(request("neo", "neo@matrix.io", "secret"), at()).unwrap();
    assert_eq!(status, 201);
    assert_eq!(
        body.data,
        Some(UserDto {
            id: 12345,
            username: "neo".to_string(),
            email: "neo@matrix.io".to_string(),
            active: true,
            created_at: at(),
        })
    );
    assert_eq!(refused(create_user(request("", "a@b", "secret"), at())).2, "用户名不能为空");
    assert_eq!(refused(create_user(request("neo", "", "secret"), at())).2, "邮箱不能为空");
    assert_eq!(refused(create_user(request("neo", "ab", "secret"), at())).2, "邮箱格式不正确");
    assert_eq!(
        refused(create_user(request("neo", "a@b", "12345"), at())),
        (400, ErrCode::BadRequest, "密码长度不能少于6位".to_string())
    );
}

#[test]
fn a_user_is_changed_as_far_as_the_request_says() {
    let change = UpdateUserRequest {
        username: Some("trinity".to_string()),
        email: None,
        active: Some(false),
    };
    let user = update_user(5, change, at()).unwrap().1.data.unwrap();
    assert_eq!(
        user,
        UserDto {
            id: 5,
            username: "trinity".to_string(),
            email: "user_5@example.com".to_string(),
            active: false,
            created_at: at(),
        }
    );
    let change = UpdateUserRequest { username: None, email: Some("t@m".to_string()), active: None };
    let user = update_user(5, change, at()).unwrap().1.data.unwrap();
    assert_eq!((user.username.as_str(), user.email.as_str(), user.active), ("user_5", "t@m", true));

    let change = UpdateUserRequest { username: None, email: Some("tm".to_string()), active: None };
    assert_eq!(
        refused(update_user(5, change.clone(), at())),
        (400, ErrCode::BadRequest, "邮箱格式不正确".to_string())
    );
    assert_eq!(refused(update_user(0, change.clone(), at())).2, "用户ID不能为0");
    assert_eq!(refused(update_user(999, change, at())).0, 404);
}

#[test]
fn a_user_is_removed_by_identity() {
    assert_eq!(delete_user(3).0, 204);
    assert_eq!(delete_user(0).0, 400);
    assert_eq!(delete_user(999).1.msg, "用户不存在");
    let JsonResponse(status, body) = simulate_db_error();
    assert_eq!((status, body.msg.as_str()), (500, "数据库连接失败"));
}

#[test]
fn faults_of_two_fields_are_shown_together() {
    let body = simulate_validation_error();
    assert_eq!(body.code, ErrCode::ValidationError);
    assert_eq!(body.msg, "数据验证失败");
    let errors = body.data.unwrap();
    assert_eq!(errors.len(), 2);
    assert_eq!(errors.get("username").unwrap(), &vec!["用户名已存在".to_string()]);
    assert_eq!(
        errors.get("email").unwrap(),
        &vec!["邮箱格式不正确".to_string(), "邮箱已被使用".to_string()]
    );
}

#[test]
fn a_profile_comes_with_settings() {
    let shown = get_user_profile(8, at()).unwrap().1.data.unwrap();
    assert_eq!(shown.user.username, "user_8");
    assert_eq!(shown.profile.avatar.unwrap(), "https://example.com/avatars/8.jpg");
    assert_eq!(shown.profile.bio.unwrap(), "这是一个示例用户简介");
    assert_eq!(shown.profile.location.unwrap(), "北京, 中国");
    assert_eq!(shown.profile.website.unwrap(), "https://example.com");
    assert_eq!((shown.settings.theme.as_str(), shown.settings.language.as_str()), ("dark", "zh-CN"));
    assert_eq!(
        shown.settings.notifications,
        NotificationSettings {
            email_notifications: true,
            push_notifications: false,
            sms_notifications: true,
        }
    );
    assert_eq!(refused(get_user_profile(999, at())).0, 404);
    // the identity 0 has a profile
    assert!(get_user_profile(0, at()).is_ok());
}

#[test]
fn an_upload_is_answered_with_where_it_went() {
    let JsonResponse(status, body) = upload_file_response("f-1".to_string(), at());
    assert_eq!(status, 201);
    let stored = body.data.unwrap();
    assert_eq!(stored.file_id, "f-1");
    assert_eq!(stored.filename, "example.jpg");
    assert_eq!(stored.size, 512000);
    assert_eq!(stored.content_type, "image/jpeg");
    assert_eq!(stored.url, "https://cdn.example.com/files/example.jpg");
    assert_eq!(stored.uploaded_at, at());
}

#[test]
fn the_first_fault_of_a_request_is_reported() {
    let answer = create_user_with_validation(request("neo_1", "neo@matrix.io", "secret"), at());
    let body = answer.ok().unwrap();
    assert_eq!(body.code, ErrCode::Success);
    assert_eq!(body.data.unwrap().id, 12345);

    let message = |r: CreateUserRequest| match create_user_with_validation(r, at()) {
        Err(ApiError::Validation { message }) => message,
        other => panic!("expected a validation failure, got {:?}", other),
    };
    assert_eq!(message(request("ab", "", "")), "用户名长度不能少于3位");
    assert_eq!(message(request("abc", "x", "")), "邮箱格式不正确");
    assert_eq!(message(request("abc", "a@b.c", "12345")), "密码长度不能少于6位");
}

#[test]
fn all_faults_of_a_request_are_reported() {
    let errors = create_user_with_batch_validation(request("ab", "x", "12345"), at()).err().unwrap();
    assert_eq!(errors.errors.len(), 3);
    assert_eq!(
        errors.errors.get("username").unwrap(),
        &vec!["验证错误: 用户名长度不能少于3位".to_string()]
    );
    assert_eq!(errors.errors.get("email").unwrap(), &vec!["验证错误: 邮箱格式不正确".to_string()]);
    assert_eq!(
        errors.errors.get("password").unwrap(),
        &vec!["验证错误: 密码长度不能少于6位".to_string()]
    );

    let errors =
        create_user_with_batch_validation(request("Admin", "a@b.c", "secret"), at()).err().unwrap();
    assert_eq!(errors.errors.len(), 1);
    assert_eq!(
        errors.errors.get("username").unwrap(),
        &vec!["用户名 'admin' 是保留字段".to_string()]
    );

    let body =
        create_user_with_batch_validation(request("morpheus", "m@z.io", "secret"), at()).ok().unwrap();
    assert_eq!(body.data.unwrap().username, "morpheus");

    assert!(is_reserved_name("admin"));
    assert!(!is_reserved_name("Admin"));
    assert!(username_char_allowed('_', false));
    assert!(username_char_allowed('a', true));
    assert!(!username_char_allowed('-', false));
}

#[test]
fn what_could_not_be_read_or_handled_is_answered_plainly() {
    let (status, body) = rejection_parts("缺少路径参数: id".to_string());
    assert_eq!((status, body.code, body.msg.as_str()), (400, ErrCode::BadRequest, "缺少路径参数: id"));
    let (status, body) = global_error_parts();
    assert_eq!(
        (status, body.code, body.msg.as_str()),
        (500, ErrCode::InternalServerError, "服务器内部错误，请稍后重试")
    );
}

#[test]
fn errors_of_the_generator_are_answered_with_their_code() {
    let cases: Vec<(TinyIdError, u16, i32, &str)> = vec![
        (TinyIdError::InvalidRequest("r".to_string()), 500, 5002, "Invalid request: r"),
        (TinyIdError::InvalidDatacenterId(9), 500, 5002, "Invalid datacenter ID: 9"),
        (TinyIdError::ConfigError("c".to_string()), 500, 5002, "configuration error:c"),
        (TinyIdError::ServerError("s".to_string()), 500, 5002, "Server error: s"),
        (TinyIdError::InvalidWorkerId(8), 500, 5002, "Invalid worker ID: 8"),
        (TinyIdError::ClockMovedBackwards(6), 500, 5002, "Clock moved backwards by 6ms"),
        (TinyIdError::IdGenerationFailed("g".to_string()), 500, 5001, "ID generation failed: g"),
        (TinyIdError::UserServiceError("u".to_string()), 502, 5002, "User service error: u"),
        (TinyIdError::InternalError("i".to_string()), 500, 5000, "Internal error: i"),
    ];
    for (error, status, code, message) in cases {
        let (got_status, body) = error_parts(error);
        assert_eq!((got_status, body.code, body.message.as_str()), (status, code, message));
        assert!(body.data.is_none());
        assert!(body.timestamp > 1_700_000_000);
    }
}

#[test]
fn plain_envelopes_are_stamped() {
    let answer = ApiResponse::success(3u8);
    assert_eq!((answer.code, answer.message.as_str(), answer.data), (0, "Success", Some(3)));
    assert!(answer.timestamp > 1_700_000_000);
    let answer: ApiResponse<()> = ApiResponse::error(7, "seven".to_string());
    assert_eq!((answer.code, answer.message.as_str(), answer.data), (7, "seven", None));
    let answer: ApiResponse<u8> = ApiResponse::default();
    assert_eq!((answer.code, answer.message.as_str()), (500, "Internal Server Error"));
}

#[test]
fn the_middleware_classes_answers_by_status() {
    assert_eq!(span_status(200), SpanStatus::Served);
    assert_eq!(span_status(302), SpanStatus::Served);
    assert_eq!(span_status(400), SpanStatus::ClientError);
    assert_eq!(span_status(499), SpanStatus::ClientError);
    assert_eq!(span_status(500), SpanStatus::ServerError);
    assert_eq!(span_status(599), SpanStatus::ServerError);
    assert_eq!(span_status(600), SpanStatus::Served);

    assert_eq!(request_log(200, 999, 1000), RequestLog::Completed);
    assert_eq!(request_log(200, 1000, 1000), RequestLog::Slow);
    assert_eq!(request_log(299, 5000, 1000), RequestLog::Slow);
    assert_eq!(request_log(404, 5000, 1000), RequestLog::ClientError);
    assert_eq!(request_log(503, 1, 1000), RequestLog::ServerError);
    assert_eq!(request_log(301, 5000, 1000), RequestLog::UnknownStatus);
    assert_eq!(request_log(100, 1, 1000), RequestLog::UnknownStatus);

    assert!(is_unhandled_server_error(500));
    assert!(!is_unhandled_server_error(499));
    assert!(!is_unhandled_server_error(600));
}

#[test]
fn the_middleware_has_its_defaults() {
    let config = TracingConfig::default();
    assert!(!config.log_request_body && !config.log_response_body);
    assert_eq!(config.slow_request_threshold_ms, 1000);
    assert!(config.include_trace_id_header);
    assert_eq!(config.trace_id_header_name, "x-trace-id");
    let config = OptimalTracingConfig::default();
    assert_eq!(config.slow_request_threshold_ms, 1000);
    assert!(config.include_trace_id_header && config.log_request_details);
    assert_eq!(config.trace_id_header_name, "x-trace-id");
    assert_eq!(TimeoutConfig::default().timeout_seconds, 30);
}
