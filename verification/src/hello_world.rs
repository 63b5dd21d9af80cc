//! The service that answers requests for identifiers and for users.

use crate::biz::{HelloWorldRepo, HelloWorldUseCase, UserDemoRepo, UserDemoUseCase};
use crate::error::TinyIdError;
use crate::response::{ErrCode, Response};
use std::sync::Arc;
use vstd::prelude::*;

verus! {

/// The data of an answer that carries a new identifier.
#[derive(Clone, Copy, Debug, PartialEq, Eq)]
pub struct GenIdResp {
    pub id: u64,
}

/// The request for a user.
#[derive(Clone, Copy, Debug)]
pub struct GetUserReq {
    pub id: u64,
}

/// The data of an answer that carries a user.
#[derive(Clone, Debug)]
pub struct GetUserResp {
    pub id: u64,
    pub name: String,
    pub age: i32,
    pub email: String,
    pub created_at: i64,
    pub updated_at: i64,
}

/// The envelope for the outcome of minting an identifier: the identifier as
/// data of a success, or a server failure that does not say what went wrong.
pub fn id_response(outcome: Result<u64, TinyIdError>) -> (r: Response<GenIdResp>)
    ensures
        r.reference is None,
        match outcome {
            Ok(id) => r.code == ErrCode::Success && r.msg@
                == ErrCode::Success.default_message_spec() && r.data == Some(GenIdResp { id }),
            Err(_) => r.code == ErrCode::InternalServerError && r.msg@ == "generate id failed"@
                && r.data is None,
        },
{
    match outcome {
        Ok(id) => Response::success(Some(GenIdResp { id })),
        Err(_) => Response::failed(ErrCode::InternalServerError, Some("generate id failed")),
    }
}

/// The envelope for the outcome of looking a user up: the user as data of a
/// success, or a server failure that does not say what went wrong.
pub fn user_response(outcome: Result<GetUserResp, TinyIdError>) -> (r: Response<GetUserResp>)
    ensures
        r.reference is None,
        match outcome {
            Ok(user) => r.code == ErrCode::Success && r.msg@
                == ErrCode::Success.default_message_spec() && r.data == Some(user),
            Err(_) => r.code == ErrCode::InternalServerError && r.msg@ == "generate id failed"@
                && r.data is None,
        },
{
    match outcome {
        Ok(user) => Response::success(Some(user)),
        Err(_) => Response::failed(ErrCode::InternalServerError, Some("generate id failed")),
    }
}

/// The service: it asks its use cases and wraps what they give.
pub struct HelloWorldService<R: HelloWorldRepo, U: UserDemoRepo> {
    huc: Arc<HelloWorldUseCase<R>>,
    uuc: Arc<UserDemoUseCase<U>>,
}

impl<R: HelloWorldRepo, U: UserDemoRepo> HelloWorldService<R, U> {
    /// The use case that mints identifiers for the service.
    pub closed spec fn id_use_case(self) -> Arc<HelloWorldUseCase<R>> {
        self.huc
    }

    /// The use case that looks users up for the service.
    pub closed spec fn user_use_case(self) -> Arc<UserDemoUseCase<U>> {
        self.uuc
    }

    /// The service over the two use cases.
    pub fn new(huc: Arc<HelloWorldUseCase<R>>, uuc: Arc<UserDemoUseCase<U>>) -> (service: Self)
        ensures
            service.id_use_case() == huc,
            service.user_use_case() == uuc,
    {
        HelloWorldService { huc, uuc }
    }

    /// Mints an identifier and wraps it, or the failure, in an envelope.
    pub fn generate_id(&self) -> (r: Response<GenIdResp>)
        ensures
            r.reference is None,
            r.code == ErrCode::Success || r.code == ErrCode::InternalServerError,
            r.code == ErrCode::Success <==> r.data is Some,
    {
        id_response(self.huc.generate_id())
    }

    /// Looks a user up and wraps them, or the failure, in an envelope.
    pub fn get_user(&self, req: GetUserReq) -> (r: Response<GetUserResp>)
        ensures
            r.reference is None,
            r.code == ErrCode::Success || r.code == ErrCode::InternalServerError,
            r.code == ErrCode::Success <==> r.data is Some,
    {
        match self.uuc.get_user(req.id) {
            Ok(user) => user_response(
                Ok(
                    GetUserResp {
                        id: user.id,
                        name: user.name,
                        age: user.age,
                        email: user.email,
                        created_at: user.created_at,
                        updated_at: user.updated_at,
                    },
                ),
            ),
            Err(e) => user_response(Err(e)),
        }
    }
}

} // verus!
