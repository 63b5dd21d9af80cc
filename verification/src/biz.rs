//! The use cases of the service and the repositories they rest on.

use crate::clock::now_unix_seconds;
use crate::error::{TinyIdError, UserError};
use std::sync::Arc;
use vstd::prelude::*;
use vstd::string::StringExecFns;

verus! {

/// A source of identifiers.
pub trait HelloWorldRepo {
    /// Mints one identifier, or says why none could be minted.
    fn generate_id(&self) -> Result<u64, TinyIdError>;
}

/// The use case of minting identifiers.
pub struct HelloWorldUseCase<R: HelloWorldRepo> {
    hrepo: Arc<R>,
}

impl<R: HelloWorldRepo> HelloWorldUseCase<R> {
    /// The repository the use case rests on.
    pub closed spec fn repo(self) -> Arc<R> {
        self.hrepo
    }

    pub fn new(hrepo: Arc<R>) -> (uc: Self)
        ensures
            uc.repo() == hrepo,
    {
        HelloWorldUseCase { hrepo }
    }

    /// Mints one identifier with the repository: the result is what the
    /// repository answers.
    pub fn generate_id(&self) -> (r: Result<u64, TinyIdError>)
        ensures
            call_ensures(R::generate_id, (&*self.repo(),), r),
    {
        self.hrepo.generate_id()
    }
}

/// A user, with the instants of creation and of the last change in seconds
/// since the Unix epoch.
#[derive(Clone, Debug)]
pub struct User {
    pub id: u64,
    pub name: String,
    pub email: String,
    pub age: i32,
    pub created_at: i64,
    pub updated_at: i64,
}

impl User {
    /// A user made now.
    pub fn new(id: u64, name: String, email: String, age: i32) -> (user: Self)
        ensures
            user.id == id,
            user.name == name,
            user.email == email,
            user.age == age,
            user.created_at == user.updated_at,
    {
        let now = now_unix_seconds();
        User { id, name, email, age, created_at: now, updated_at: now }
    }
}

/// A source of users for the identifier service.
pub trait UserDemoRepo {
    /// Looks a user up by identity.
    fn get_user(&self, id: u64) -> Result<User, TinyIdError>;
}

/// The use case of looking users up from the identifier service.
pub struct UserDemoUseCase<R: UserDemoRepo> {
    hrepo: Arc<R>,
}

impl<R: UserDemoRepo> UserDemoUseCase<R> {
    /// The repository the use case rests on.
    pub closed spec fn repo(self) -> Arc<R> {
        self.hrepo
    }

    pub fn new(hrepo: Arc<R>) -> (uc: Self)
        ensures
            uc.repo() == hrepo,
    {
        UserDemoUseCase { hrepo }
    }

    /// Looks a user up with the repository: the result is what the
    /// repository answers for the identity.
    pub fn get_user(&self, id: u64) -> (r: Result<User, TinyIdError>)
        ensures
            call_ensures(R::get_user, (&*self.repo(), id), r),
    {
        self.hrepo.get_user(id)
    }
}

/// A source of users for the user service.
pub trait UserRepo {
    /// Looks a user up by identity.
    fn get_user(&self, id: u64) -> Result<User, UserError>;
}

/// The use case of the user service.
pub struct UserUseCase<R: UserRepo> {
    user_repo: Arc<R>,
}

impl<R: UserRepo> UserUseCase<R> {
    /// The repository the use case rests on.
    pub closed spec fn repo(self) -> Arc<R> {
        self.user_repo
    }

    pub fn new(user_repo: Arc<R>) -> (uc: Self)
        ensures
            uc.repo() == user_repo,
    {
        UserUseCase { user_repo }
    }

    /// Looks a user up with the repository. The identity 0 stands for no
    /// user and is refused as invalid data.
    pub fn get_user(&self, id: u64) -> (r: Result<User, UserError>)
        ensures
            id == 0 ==> (r matches Err(UserError::InvalidData(text)) && text@
                == "user id cannot be 0"@),
    {
        if id == 0 {
            return Err(UserError::InvalidData(String::from_str("user id cannot be 0")));
        }
        self.user_repo.get_user(id)
    }
}

} // verus!
