//! Plain data records exchanged with the HTTP layer and the credential store.
use vstd::prelude::*;

verus! {

/// One account as the credential store holds it.
///
/// `created_at` and `updated_at` are RFC 3339 text; the library passes them
/// through without reading them.
pub struct UserData {
    pub id: i32,
    pub username: String,
    pub password: String,
    pub full_name: String,
    pub address: String,
    pub phone_number: String,
    pub photo: String,
    pub role: String,
    pub created_at: String,
    pub updated_at: String,
}

/// What a session token carries: an identity snapshot and an absolute
/// expiry in seconds since the epoch.
pub struct JwtClaims {
    pub user_data: UserData,
    pub exp: usize,
}

/// Body of a login request.
pub struct LoginBody {
    pub username: String,
    pub password: String,
}

/// Body of a password-change request.
pub struct ChangePasswordBody {
    pub username: String,
    pub old_password: String,
    pub new_password: String,
}

/// One category row.
pub struct CategoryData {
    pub id: i32,
    pub name: String,
    pub created_at: String,
    pub updated_at: String,
}

/// A page of categories with its pagination summary.
pub struct CategoryPaginate {
    pub data: Vec<CategoryData>,
    pub paginate: PaginationResponse,
}

/// Body of a category creation request.
pub struct CategoryCreateBody {
    pub name: String,
}

/// Body of a category update request.
pub struct CategoryUpdateBody {
    pub name: Option<String>,
}

/// The identifier of a freshly inserted row.
pub struct ReturningId {
    pub id: i32,
}

/// A page of users with its pagination summary.
pub struct UserPaginate {
    pub data: Vec<UserData>,
    pub paginate: PaginationResponse,
}

/// Body of a user creation request.
pub struct UserCreateDto {
    pub username: String,
    pub password: String,
    pub full_name: String,
    pub address: String,
    pub phone_number: String,
    pub photo: String,
    pub role: String,
}

/// Body of a user update request; absent fields are sent as `None`.
pub struct UserUpdateDto {
    pub username: Option<String>,
    pub password: Option<String>,
    pub full_name: Option<String>,
    pub address: Option<String>,
    pub phone_number: Option<String>,
    pub photo: Option<String>,
    pub role: Option<String>,
}

/// Body of a search request: a search term and a one-based page number.
pub struct PaginationBody {
    pub term: String,
    pub page: i64,
}

/// Pagination summary returned with a page of results.
pub struct PaginationResponse {
    pub per_page: i32,
    pub total_page: i32,
    pub count: i64,
    pub current_page: i32,
}

} // verus!
