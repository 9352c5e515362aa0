//! How the HTTP API answers a failed operation: the status, the error code
//! and the messages of the error body, for each endpoint family.
use vstd::prelude::*;
use vstd::string::*;

use crate::features::announcement::{
    AnnouncementErrorCode, CreateAnnouncementError, GetAnnouncementDetailError,
    GetAnnouncementMediaPresignedURLError,
};
use crate::features::auth::{AuthError, AuthErrorCode, ChangePasswordError};
use crate::features::building::{BuildingError, BuildingErrorCode};
use crate::features::device::{
    CreateDeviceError, DeleteDeviceError, DeviceErrorCode, GetDeviceDetailByIdError, LinkDeviceError,
    UpdateDeviceError,
};
use crate::features::request::{CreateRequestError, RequestErrorCode, UpdateRequestApprovalError};

verus! {

/// The code of a request the API refuses before doing anything.
pub const API_VALIDATION_ERROR_CODE: &'static str = "API_VALIDATION_ERROR";

/// An error answer: the HTTP status, the error code and the messages.
#[derive(Debug)]
pub struct ApiFailure {
    pub status: u16,
    pub code: String,
    pub messages: Vec<String>,
}

/// Whether `f` answers with `status`, `code` and the single `message`.
pub open spec fn answers(f: ApiFailure, status: u16, code: Seq<char>, message: Seq<char>) -> bool {
    &&& f.status == status
    &&& f.code@ == code
    &&& f.messages@.len() == 1
    &&& f.messages@[0]@ == message
}

fn failure(status: u16, code: String, message: String) -> (r: ApiFailure)
    ensures
        answers(r, status, code@, message@),
{
    let mut messages: Vec<String> = Vec::new();
    messages.push(message);
    ApiFailure { status, code, messages }
}

/// A refused request: status 400, the validation code and the message.
pub fn validation_failure(message: String) -> (r: ApiFailure)
    ensures
        answers(r, 400, "API_VALIDATION_ERROR"@, message@),
{
    failure(400, String::from_str(API_VALIDATION_ERROR_CODE), message)
}

/// The endpoints of the auth API.
#[derive(Debug, Clone, Copy, PartialEq, Eq, Structural)]
pub enum AuthEndpoint {
    Register,
    SendEmailConfirmation,
    VerifyEmailConfirmationToken,
    ConfirmEmail,
    Login,
    RefreshToken,
    Me,
    Logout,
}

/// The status and code an auth endpoint answers an error with, when it
/// names it; every other error is internal.
pub open spec fn auth_answer(endpoint: AuthEndpoint, e: AuthError) -> Option<(u16, AuthErrorCode)> {
    match (endpoint, e) {
        (AuthEndpoint::Register, AuthError::EmailAlreadyExists(_)) => Some((409, AuthErrorCode::EmailAlreadyExists)),
        (AuthEndpoint::Register, AuthError::RoleNotFound(_)) => Some((404, AuthErrorCode::RoleNotFound)),
        (AuthEndpoint::SendEmailConfirmation, AuthError::UserNotFound(_)) => Some((404, AuthErrorCode::UserNotFound)),
        (AuthEndpoint::SendEmailConfirmation, AuthError::EmailAlreadyConfirmed(_)) => Some(
            (409, AuthErrorCode::EmailAlreadyConfirmed),
        ),
        (AuthEndpoint::VerifyEmailConfirmationToken, AuthError::TokenInvalid(_)) => Some((401, AuthErrorCode::TokenInvalid)),
        (AuthEndpoint::VerifyEmailConfirmationToken, AuthError::TokenExpired(_)) => Some((410, AuthErrorCode::TokenExpired)),
        (AuthEndpoint::ConfirmEmail, AuthError::TokenInvalid(_)) => Some((401, AuthErrorCode::TokenInvalid)),
        (AuthEndpoint::ConfirmEmail, AuthError::TokenExpired(_)) => Some((410, AuthErrorCode::TokenExpired)),
        (AuthEndpoint::ConfirmEmail, AuthError::UserNotFound(_)) => Some((404, AuthErrorCode::UserNotFound)),
        (AuthEndpoint::Login, AuthError::AuthenticationFailed(_)) => Some((401, AuthErrorCode::AuthenticationFailed)),
        (AuthEndpoint::Login, AuthError::UserNotVerified(_)) => Some((409, AuthErrorCode::UserNotVerified)),
        (AuthEndpoint::RefreshToken, AuthError::TokenInvalid(_)) => Some((401, AuthErrorCode::TokenInvalid)),
        (AuthEndpoint::RefreshToken, AuthError::TokenExpired(_)) => Some((410, AuthErrorCode::TokenExpired)),
        (AuthEndpoint::RefreshToken, AuthError::UserNotFound(_)) => Some((404, AuthErrorCode::UserNotFound)),
        (AuthEndpoint::Me, AuthError::UserNotFound(_)) => Some((404, AuthErrorCode::UserNotFound)),
        (AuthEndpoint::Logout, AuthError::UserNotFound(_)) => Some((404, AuthErrorCode::UserNotFound)),
        _ => None,
    }
}

/// How an auth endpoint answers an error: the errors it names with their
/// status, code and message; any other with status 500, the internal code
/// and the internal message.
pub fn auth_failure(endpoint: AuthEndpoint, e: AuthError) -> (r: ApiFailure)
    ensures
        match auth_answer(endpoint, e) {
            Some((status, code)) => answers(r, status, code.text(), e.message()),
            None => answers(r, 500, "INTERNAL_SERVER_ERROR"@, "Internal Server Error"@),
        },
{
    let named: Option<(u16, AuthErrorCode)> = match (endpoint, &e) {
        (AuthEndpoint::Register, AuthError::EmailAlreadyExists(_)) => Some((409, AuthErrorCode::EmailAlreadyExists)),
        (AuthEndpoint::Register, AuthError::RoleNotFound(_)) => Some((404, AuthErrorCode::RoleNotFound)),
        (AuthEndpoint::SendEmailConfirmation, AuthError::UserNotFound(_)) => Some((404, AuthErrorCode::UserNotFound)),
        (AuthEndpoint::SendEmailConfirmation, AuthError::EmailAlreadyConfirmed(_)) => Some(
            (409, AuthErrorCode::EmailAlreadyConfirmed),
        ),
        (AuthEndpoint::VerifyEmailConfirmationToken, AuthError::TokenInvalid(_)) => Some((401, AuthErrorCode::TokenInvalid)),
        (AuthEndpoint::VerifyEmailConfirmationToken, AuthError::TokenExpired(_)) => Some((410, AuthErrorCode::TokenExpired)),
        (AuthEndpoint::ConfirmEmail, AuthError::TokenInvalid(_)) => Some((401, AuthErrorCode::TokenInvalid)),
        (AuthEndpoint::ConfirmEmail, AuthError::TokenExpired(_)) => Some((410, AuthErrorCode::TokenExpired)),
        (AuthEndpoint::ConfirmEmail, AuthError::UserNotFound(_)) => Some((404, AuthErrorCode::UserNotFound)),
        (AuthEndpoint::Login, AuthError::AuthenticationFailed(_)) => Some((401, AuthErrorCode::AuthenticationFailed)),
        (AuthEndpoint::Login, AuthError::UserNotVerified(_)) => Some((409, AuthErrorCode::UserNotVerified)),
        (AuthEndpoint::RefreshToken, AuthError::TokenInvalid(_)) => Some((401, AuthErrorCode::TokenInvalid)),
        (AuthEndpoint::RefreshToken, AuthError::TokenExpired(_)) => Some((410, AuthErrorCode::TokenExpired)),
        (AuthEndpoint::RefreshToken, AuthError::UserNotFound(_)) => Some((404, AuthErrorCode::UserNotFound)),
        (AuthEndpoint::Me, AuthError::UserNotFound(_)) => Some((404, AuthErrorCode::UserNotFound)),
        (AuthEndpoint::Logout, AuthError::UserNotFound(_)) => Some((404, AuthErrorCode::UserNotFound)),
        _ => None,
    };
    match named {
        Some((status, code)) => failure(status, code.to_string(), e.to_string()),
        None => failure(
            500,
            AuthErrorCode::InternalServerError.to_string(),
            String::from_str("Internal Server Error"),
        ),
    }
}

/// How a refresh without its token cookie is answered.
pub fn missing_refresh_token_failure() -> (r: ApiFailure)
    ensures
        answers(r, 401, "AUTHENTICATION_FAILED"@, "Token not provided"@),
{
    failure(401, AuthErrorCode::AuthenticationFailed.to_string(), String::from_str("Token not provided"))
}

/// How a failed password change is answered: a wrong old password and a
/// missing user with status 404, anything else with status 500.
pub fn change_password_failure(e: ChangePasswordError) -> (r: ApiFailure)
    ensures
        e is UserInvalidOldPassword ==> answers(r, 404, "USER_INVALID_OLD_PASSWORD"@, e.message()),
        e is UserNotFound ==> answers(r, 404, "USER_NOT_FOUND"@, e.message()),
        e is InternalServerError ==> answers(r, 500, "INTERNAL_SERVER_ERROR"@, "Internal Server Error"@),
{
    match e {
        ChangePasswordError::UserInvalidOldPassword(_) => failure(
            404,
            AuthErrorCode::UserInvalidOldPassword.to_string(),
            e.to_string(),
        ),
        ChangePasswordError::UserNotFound(_) => failure(404, AuthErrorCode::UserNotFound.to_string(), e.to_string()),
        ChangePasswordError::InternalServerError => failure(
            500,
            AuthErrorCode::InternalServerError.to_string(),
            e.to_string(),
        ),
    }
}

/// How a failed device creation is answered (an internal failure with
/// status 404 and the internal code as its message, as the API does).
pub fn create_device_failure(e: CreateDeviceError) -> (r: ApiFailure)
    ensures
        e is DeviceAlreadyExists ==> answers(r, 409, "DEVICE_ALREADY_EXISTS"@, e.message()),
        e is FloorNotFound ==> answers(r, 404, "BUILDING_NOT_FOUND"@, e.message()),
        e is InternalServerError ==> answers(r, 404, "INTERNAL_SERVER_ERROR"@, "INTERNAL_SERVER_ERROR"@),
{
    match e {
        CreateDeviceError::DeviceAlreadyExists(m) => failure(409, DeviceErrorCode::DeviceAlreadyExists.to_string(), m),
        CreateDeviceError::FloorNotFound(m) => failure(404, DeviceErrorCode::FloorNotFound.to_string(), m),
        CreateDeviceError::InternalServerError => failure(
            404,
            DeviceErrorCode::InternalServerError.to_string(),
            DeviceErrorCode::InternalServerError.to_string(),
        ),
    }
}

/// How a failed device update is answered.
pub fn update_device_failure(e: UpdateDeviceError) -> (r: ApiFailure)
    ensures
        e is DeviceNotFound ==> answers(r, 404, "DEVICE_NOT_FOUND"@, e.message()),
        e is DeviceAlreadyExists ==> answers(r, 409, "DEVICE_ALREADY_EXISTS"@, e.message()),
        e is FloorNotFound ==> answers(r, 404, "BUILDING_NOT_FOUND"@, e.message()),
        e is InternalServerError ==> answers(r, 404, "INTERNAL_SERVER_ERROR"@, "INTERNAL_SERVER_ERROR"@),
{
    match e {
        UpdateDeviceError::DeviceNotFound(m) => failure(404, DeviceErrorCode::DeviceNotFound.to_string(), m),
        UpdateDeviceError::DeviceAlreadyExists(m) => failure(409, DeviceErrorCode::DeviceAlreadyExists.to_string(), m),
        UpdateDeviceError::FloorNotFound(m) => failure(404, DeviceErrorCode::FloorNotFound.to_string(), m),
        UpdateDeviceError::InternalServerError => failure(
            404,
            DeviceErrorCode::InternalServerError.to_string(),
            DeviceErrorCode::InternalServerError.to_string(),
        ),
    }
}

/// How a failed device delete is answered.
pub fn delete_device_failure(e: DeleteDeviceError) -> (r: ApiFailure)
    ensures
        e is DeviceNotFound ==> answers(r, 404, "DEVICE_NOT_FOUND"@, e.message()),
        e is DeviceCascadeConstraint ==> answers(r, 409, "DEVICE_CASCADE_CONSTRAINT"@, e.message()),
        e is InternalServerError ==> answers(r, 404, "INTERNAL_SERVER_ERROR"@, "INTERNAL_SERVER_ERROR"@),
{
    match e {
        DeleteDeviceError::DeviceNotFound(m) => failure(404, DeviceErrorCode::DeviceNotFound.to_string(), m),
        DeleteDeviceError::DeviceCascadeConstraint(m) => failure(
            409,
            DeviceErrorCode::DeviceCascadeConstraint.to_string(),
            m,
        ),
        DeleteDeviceError::InternalServerError => failure(
            404,
            DeviceErrorCode::InternalServerError.to_string(),
            DeviceErrorCode::InternalServerError.to_string(),
        ),
    }
}

/// How a failed device read is answered: to a user (`for_device` false)
/// an internal failure carries the internal code as message; to the device
/// itself, the internal message.
pub fn device_detail_failure(e: GetDeviceDetailByIdError, for_device: bool) -> (r: ApiFailure)
    ensures
        e is DeviceNotFound ==> answers(r, 404, "DEVICE_NOT_FOUND"@, e.message()),
        e is InternalServerError ==> answers(
            r,
            500,
            "INTERNAL_SERVER_ERROR"@,
            if for_device { "Internal Server Error"@ } else { "INTERNAL_SERVER_ERROR"@ },
        ),
{
    match e {
        GetDeviceDetailByIdError::DeviceNotFound(m) => failure(404, DeviceErrorCode::DeviceNotFound.to_string(), m),
        GetDeviceDetailByIdError::InternalServerError => {
            let message = if for_device {
                String::from_str("Internal Server Error")
            } else {
                DeviceErrorCode::InternalServerError.to_string()
            };
            failure(500, DeviceErrorCode::InternalServerError.to_string(), message)
        },
    }
}

/// How a failed device link is answered.
pub fn link_device_failure(e: LinkDeviceError) -> (r: ApiFailure)
    ensures
        e is AuthenticationFailed ==> answers(r, 401, "AUTHENTICATION_FAILED"@, e.message()),
        e is DeviceNotFound ==> answers(r, 404, "DEVICE_NOT_FOUND"@, e.message()),
        e is InternalServerError ==> answers(r, 500, "INTERNAL_SERVER_ERROR"@, "Internal Server Error"@),
{
    match e {
        LinkDeviceError::AuthenticationFailed(_) => failure(
            401,
            DeviceErrorCode::AuthenticationFailed.to_string(),
            e.to_string(),
        ),
        LinkDeviceError::DeviceNotFound(_) => failure(404, DeviceErrorCode::DeviceNotFound.to_string(), e.to_string()),
        LinkDeviceError::InternalServerError => failure(
            500,
            DeviceErrorCode::InternalServerError.to_string(),
            e.to_string(),
        ),
    }
}

/// How a failed device list is answered: the internal message stands as
/// both code and message.
pub fn list_device_failure() -> (r: ApiFailure)
    ensures
        answers(r, 500, "Internal Server Error"@, "Internal Server Error"@),
{
    failure(500, String::from_str("Internal Server Error"), String::from_str("Internal Server Error"))
}

/// The status and code a failed approval is answered with.
pub open spec fn approval_answer(e: UpdateRequestApprovalError) -> (u16, RequestErrorCode) {
    match e {
        UpdateRequestApprovalError::RequestNotFound(_) => (404, RequestErrorCode::RequestNotFound),
        UpdateRequestApprovalError::UserNotFound(_) => (404, RequestErrorCode::UserNotFound),
        UpdateRequestApprovalError::AnnouncementNotFound(_) => (404, RequestErrorCode::AnnouncementNotFound),
        UpdateRequestApprovalError::UserForbiddenToApprove(_) => (409, RequestErrorCode::UserForbiddenToApprove),
        UpdateRequestApprovalError::RequestAlreadyApproved(_) => (409, RequestErrorCode::RequestAlreadyApproved),
        UpdateRequestApprovalError::InvalidAnnouncementStatus(_) => (409, RequestErrorCode::InvalidAnnouncementStatus),
        UpdateRequestApprovalError::InternalServerError => (500, RequestErrorCode::InternalServerError),
    }
}

/// The message a failed approval carries.
pub open spec fn approval_message(e: UpdateRequestApprovalError) -> Seq<char> {
    match e {
        UpdateRequestApprovalError::RequestNotFound(m) => m@,
        UpdateRequestApprovalError::UserNotFound(m) => m@,
        UpdateRequestApprovalError::AnnouncementNotFound(m) => m@,
        UpdateRequestApprovalError::UserForbiddenToApprove(m) => m@,
        UpdateRequestApprovalError::RequestAlreadyApproved(m) => m@,
        UpdateRequestApprovalError::InvalidAnnouncementStatus(m) => m@,
        UpdateRequestApprovalError::InternalServerError => "Internal Server Error"@,
    }
}

/// How a failed approval decision is answered.
pub fn approval_failure(e: UpdateRequestApprovalError) -> (r: ApiFailure)
    ensures
        answers(r, approval_answer(e).0, approval_answer(e).1.text(), approval_message(e)),
{
    let (status, code): (u16, RequestErrorCode) = match &e {
        UpdateRequestApprovalError::RequestNotFound(_) => (404, RequestErrorCode::RequestNotFound),
        UpdateRequestApprovalError::UserNotFound(_) => (404, RequestErrorCode::UserNotFound),
        UpdateRequestApprovalError::AnnouncementNotFound(_) => (404, RequestErrorCode::AnnouncementNotFound),
        UpdateRequestApprovalError::UserForbiddenToApprove(_) => (409, RequestErrorCode::UserForbiddenToApprove),
        UpdateRequestApprovalError::RequestAlreadyApproved(_) => (409, RequestErrorCode::RequestAlreadyApproved),
        UpdateRequestApprovalError::InvalidAnnouncementStatus(_) => (409, RequestErrorCode::InvalidAnnouncementStatus),
        UpdateRequestApprovalError::InternalServerError => (500, RequestErrorCode::InternalServerError),
    };
    failure(status, code.to_string(), e.to_string())
}

/// The status and code a failed request creation is answered with.
pub open spec fn create_request_answer(e: CreateRequestError) -> (u16, RequestErrorCode) {
    match e {
        CreateRequestError::InvalidExtendedEndDate(_) => (400, RequestErrorCode::InvalidExtendedEndDate),
        CreateRequestError::InvalidDeviceIds(_) => (400, RequestErrorCode::InvalidDeviceIds),
        CreateRequestError::EntityNotFound(_) => (404, RequestErrorCode::EntityNotFound),
        CreateRequestError::AnnouncementNotFound(_) => (404, RequestErrorCode::AnnouncementNotFound),
        CreateRequestError::InvalidAnnouncementStatus(_) => (409, RequestErrorCode::InvalidAnnouncementStatus),
        CreateRequestError::InternalServerError => (500, RequestErrorCode::InternalServerError),
    }
}

/// The message a failed request creation carries.
pub open spec fn create_request_message(e: CreateRequestError) -> Seq<char> {
    match e {
        CreateRequestError::EntityNotFound(m) => m@,
        CreateRequestError::AnnouncementNotFound(m) => m@,
        CreateRequestError::InvalidExtendedEndDate(m) => m@,
        CreateRequestError::InvalidAnnouncementStatus(m) => m@,
        CreateRequestError::InvalidDeviceIds(m) => m@,
        CreateRequestError::InternalServerError => "Internal Server Error"@,
    }
}

/// How a failed request creation is answered.
pub fn create_request_failure(e: CreateRequestError) -> (r: ApiFailure)
    ensures
        answers(r, create_request_answer(e).0, create_request_answer(e).1.text(), create_request_message(e)),
{
    let (status, code): (u16, RequestErrorCode) = match &e {
        CreateRequestError::InvalidExtendedEndDate(_) => (400, RequestErrorCode::InvalidExtendedEndDate),
        CreateRequestError::InvalidDeviceIds(_) => (400, RequestErrorCode::InvalidDeviceIds),
        CreateRequestError::EntityNotFound(_) => (404, RequestErrorCode::EntityNotFound),
        CreateRequestError::AnnouncementNotFound(_) => (404, RequestErrorCode::AnnouncementNotFound),
        CreateRequestError::InvalidAnnouncementStatus(_) => (409, RequestErrorCode::InvalidAnnouncementStatus),
        CreateRequestError::InternalServerError => (500, RequestErrorCode::InternalServerError),
    };
    failure(status, code.to_string(), e.to_string())
}

/// How a failed announcement creation is answered.
pub fn create_announcement_failure(e: CreateAnnouncementError) -> (r: ApiFailure)
    ensures
        e matches CreateAnnouncementError::UserNotFound(m) ==> answers(r, 404, "USER_NOT_FOUND"@, m@),
        e is InternalServerError ==> answers(r, 500, "INTERNAL_SERVER_ERROR"@, "Internal Server Error"@),
{
    match e {
        CreateAnnouncementError::UserNotFound(m) => failure(404, AnnouncementErrorCode::UserNotFound.to_string(), m),
        CreateAnnouncementError::InternalServerError => failure(
            500,
            AnnouncementErrorCode::InternalServerError.to_string(),
            String::from_str("Internal Server Error"),
        ),
    }
}

/// How a failed announcement read is answered.
pub fn announcement_detail_failure(e: GetAnnouncementDetailError) -> (r: ApiFailure)
    ensures
        e matches GetAnnouncementDetailError::AnnouncementNotFound(m) ==> answers(r, 404, "ANNOUNCEMENT_NOT_FOUND"@, m@),
        e is InternalServerError ==> answers(r, 500, "INTERNAL_SERVER_ERROR"@, "Internal Server Error"@),
{
    match e {
        GetAnnouncementDetailError::AnnouncementNotFound(m) => failure(
            404,
            AnnouncementErrorCode::AnnouncementNotFound.to_string(),
            m,
        ),
        GetAnnouncementDetailError::InternalServerError => failure(
            500,
            AnnouncementErrorCode::InternalServerError.to_string(),
            String::from_str("Internal Server Error"),
        ),
    }
}

/// How a failed signing of an announcement's media address is answered.
pub fn media_url_failure(e: GetAnnouncementMediaPresignedURLError) -> (r: ApiFailure)
    ensures
        e matches GetAnnouncementMediaPresignedURLError::AnnouncementNotFound(m) ==> answers(
            r,
            404,
            "ANNOUNCEMENT_NOT_FOUND"@,
            m@,
        ),
        e is InternalServerError ==> answers(r, 500, "INTERNAL_SERVER_ERROR"@, "Internal Server Error"@),
{
    match e {
        GetAnnouncementMediaPresignedURLError::AnnouncementNotFound(m) => failure(
            404,
            AnnouncementErrorCode::AnnouncementNotFound.to_string(),
            m,
        ),
        GetAnnouncementMediaPresignedURLError::InternalServerError => failure(
            500,
            AnnouncementErrorCode::InternalServerError.to_string(),
            String::from_str("Internal Server Error"),
        ),
    }
}

/// The building endpoints that report errors.
#[derive(Debug, Clone, Copy, PartialEq, Eq, Structural)]
pub enum BuildingEndpoint {
    List,
    Create,
    Update,
    Delete,
}

/// How a building endpoint answers an error: a taken name (creation and
/// update) with 409, a missing building (update and delete) with 404, any
/// other with 500.
pub fn building_failure(endpoint: BuildingEndpoint, e: BuildingError) -> (r: ApiFailure)
    ensures
        (endpoint == BuildingEndpoint::Create || endpoint == BuildingEndpoint::Update) && e is BuildingNameAlreadyExists
            ==> answers(r, 409, "BUILDING_NAME_ALREADY_EXISTS"@, e.message()),
        (endpoint == BuildingEndpoint::Update || endpoint == BuildingEndpoint::Delete) && e is BuildingNotFound
            ==> answers(r, 404, "BUILDING_NOT_FOUND"@, e.message()),
        !((endpoint == BuildingEndpoint::Create || endpoint == BuildingEndpoint::Update) && e is BuildingNameAlreadyExists)
            && !((endpoint == BuildingEndpoint::Update || endpoint == BuildingEndpoint::Delete) && e is BuildingNotFound)
            ==> answers(r, 500, "INTERNAL_SERVER_ERROR"@, "Internal Server Error"@),
{
    let taken = match e {
        BuildingError::BuildingNameAlreadyExists(_) => true,
        _ => false,
    };
    let missing = match e {
        BuildingError::BuildingNotFound(_) => true,
        _ => false,
    };
    let names_taken = endpoint == BuildingEndpoint::Create || endpoint == BuildingEndpoint::Update;
    let names_missing = endpoint == BuildingEndpoint::Update || endpoint == BuildingEndpoint::Delete;
    if names_taken && taken {
        failure(409, BuildingErrorCode::BuildingNameAlreadyExists.to_string(), e.to_string())
    } else if names_missing && missing {
        failure(404, BuildingErrorCode::BuildingNotFound.to_string(), e.to_string())
    } else {
        failure(500, BuildingErrorCode::InternalServerError.to_string(), String::from_str("Internal Server Error"))
    }
}

} // verus!
