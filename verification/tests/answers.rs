use enchiridion::features::announcement::{
    CreateAnnouncementError, GetAnnouncementDetailError, GetAnnouncementMediaPresignedURLError,
};
use enchiridion::features::auth::{AuthError, ChangePasswordError};
use enchiridion::features::building::BuildingError;
use enchiridion::features::device::{
    CreateDeviceError, DeleteDeviceError, GetDeviceDetailByIdError, LinkDeviceError, UpdateDeviceError,
};
use enchiridion::features::request::{CreateRequestError, UpdateRequestApprovalError};
use enchiridion::http::{
    announcement_detail_failure, approval_failure, auth_failure, building_failure,
    change_password_failure, create_announcement_failure, create_device_failure,
    create_request_failure, delete_device_failure, device_detail_failure, link_device_failure,
    list_device_failure, media_url_failure, missing_refresh_token_failure, update_device_failure,
    validation_failure, ApiFailure, AuthEndpoint, BuildingEndpoint,
};
use enchiridion::media::{
    finish_media_form, form_field, is_null_part, stage_upload_now, staged_upload, MediaFormField, MediaType,
};

fn shape(f: &ApiFailure) -> (u16, &str, Vec<&str>) {
    (f.status, f.code.as_str(), f.messages.iter().map(|m| m.as_str()).collect())
}

#[test]
fn auth_endpoints_answer_the_errors_they_name() {
    let f = auth_failure(AuthEndpoint::Login, AuthError::AuthenticationFailed("bad".to_string()));
    assert_eq!(shape(&f), (401, "AUTHENTICATION_FAILED", vec!["bad"]));
    let f = auth_failure(AuthEndpoint::Login, AuthError::UserNotVerified("wait".to_string()));
    assert_eq!(shape(&f), (409, "USER_NOT_VERIFIED", vec!["wait"]));
    let f = auth_failure(AuthEndpoint::ConfirmEmail, AuthError::TokenExpired("late".to_string()));
    assert_eq!(shape(&f), (410, "TOKEN_EXPIRED", vec!["late"]));
    let f = auth_failure(AuthEndpoint::Register, AuthError::EmailAlreadyExists("taken".to_string()));
    assert_eq!(shape(&f), (409, "EMAIL_ALREADY_EXISTS", vec!["taken"]));
    let f = auth_failure(AuthEndpoint::Me, AuthError::TokenInvalid("x".to_string()));
    assert_eq!(shape(&f), (500, "INTERNAL_SERVER_ERROR", vec!["Internal Server Error"]));
    let f = auth_failure(AuthEndpoint::Register, AuthError::UserNotFound("x".to_string()));
    assert_eq!(f.status, 500);
    let f = missing_refresh_token_failure();
    assert_eq!(shape(&f), (401, "AUTHENTICATION_FAILED", vec!["Token not provided"]));
    let f = change_password_failure(ChangePasswordError::UserInvalidOldPassword("old"));
    assert_eq!(shape(&f), (404, "USER_INVALID_OLD_PASSWORD", vec!["old"]));
    let f = validation_failure("action should be approve or reject".to_string());
    assert_eq!(shape(&f), (400, "API_VALIDATION_ERROR", vec!["action should be approve or reject"]));
}

#[test]
fn device_endpoints_answer_internal_failures_as_the_api_does() {
    let f = create_device_failure(CreateDeviceError::InternalServerError);
    assert_eq!(shape(&f), (404, "INTERNAL_SERVER_ERROR", vec!["INTERNAL_SERVER_ERROR"]));
    let f = create_device_failure(CreateDeviceError::FloorNotFound("Floor not found".to_string()));
    assert_eq!(shape(&f), (404, "BUILDING_NOT_FOUND", vec!["Floor not found"]));
    let f = update_device_failure(UpdateDeviceError::DeviceAlreadyExists("dup".to_string()));
    assert_eq!(shape(&f), (409, "DEVICE_ALREADY_EXISTS", vec!["dup"]));
    let f = delete_device_failure(DeleteDeviceError::DeviceCascadeConstraint("busy".to_string()));
    assert_eq!(shape(&f), (409, "DEVICE_CASCADE_CONSTRAINT", vec!["busy"]));
    let f = device_detail_failure(GetDeviceDetailByIdError::InternalServerError, true);
    assert_eq!(shape(&f), (500, "INTERNAL_SERVER_ERROR", vec!["Internal Server Error"]));
    let f = device_detail_failure(GetDeviceDetailByIdError::InternalServerError, false);
    assert_eq!(shape(&f), (500, "INTERNAL_SERVER_ERROR", vec!["INTERNAL_SERVER_ERROR"]));
    let f = link_device_failure(LinkDeviceError::AuthenticationFailed("no"));
    assert_eq!(shape(&f), (401, "AUTHENTICATION_FAILED", vec!["no"]));
    let f = list_device_failure();
    assert_eq!(shape(&f), (500, "Internal Server Error", vec!["Internal Server Error"]));
}

#[test]
fn request_and_announcement_endpoints() {
    let f = approval_failure(UpdateRequestApprovalError::RequestAlreadyApproved("done".to_string()));
    assert_eq!(shape(&f), (409, "REQUEST_ALREADY_APPROVED", vec!["done"]));
    let f = approval_failure(UpdateRequestApprovalError::InternalServerError);
    assert_eq!(shape(&f), (500, "INTERNAL_SERVER_ERROR", vec!["Internal Server Error"]));
    let f = create_request_failure(CreateRequestError::InvalidExtendedEndDate("early"));
    assert_eq!(shape(&f), (400, "INVALID_EXTENDED_END_DATE", vec!["early"]));
    let f = create_request_failure(CreateRequestError::EntityNotFound("gone".to_string()));
    assert_eq!(shape(&f), (404, "ENTITY_NOT_FOUND", vec!["gone"]));
    let f = create_announcement_failure(CreateAnnouncementError::UserNotFound("User not found".to_string()));
    assert_eq!(shape(&f), (404, "USER_NOT_FOUND", vec!["User not found"]));
    let f = announcement_detail_failure(GetAnnouncementDetailError::InternalServerError);
    assert_eq!(shape(&f), (500, "INTERNAL_SERVER_ERROR", vec!["Internal Server Error"]));
    let f = media_url_failure(GetAnnouncementMediaPresignedURLError::AnnouncementNotFound("none".to_string()));
    assert_eq!(shape(&f), (404, "ANNOUNCEMENT_NOT_FOUND", vec!["none"]));
}

#[test]
fn building_endpoints() {
    let f = building_failure(BuildingEndpoint::Create, BuildingError::BuildingNameAlreadyExists("dup".to_string()));
    assert_eq!(shape(&f), (409, "BUILDING_NAME_ALREADY_EXISTS", vec!["dup"]));
    let f = building_failure(BuildingEndpoint::Delete, BuildingError::BuildingNotFound("gone".to_string()));
    assert_eq!(shape(&f), (404, "BUILDING_NOT_FOUND", vec!["gone"]));
    let f = building_failure(BuildingEndpoint::Create, BuildingError::BuildingNotFound("gone".to_string()));
    assert_eq!(shape(&f), (500, "INTERNAL_SERVER_ERROR", vec!["Internal Server Error"]));
    let f = building_failure(BuildingEndpoint::List, BuildingError::InternalServerError);
    assert_eq!(f.status, 500);
}

#[test]
fn upload_form_parts() {
    assert_eq!(form_field("media"), MediaFormField::Media);
    assert_eq!(form_field("mediaType"), MediaFormField::MediaType);
    assert_eq!(form_field("mediaDuration"), MediaFormField::MediaDuration);
    assert_eq!(form_field("crop"), MediaFormField::Crop);
    assert_eq!(form_field("title"), MediaFormField::Other);
    assert!(is_null_part("null"));
    assert!(!is_null_part("{}"));
    let f = staged_upload(1700000000, "mp4".to_string());
    assert_eq!(f.path, "./tmp/1700000000.mp4");
    assert_eq!(f.key(), "announcement/1700000000.mp4");
    assert_eq!(finish_media_form(None, Some(MediaType::Image)).unwrap_err(), "media is required");
    assert_eq!(finish_media_form(Some(f.clone()), None).unwrap_err(), "media type is required");
    let (file, kind) = finish_media_form(Some(f), Some(MediaType::Video)).unwrap();
    assert_eq!(file.filename, "1700000000");
    assert_eq!(kind, MediaType::Video);
    let now = stage_upload_now("png".to_string());
    assert!(now.filename.chars().all(|c| c.is_ascii_digit()));
    assert_eq!(now.path, format!("./tmp/{}.png", now.filename));
}
