use enchiridion::cloud_storage::{CloudStorageError, LocalAdapter, TmpFile, TmpFileError};
use enchiridion::database::StoreError;
use enchiridion::features::building::{
    create_body_errors, delete_building_error, list_buildings_response, save_building_error,
    update_body_errors, Building, BuildingError, BuildingErrorCode, CreateBody, UpdateBody,
};
use enchiridion::features::floor::{
    devices_on_floor, floor_ids, floor_page, FloorErrorCode, RawDeviceRow, RawFloorRow,
};
use enchiridion::media::{crop_filter, CreateMediaError, CropArgs, MediaErrorCode, MediaType};

fn floor_row(count: i32, id: i32) -> RawFloorRow {
    RawFloorRow {
        count,
        floor_id: id,
        floor_name: format!("Floor {}", id),
        building_id: 1,
        building_name: "Tower".to_string(),
        building_color: "#112233".to_string(),
    }
}

fn device_row(id: i32, floor: i32) -> RawDeviceRow {
    RawDeviceRow {
        device_id: id,
        device_name: format!("D{}", id),
        device_description: "screen".to_string(),
        device_floor_id: floor,
        device_active_announcements: id % 3,
    }
}

#[test]
fn staged_files_have_paths_names_and_keys() {
    let f = TmpFile::new("1700000000".to_string(), "png".to_string(), "announcement".to_string());
    assert_eq!(f.path, "./tmp/1700000000.png");
    assert_eq!(f.name(), "1700000000.png");
    assert_eq!(f.key(), "announcement/1700000000.png");
    let c = f.cropped();
    assert_eq!(c.filename, "1700000000_cropped");
    assert_eq!(c.path, "./tmp/1700000000_cropped.png");
    assert_eq!(c.key, "announcement");
    let args = CropArgs { width: 640, height: 480, x: 0, y: -3 };
    assert_eq!(f.crop_filter(&args), "crop=640:480:0:-3");
    assert_eq!(crop_filter(&args), "crop=640:480:0:-3");
}

#[test]
fn local_storage_urls_and_paths() {
    let local = LocalAdapter::new("http://localhost:8080/static".to_string());
    let url = local.get_object("announcement/a.png").ok().unwrap();
    assert_eq!(url, "http://localhost:8080/static/announcement/a.png");
    let f = TmpFile::new("a".to_string(), "png".to_string(), "announcement".to_string());
    assert_eq!(LocalAdapter::static_dir(&f), "./static/announcement");
    assert_eq!(LocalAdapter::static_path(&f), "./static/announcement/a.png");
}

#[test]
fn storage_errors_carry_their_message() {
    assert_eq!(TmpFileError::CropError("ffmpeg failed".to_string()).to_string(), "ffmpeg failed");
    assert_eq!(CloudStorageError::UploadError("disk full".to_string()).to_string(), "disk full");
}

#[test]
fn media_types_read_back_from_their_text() {
    assert_eq!(MediaType::Image.to_string(), "image");
    assert_eq!(MediaType::Video.to_string(), "video");
    assert_eq!(MediaType::from_str("video"), Ok(MediaType::Video));
    assert_eq!(MediaType::from_str(&MediaType::Image.to_string()), Ok(MediaType::Image));
    assert_eq!(MediaType::from_str("Image"), Err(()));
    assert_eq!(MediaErrorCode::InternalServerError.to_string(), "Internal Server Error");
    assert_eq!(CreateMediaError::Unknown.to_string(), "An unknown error has occurred");
    assert_eq!(
        CreateMediaError::Database(StoreError::Other).to_string(),
        "An error occurred with the request to the database"
    );
}

#[test]
fn floors_are_listed_with_their_devices() {
    let floors = vec![floor_row(7, 2), floor_row(7, 1)];
    let devices = vec![device_row(10, 1), device_row(11, 2), device_row(12, 1), device_row(13, 9)];
    assert_eq!(floor_ids(&floors), vec![2, 1]);
    let on_one = devices_on_floor(&devices, 1);
    assert_eq!(on_one.iter().map(|d| d.id).collect::<Vec<_>>(), vec![10, 12]);
    let page = floor_page(&floors, &devices, 1, 2);
    assert_eq!((page.count, page.total_pages, page.has_next), (7, 4, true));
    assert_eq!(page.contents[0].id, 2);
    assert_eq!(page.contents[0].name, "Floor 2");
    assert_eq!(page.contents[0].building.color, "#112233");
    assert_eq!(page.contents[0].devices.len(), 1);
    assert_eq!(page.contents[0].devices[0].id, 11);
    assert_eq!(page.contents[1].devices.len(), 2);
    assert_eq!(page.contents[1].devices[1].total_announcements, 0);
    assert_eq!(FloorErrorCode::BuildingNotFound.to_string(), "BUILDING_NOT_FOUND");
}

#[test]
fn building_bodies_are_checked() {
    let ok = CreateBody { name: "Tower".to_string(), color: "#aabbcc".to_string() };
    assert!(create_body_errors(&ok).is_empty());
    let bad = CreateBody { name: String::new(), color: "#abc".to_string() };
    assert_eq!(
        create_body_errors(&bad),
        vec!["name: Name must not be empty", "color: Color can only have at least 8 characters"]
    );
    let bad = UpdateBody { name: "T".to_string(), color: "#aabbccd".to_string() };
    assert_eq!(update_body_errors(&bad), vec!["color: Color can only have at least 7 characters"]);
}

#[test]
fn buildings_are_listed_in_order() {
    let r = list_buildings_response(vec![
        Building { id: 1, name: "A".to_string(), color: "#000000".to_string() },
        Building { id: 2, name: "B".to_string(), color: "#ffffff".to_string() },
    ]);
    assert_eq!(r.contents.len(), 2);
    assert_eq!(r.contents[1].id, 2);
    assert_eq!(r.contents[1].color, "#ffffff");
}

#[test]
fn building_errors_from_failed_queries() {
    match save_building_error(&StoreError::Database(Some("23505".to_string()))) {
        BuildingError::BuildingNameAlreadyExists(m) => {
            assert_eq!(m, "Building Name is already registered in our system")
        }
        other => panic!("unexpected {:?}", other),
    }
    match save_building_error(&StoreError::RowNotFound) {
        BuildingError::BuildingNotFound(m) => assert_eq!(m, "Building not found"),
        other => panic!("unexpected {:?}", other),
    }
    match delete_building_error(&StoreError::Database(Some("23503".to_string()))) {
        BuildingError::BuildingCascadeConstraint(m) => {
            assert_eq!(m, "Unable to delete building because it still have existing floors")
        }
        other => panic!("unexpected {:?}", other),
    }
    assert_eq!(BuildingError::InternalServerError.to_string(), "Internal Server Error");
    assert_eq!(BuildingErrorCode::BuildingNameAlreadyExists.to_string(), "BUILDING_NAME_ALREADY_EXISTS");
}
