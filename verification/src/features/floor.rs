//! Floors of a building: the floor list (each floor with its building and
//! the devices on it), built from the rows of two queries, and the errors of
//! the floor API.
use vstd::prelude::*;
use vstd::string::*;

use crate::database::{has_next_spec, paginate, total_pages_spec, PaginationResult};

verus! {

/// The building a floor belongs to.
#[derive(Debug, Clone)]
pub struct BuildingFloorContent {
    pub id: i32,
    pub name: String,
    pub color: String,
}

/// A device on a floor.
#[derive(Debug, Clone)]
pub struct DeviceFloorContent {
    pub id: i32,
    pub name: String,
    pub description: String,
    pub total_announcements: i32,
}

/// A floor with its building and its devices.
#[derive(Debug)]
pub struct Floor {
    pub id: i32,
    pub name: String,
    pub building: BuildingFloorContent,
    pub devices: Vec<DeviceFloorContent>,
}

/// Error codes of the floor API.
#[derive(Debug, Clone, Copy, PartialEq, Eq, Structural)]
pub enum FloorErrorCode {
    FloorNotFound,
    FloorAlreadyExists,
    DeviceCascadeConstraint,
    BuildingNotFound,
    InternalServerError,
}

impl FloorErrorCode {
    /// The code as the API writes it.
    pub open spec fn text(self) -> Seq<char> {
        match self {
            FloorErrorCode::FloorNotFound => "FLOOR_NOT_FOUND"@,
            FloorErrorCode::FloorAlreadyExists => "FLOOR_ALREADY_EXISTS"@,
            FloorErrorCode::DeviceCascadeConstraint => "DEVICE_CASCADE_CONSTRAINT"@,
            FloorErrorCode::BuildingNotFound => "BUILDING_NOT_FOUND"@,
            FloorErrorCode::InternalServerError => "INTERNAL_SERVER_ERROR"@,
        }
    }

    /// The code as the API writes it.
    pub fn to_string(&self) -> (r: String)
        ensures
            r@ == self.text(),
    {
        match self {
            FloorErrorCode::FloorNotFound => String::from_str("FLOOR_NOT_FOUND"),
            FloorErrorCode::FloorAlreadyExists => String::from_str("FLOOR_ALREADY_EXISTS"),
            FloorErrorCode::DeviceCascadeConstraint => String::from_str("DEVICE_CASCADE_CONSTRAINT"),
            FloorErrorCode::BuildingNotFound => String::from_str("BUILDING_NOT_FOUND"),
            FloorErrorCode::InternalServerError => String::from_str("INTERNAL_SERVER_ERROR"),
        }
    }
}

/// Message of every internal failure.
pub open spec fn internal_message() -> Seq<char> {
    "Internal Server Error"@
}

/// Failure to create a floor.
#[derive(Debug)]
pub enum CreateFloorError {
    FloorAlreadyExists(String),
    BuildingNotFound(String),
    InternalServerError,
}

impl CreateFloorError {
    /// The message of the error.
    pub open spec fn message(&self) -> Seq<char> {
        match self {
            CreateFloorError::FloorAlreadyExists(m) => m@,
            CreateFloorError::BuildingNotFound(m) => m@,
            CreateFloorError::InternalServerError => internal_message(),
        }
    }

    /// The message of the error.
    pub fn to_string(&self) -> (r: String)
        ensures
            r@ == self.message(),
    {
        match self {
            CreateFloorError::FloorAlreadyExists(m) => m.clone(),
            CreateFloorError::BuildingNotFound(m) => m.clone(),
            CreateFloorError::InternalServerError => String::from_str("Internal Server Error"),
        }
    }
}

/// Failure to list floors.
#[derive(Debug)]
pub enum ListFloorError {
    InternalServerError,
}

impl ListFloorError {
    /// The message of the error.
    pub fn to_string(&self) -> (r: String)
        ensures
            r@ == internal_message(),
    {
        String::from_str("Internal Server Error")
    }
}

/// Failure to update a floor.
#[derive(Debug)]
pub enum UpdateFloorError {
    FloorNotFound(String),
    BuildingNotFound(String),
    InternalServerError,
}

impl UpdateFloorError {
    /// The message of the error.
    pub open spec fn message(&self) -> Seq<char> {
        match self {
            UpdateFloorError::FloorNotFound(m) => m@,
            UpdateFloorError::BuildingNotFound(m) => m@,
            UpdateFloorError::InternalServerError => internal_message(),
        }
    }

    /// The message of the error.
    pub fn to_string(&self) -> (r: String)
        ensures
            r@ == self.message(),
    {
        match self {
            UpdateFloorError::FloorNotFound(m) => m.clone(),
            UpdateFloorError::BuildingNotFound(m) => m.clone(),
            UpdateFloorError::InternalServerError => String::from_str("Internal Server Error"),
        }
    }
}

/// Failure to delete a floor.
#[derive(Debug)]
pub enum DeleteFloorError {
    FloorNotFound(String),
    DeviceCascadeConstraint(String),
    InternalServerError,
}

impl DeleteFloorError {
    /// The message of the error.
    pub open spec fn message(&self) -> Seq<char> {
        match self {
            DeleteFloorError::FloorNotFound(m) => m@,
            DeleteFloorError::DeviceCascadeConstraint(m) => m@,
            DeleteFloorError::InternalServerError => internal_message(),
        }
    }

    /// The message of the error.
    pub fn to_string(&self) -> (r: String)
        ensures
            r@ == self.message(),
    {
        match self {
            DeleteFloorError::FloorNotFound(m) => m.clone(),
            DeleteFloorError::DeviceCascadeConstraint(m) => m.clone(),
            DeleteFloorError::InternalServerError => String::from_str("Internal Server Error"),
        }
    }
}

/// A row of the floor list query: the total count of matching floors
/// repeated on every row, then one floor and its building.
#[derive(Debug)]
pub struct RawFloorRow {
    pub count: i32,
    pub floor_id: i32,
    pub floor_name: String,
    pub building_id: i32,
    pub building_name: String,
    pub building_color: String,
}

/// A row of the query for the devices on the listed floors.
#[derive(Debug)]
pub struct RawDeviceRow {
    pub device_id: i32,
    pub device_name: String,
    pub device_description: String,
    pub device_floor_id: i32,
    pub device_active_announcements: i32,
}

/// What the floor list is asked for.
#[derive(Debug)]
pub struct FindFloorParams {
    pub page: i32,
    pub limit: i32,
    pub query: Option<String>,
    pub building_id: Option<i32>,
}

/// What a new floor is stored with.
#[derive(Debug)]
pub struct InsertFloorParams {
    pub name: String,
    pub building_id: i32,
}

/// What a floor is updated to.
#[derive(Debug)]
pub struct UpdateFloorParams {
    pub name: String,
    pub building_id: i32,
}

/// The device rows on a floor, in row order.
pub open spec fn on_floor(rows: Seq<RawDeviceRow>, floor_id: i32) -> Seq<RawDeviceRow>
    decreases rows.len(),
{
    if rows.len() == 0 {
        Seq::empty()
    } else if rows.last().device_floor_id == floor_id {
        on_floor(rows.drop_last(), floor_id).push(rows.last())
    } else {
        on_floor(rows.drop_last(), floor_id)
    }
}

/// The device a device row shows.
pub open spec fn shows_device(row: RawDeviceRow, d: DeviceFloorContent) -> bool {
    &&& d.id == row.device_id
    &&& d.name@ == row.device_name@
    &&& d.description@ == row.device_description@
    &&& d.total_announcements == row.device_active_announcements
}

/// The devices a list shows are, in order, the devices of the rows.
pub open spec fn shows_devices(rows: Seq<RawDeviceRow>, ds: Seq<DeviceFloorContent>) -> bool {
    &&& ds.len() == rows.len()
    &&& forall|i: int| 0 <= i < rows.len() ==> shows_device(#[trigger] rows[i], ds[i])
}

/// The devices of the rows that are on a floor, in row order.
pub fn devices_on_floor(rows: &Vec<RawDeviceRow>, floor_id: i32) -> (r: Vec<DeviceFloorContent>)
    ensures
        shows_devices(on_floor(rows@, floor_id), r@),
{
    let mut out: Vec<DeviceFloorContent> = Vec::new();
    let n = rows.len();
    let mut i: usize = 0;
    while i < n
        invariant
            n == rows@.len(),
            i <= n,
            shows_devices(on_floor(rows@.take(i as int), floor_id), out@),
        decreases n - i,
    {
        proof {
            assert(rows@.take(i + 1).drop_last() =~= rows@.take(i as int));
            assert(rows@.take(i + 1).last() == rows@[i as int]);
        }
        let row = &rows[i];
        if row.device_floor_id == floor_id {
            out.push(
                DeviceFloorContent {
                    id: row.device_id,
                    name: row.device_name.clone(),
                    description: row.device_description.clone(),
                    total_announcements: row.device_active_announcements,
                },
            );
        }
        i = i + 1;
    }
    proof {
        assert(rows@.take(n as int) =~= rows@);
    }
    out
}

/// The floor a floor row shows, with the given devices.
pub open spec fn shows_floor(row: RawFloorRow, devices: Seq<RawDeviceRow>, f: Floor) -> bool {
    &&& f.id == row.floor_id
    &&& f.name@ == row.floor_name@
    &&& f.building.id == row.building_id
    &&& f.building.name@ == row.building_name@
    &&& f.building.color@ == row.building_color@
    &&& shows_devices(on_floor(devices, row.floor_id), f.devices@)
}

/// The ids of the floors of the rows, in order (the floors whose devices
/// are read next).
pub fn floor_ids(rows: &Vec<RawFloorRow>) -> (r: Vec<i32>)
    ensures
        r@.len() == rows@.len(),
        forall|i: int| 0 <= i < rows@.len() ==> r@[i] == (#[trigger] rows@[i]).floor_id,
{
    let mut out: Vec<i32> = Vec::new();
    let n = rows.len();
    let mut i: usize = 0;
    while i < n
        invariant
            n == rows@.len(),
            i <= n,
            out@.len() == i,
            forall|k: int| 0 <= k < i ==> out@[k] == (#[trigger] rows@[k]).floor_id,
        decreases n - i,
    {
        out.push(rows[i].floor_id);
        i = i + 1;
    }
    out
}

/// One page of the floor list: the count from the first floor row (none,
/// zero), and for each floor row in order its floor, its building and the
/// devices on it.
pub fn floor_page(floors: &Vec<RawFloorRow>, devices: &Vec<RawDeviceRow>, page: i32, limit: i32) -> (r: PaginationResult<Floor>)
    ensures
        r.count == (if floors@.len() > 0 { floors@[0].count } else { 0 }),
        r.total_pages == total_pages_spec(r.count as int, limit as int),
        r.has_next == has_next_spec(page as int, limit as int, r.count as int),
        r.contents@.len() == floors@.len(),
        forall|i: int| 0 <= i < floors@.len() ==> shows_floor(#[trigger] floors@[i], devices@, r.contents@[i]),
{
    let mut contents: Vec<Floor> = Vec::new();
    let n = floors.len();
    let mut i: usize = 0;
    while i < n
        invariant
            n == floors@.len(),
            i <= n,
            contents@.len() == i,
            forall|k: int| 0 <= k < i ==> shows_floor(#[trigger] floors@[k], devices@, contents@[k]),
        decreases n - i,
    {
        let row = &floors[i];
        let on = devices_on_floor(devices, row.floor_id);
        contents.push(
            Floor {
                id: row.floor_id,
                name: row.floor_name.clone(),
                building: BuildingFloorContent {
                    id: row.building_id,
                    name: row.building_name.clone(),
                    color: row.building_color.clone(),
                },
                devices: on,
            },
        );
        i = i + 1;
    }
    let first = if n > 0 {
        Some(floors[0].count)
    } else {
        None
    };
    paginate(first, page, limit, contents)
}

} // verus!
