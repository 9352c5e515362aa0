//! Buildings: the building list, the checks on a building's name and
//! colour, and how failed queries map onto the errors of the building API.
use vstd::prelude::*;
use vstd::string::*;

use crate::database::{StoreError, StoreErrorKind};

verus! {

/// A building and the colour it is drawn in.
#[derive(Debug)]
pub struct Building {
    pub id: i32,
    pub name: String,
    pub color: String,
}

/// Failure of a building operation, with the message shown to the client.
#[derive(Debug)]
pub enum BuildingError {
    BuildingInvalid(String),
    BuildingNotFound(String),
    BuildingNameAlreadyExists(String),
    BuildingCascadeConstraint(String),
    InternalServerError,
}

impl BuildingError {
    /// The message of the error.
    pub open spec fn message(&self) -> Seq<char> {
        match self {
            BuildingError::BuildingInvalid(m) => m@,
            BuildingError::BuildingNotFound(m) => m@,
            BuildingError::BuildingNameAlreadyExists(m) => m@,
            BuildingError::BuildingCascadeConstraint(m) => m@,
            BuildingError::InternalServerError => "Internal Server Error"@,
        }
    }

    /// The message of the error.
    pub fn to_string(&self) -> (r: String)
        ensures
            r@ == self.message(),
    {
        match self {
            BuildingError::BuildingInvalid(m) => m.clone(),
            BuildingError::BuildingNotFound(m) => m.clone(),
            BuildingError::BuildingNameAlreadyExists(m) => m.clone(),
            BuildingError::BuildingCascadeConstraint(m) => m.clone(),
            BuildingError::InternalServerError => String::from_str("Internal Server Error"),
        }
    }
}

/// Error codes of the building API.
#[derive(Debug, Clone, Copy, PartialEq, Eq, Structural)]
pub enum BuildingErrorCode {
    BuildingInvalid,
    BuildingNotFound,
    BuildingNameAlreadyExists,
    InternalServerError,
}

impl BuildingErrorCode {
    /// The code as the API writes it.
    pub open spec fn text(self) -> Seq<char> {
        match self {
            BuildingErrorCode::BuildingInvalid => "BUILDING_INVALID"@,
            BuildingErrorCode::BuildingNotFound => "BUILDING_NOT_FOUND"@,
            BuildingErrorCode::BuildingNameAlreadyExists => "BUILDING_NAME_ALREADY_EXISTS"@,
            BuildingErrorCode::InternalServerError => "INTERNAL_SERVER_ERROR"@,
        }
    }

    /// The code as the API writes it.
    pub fn to_string(&self) -> (r: String)
        ensures
            r@ == self.text(),
    {
        match self {
            BuildingErrorCode::BuildingInvalid => String::from_str("BUILDING_INVALID"),
            BuildingErrorCode::BuildingNotFound => String::from_str("BUILDING_NOT_FOUND"),
            BuildingErrorCode::BuildingNameAlreadyExists => String::from_str("BUILDING_NAME_ALREADY_EXISTS"),
            BuildingErrorCode::InternalServerError => String::from_str("INTERNAL_SERVER_ERROR"),
        }
    }
}

/// A building as the building list shows it.
#[derive(Debug)]
pub struct BuildingJson {
    pub id: i32,
    pub name: String,
    pub color: String,
}

/// The building list response.
#[derive(Debug)]
pub struct ListBuildingsResponse {
    pub contents: Vec<BuildingJson>,
}

/// The building list response: every building, in order.
pub fn list_buildings_response(buildings: Vec<Building>) -> (r: ListBuildingsResponse)
    ensures
        r.contents@.len() == buildings@.len(),
        forall|i: int| 0 <= i < buildings@.len() ==> {
            let j = #[trigger] r.contents@[i];
            let b = buildings@[i];
            j.id == b.id && j.name@ == b.name@ && j.color@ == b.color@
        },
{
    let mut contents: Vec<BuildingJson> = Vec::new();
    let n = buildings.len();
    let mut i: usize = 0;
    while i < n
        invariant
            n == buildings@.len(),
            i <= n,
            contents@.len() == i,
            forall|k: int| 0 <= k < i ==> {
                let j = #[trigger] contents@[k];
                let b = buildings@[k];
                j.id == b.id && j.name@ == b.name@ && j.color@ == b.color@
            },
        decreases n - i,
    {
        let b = &buildings[i];
        contents.push(BuildingJson { id: b.id, name: b.name.clone(), color: b.color.clone() });
        i = i + 1;
    }
    ListBuildingsResponse { contents }
}

/// The body of a building creation request.
#[derive(Debug)]
pub struct CreateBody {
    pub name: String,
    pub color: String,
}

/// The body of a building update request.
#[derive(Debug)]
pub struct UpdateBody {
    pub name: String,
    pub color: String,
}

/// What a new building is created from.
#[derive(Debug)]
pub struct CreateParams {
    pub name: String,
    pub color: String,
}

/// What a building is updated to.
#[derive(Debug)]
pub struct UpdateParams {
    pub id: i32,
    pub name: String,
    pub color: String,
}

/// What a new building is stored with.
#[derive(Debug)]
pub struct InsertBuildingParams {
    pub name: String,
    pub color: String,
}

/// What a building is updated to in storage.
#[derive(Debug)]
pub struct UpdateBuildingParams {
    pub id: i32,
    pub name: String,
    pub color: String,
}

/// The messages of the checks a building's name and colour fail, in field
/// order: the name must not be empty, the colour must have exactly seven
/// characters (`#rrggbb`). `color_message` is what the request reports for
/// a bad colour.
pub open spec fn building_body_errors(name: Seq<char>, color: Seq<char>, color_message: Seq<char>) -> Seq<Seq<char>> {
    let a: Seq<Seq<char>> = if name.len() == 0 { seq!["name: Name must not be empty"@] } else { Seq::empty() };
    if color.len() != 7 { a.push(color_message) } else { a }
}

fn body_errors(name: &str, color: &str, color_message: &str) -> (r: Vec<String>)
    ensures
        r.deep_view() == building_body_errors(name@, color@, color_message@),
{
    let mut v: Vec<String> = Vec::new();
    if name.unicode_len() == 0 {
        v.push(String::from_str("name: Name must not be empty"));
    }
    if color.unicode_len() != 7 {
        v.push(String::from_str(color_message));
    }
    proof {
        assert(v.deep_view() =~= building_body_errors(name@, color@, color_message@));
    }
    v
}

/// The checks a building creation body fails.
pub fn create_body_errors(body: &CreateBody) -> (r: Vec<String>)
    ensures
        r.deep_view() == building_body_errors(body.name@, body.color@, "color: Color can only have at least 8 characters"@),
{
    body_errors(body.name.as_str(), body.color.as_str(), "color: Color can only have at least 8 characters")
}

/// The checks a building update body fails.
pub fn update_body_errors(body: &UpdateBody) -> (r: Vec<String>)
    ensures
        r.deep_view() == building_body_errors(body.name@, body.color@, "color: Color can only have at least 7 characters"@),
{
    body_errors(body.name.as_str(), body.color.as_str(), "color: Color can only have at least 7 characters")
}

/// The error of a failed building insert or update: a taken name, a
/// missing building, or an internal error.
pub fn save_building_error(e: &StoreError) -> (r: BuildingError)
    ensures
        e.kind() == StoreErrorKind::UniqueViolation ==> (r matches BuildingError::BuildingNameAlreadyExists(m)
            && m@ == "Building Name is already registered in our system"@),
        e.kind() == StoreErrorKind::NotFound ==> (r matches BuildingError::BuildingNotFound(m) && m@
            == "Building not found"@),
        e.kind() == StoreErrorKind::ForeignKey || e.kind() == StoreErrorKind::Internal ==> r is InternalServerError,
{
    match e.classify() {
        StoreErrorKind::UniqueViolation => BuildingError::BuildingNameAlreadyExists(
            String::from_str("Building Name is already registered in our system"),
        ),
        StoreErrorKind::NotFound => BuildingError::BuildingNotFound(String::from_str("Building not found")),
        _ => BuildingError::InternalServerError,
    }
}

/// The error of a failed building delete: a missing building, a building
/// that floors still belong to, or an internal error.
pub fn delete_building_error(e: &StoreError) -> (r: BuildingError)
    ensures
        e.kind() == StoreErrorKind::NotFound ==> (r matches BuildingError::BuildingNotFound(m) && m@
            == "Building not found"@),
        e.kind() == StoreErrorKind::ForeignKey ==> (r matches BuildingError::BuildingCascadeConstraint(m) && m@
            == "Unable to delete building because it still have existing floors"@),
        e.kind() == StoreErrorKind::UniqueViolation || e.kind() == StoreErrorKind::Internal ==> r is InternalServerError,
{
    match e.classify() {
        StoreErrorKind::NotFound => BuildingError::BuildingNotFound(String::from_str("Building not found")),
        StoreErrorKind::ForeignKey => BuildingError::BuildingCascadeConstraint(
            String::from_str("Unable to delete building because it still have existing floors"),
        ),
        _ => BuildingError::InternalServerError,
    }
}

} // verus!
