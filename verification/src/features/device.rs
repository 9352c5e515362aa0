//! Devices: the rows and pages the device list is built from, the errors of
//! the device API and how failed queries map onto them, the credentials a
//! new device is given and how a device proves them back.
use vstd::prelude::*;
use vstd::string::*;

use crate::credentials::{
    is_ascii_letter, is_ascii_lower, is_ascii_text, argon2_phc, decode_utf8, find_letter_runs, hash_password, is_ascii_alphanumeric,
    lemma_letter_runs, letter_runs, lorem_words, lowercase, random_alphanumeric, to_lowercase, utf8_text,
};
use crate::database::{
    has_next_spec, paginate, total_pages_spec, PaginationResult, StoreError, StoreErrorKind,
};
use crate::time::{format_rfc3339, rfc3339_text, Timestamp, MAX_TIMESTAMP, MIN_TIMESTAMP};

verus! {

/// A device as the device list shows it.
#[derive(Debug)]
pub struct Device {
    pub id: i32,
    pub name: String,
    pub location: String,
    pub description: String,
    pub active_announcements: i32,
}

/// What the device list is asked for: a 1-based page, its size and the
/// optional filters.
#[derive(Debug)]
pub struct ListDeviceParams {
    pub page: i32,
    pub limit: i32,
    pub query: Option<String>,
    pub building_id: Option<i32>,
    pub floor_id: Option<i32>,
}

/// Error codes of the device API.
#[derive(Debug, Clone, Copy, PartialEq, Eq, Structural)]
pub enum DeviceErrorCode {
    AuthenticationFailed,
    DeviceAlreadyExists,
    DeviceNotFound,
    FloorNotFound,
    DeviceCascadeConstraint,
    InternalServerError,
}

impl DeviceErrorCode {
    /// The code as the API writes it (a missing floor is reported with the
    /// building code, as the API always has).
    pub open spec fn text(self) -> Seq<char> {
        match self {
            DeviceErrorCode::AuthenticationFailed => "AUTHENTICATION_FAILED"@,
            DeviceErrorCode::DeviceAlreadyExists => "DEVICE_ALREADY_EXISTS"@,
            DeviceErrorCode::DeviceNotFound => "DEVICE_NOT_FOUND"@,
            DeviceErrorCode::FloorNotFound => "BUILDING_NOT_FOUND"@,
            DeviceErrorCode::DeviceCascadeConstraint => "DEVICE_CASCADE_CONSTRAINT"@,
            DeviceErrorCode::InternalServerError => "INTERNAL_SERVER_ERROR"@,
        }
    }

    /// The code as the API writes it.
    pub fn to_string(&self) -> (r: String)
        ensures
            r@ == self.text(),
    {
        match self {
            DeviceErrorCode::AuthenticationFailed => String::from_str("AUTHENTICATION_FAILED"),
            DeviceErrorCode::DeviceAlreadyExists => String::from_str("DEVICE_ALREADY_EXISTS"),
            DeviceErrorCode::DeviceNotFound => String::from_str("DEVICE_NOT_FOUND"),
            DeviceErrorCode::FloorNotFound => String::from_str("BUILDING_NOT_FOUND"),
            DeviceErrorCode::DeviceCascadeConstraint => String::from_str("DEVICE_CASCADE_CONSTRAINT"),
            DeviceErrorCode::InternalServerError => String::from_str("INTERNAL_SERVER_ERROR"),
        }
    }
}

/// Message shared by every internal failure.
pub open spec fn internal_message() -> Seq<char> {
    "Internal Server Error"@
}

/// Failure to create a device.
#[derive(Debug)]
pub enum CreateDeviceError {
    DeviceAlreadyExists(String),
    FloorNotFound(String),
    InternalServerError,
}

impl CreateDeviceError {
    /// The message of the error.
    pub open spec fn message(&self) -> Seq<char> {
        match self {
            CreateDeviceError::DeviceAlreadyExists(m) => m@,
            CreateDeviceError::FloorNotFound(m) => m@,
            CreateDeviceError::InternalServerError => internal_message(),
        }
    }

    /// The message of the error.
    pub fn to_string(&self) -> (r: String)
        ensures
            r@ == self.message(),
    {
        match self {
            CreateDeviceError::DeviceAlreadyExists(m) => m.clone(),
            CreateDeviceError::FloorNotFound(m) => m.clone(),
            CreateDeviceError::InternalServerError => String::from_str("Internal Server Error"),
        }
    }
}

/// Failure to list devices.
#[derive(Debug)]
pub enum ListDeviceError {
    InternalServerError,
}

impl ListDeviceError {
    /// The message of the error.
    pub fn to_string(&self) -> (r: String)
        ensures
            r@ == internal_message(),
    {
        String::from_str("Internal Server Error")
    }
}

/// Failure to read one device.
#[derive(Debug)]
pub enum GetDeviceDetailByIdError {
    DeviceNotFound(String),
    InternalServerError,
}

impl GetDeviceDetailByIdError {
    /// The message of the error.
    pub open spec fn message(&self) -> Seq<char> {
        match self {
            GetDeviceDetailByIdError::DeviceNotFound(m) => m@,
            GetDeviceDetailByIdError::InternalServerError => internal_message(),
        }
    }

    /// The message of the error.
    pub fn to_string(&self) -> (r: String)
        ensures
            r@ == self.message(),
    {
        match self {
            GetDeviceDetailByIdError::DeviceNotFound(m) => m.clone(),
            GetDeviceDetailByIdError::InternalServerError => String::from_str("Internal Server Error"),
        }
    }
}

/// Failure to update a device.
#[derive(Debug)]
pub enum UpdateDeviceError {
    DeviceNotFound(String),
    DeviceAlreadyExists(String),
    FloorNotFound(String),
    InternalServerError,
}

impl UpdateDeviceError {
    /// The message of the error.
    pub open spec fn message(&self) -> Seq<char> {
        match self {
            UpdateDeviceError::DeviceNotFound(m) => m@,
            UpdateDeviceError::DeviceAlreadyExists(m) => m@,
            UpdateDeviceError::FloorNotFound(m) => m@,
            UpdateDeviceError::InternalServerError => internal_message(),
        }
    }

    /// The message of the error.
    pub fn to_string(&self) -> (r: String)
        ensures
            r@ == self.message(),
    {
        match self {
            UpdateDeviceError::DeviceNotFound(m) => m.clone(),
            UpdateDeviceError::DeviceAlreadyExists(m) => m.clone(),
            UpdateDeviceError::FloorNotFound(m) => m.clone(),
            UpdateDeviceError::InternalServerError => String::from_str("Internal Server Error"),
        }
    }
}

/// Failure to delete a device.
#[derive(Debug)]
pub enum DeleteDeviceError {
    DeviceNotFound(String),
    DeviceCascadeConstraint(String),
    InternalServerError,
}

impl DeleteDeviceError {
    /// The message of the error.
    pub open spec fn message(&self) -> Seq<char> {
        match self {
            DeleteDeviceError::DeviceNotFound(m) => m@,
            DeleteDeviceError::DeviceCascadeConstraint(m) => m@,
            DeleteDeviceError::InternalServerError => internal_message(),
        }
    }

    /// The message of the error.
    pub fn to_string(&self) -> (r: String)
        ensures
            r@ == self.message(),
    {
        match self {
            DeleteDeviceError::DeviceNotFound(m) => m.clone(),
            DeleteDeviceError::DeviceCascadeConstraint(m) => m.clone(),
            DeleteDeviceError::InternalServerError => String::from_str("Internal Server Error"),
        }
    }
}

/// Failure to resend a device its announcements.
#[derive(Debug, Clone, Copy)]
pub enum ResyncDeviceError {
    DeviceNotFound(&'static str),
    InternalServerError,
}

impl ResyncDeviceError {
    /// The message of the error.
    pub open spec fn message(&self) -> Seq<char> {
        match self {
            ResyncDeviceError::DeviceNotFound(m) => m@,
            ResyncDeviceError::InternalServerError => internal_message(),
        }
    }

    /// The message of the error.
    pub fn to_string(&self) -> (r: String)
        ensures
            r@ == self.message(),
    {
        match self {
            ResyncDeviceError::DeviceNotFound(m) => String::from_str(m),
            ResyncDeviceError::InternalServerError => String::from_str("Internal Server Error"),
        }
    }
}

/// Failure to link a device to its screen.
#[derive(Debug, Clone, Copy)]
pub enum LinkDeviceError {
    AuthenticationFailed(&'static str),
    DeviceNotFound(&'static str),
    InternalServerError,
}

impl LinkDeviceError {
    /// The message of the error.
    pub open spec fn message(&self) -> Seq<char> {
        match self {
            LinkDeviceError::AuthenticationFailed(m) => m@,
            LinkDeviceError::DeviceNotFound(m) => m@,
            LinkDeviceError::InternalServerError => internal_message(),
        }
    }

    /// The message of the error.
    pub fn to_string(&self) -> (r: String)
        ensures
            r@ == self.message(),
    {
        match self {
            LinkDeviceError::AuthenticationFailed(m) => String::from_str(m),
            LinkDeviceError::DeviceNotFound(m) => String::from_str(m),
            LinkDeviceError::InternalServerError => String::from_str("Internal Server Error"),
        }
    }
}

/// Failure of a device to prove its credentials.
#[derive(Debug, Clone, Copy)]
pub enum AuthenticateDeviceError {
    AuthenticationFailed(&'static str),
    DeviceNotFound(&'static str),
    InternalServerError,
}

/// A row of the device list query: the total count of matching devices
/// repeated on every row, then one device.
#[derive(Debug)]
pub struct ListDeviceRow {
    pub count: i32,
    pub device_id: i32,
    pub device_name: String,
    pub device_location: String,
    pub device_description: String,
    pub device_active_announcements: i32,
}

/// The device a list row shows.
pub open spec fn row_device(row: ListDeviceRow, d: Device) -> bool {
    &&& d.id == row.device_id
    &&& d.name@ == row.device_name@
    &&& d.location@ == row.device_location@
    &&& d.description@ == row.device_description@
    &&& d.active_announcements == row.device_active_announcements
}

/// One page of the device list from the rows of the list query: the count
/// comes from the first row (no row, no device), each row gives a device in
/// row order.
pub fn device_page(rows: &Vec<ListDeviceRow>, page: i32, limit: i32) -> (r: PaginationResult<Device>)
    ensures
        r.count == (if rows@.len() > 0 { rows@[0].count } else { 0 }),
        r.total_pages == total_pages_spec(r.count as int, limit as int),
        r.has_next == has_next_spec(page as int, limit as int, r.count as int),
        r.contents@.len() == rows@.len(),
        forall|i: int| 0 <= i < rows@.len() ==> row_device(#[trigger] rows@[i], r.contents@[i]),
{
    let mut contents: Vec<Device> = Vec::new();
    let n = rows.len();
    let mut i: usize = 0;
    while i < n
        invariant
            n == rows@.len(),
            i <= n,
            contents@.len() == i,
            forall|k: int| 0 <= k < i ==> row_device(#[trigger] rows@[k], contents@[k]),
        decreases n - i,
    {
        let row = &rows[i];
        contents.push(
            Device {
                id: row.device_id,
                name: row.device_name.clone(),
                location: row.device_location.clone(),
                description: row.device_description.clone(),
                active_announcements: row.device_active_announcements,
            },
        );
        i = i + 1;
    }
    let first = if n > 0 {
        Some(rows[0].count)
    } else {
        None
    };
    paginate(first, page, limit, contents)
}

/// The cache key of a device's credentials: `device/pub-key-<access key>`.
pub fn device_auth_key(access_key_id: &str) -> (r: String)
    ensures
        r@ == "device/pub-key-"@ + access_key_id@,
{
    let mut s = String::from_str("device/pub-key-");
    s.append(access_key_id);
    s
}

/// `Device with the name of <name> already exists`.
pub open spec fn duplicate_name_message(name: Seq<char>) -> Seq<char> {
    "Device with the name of "@ + name + " already exists"@
}

fn duplicate_name(name: &str) -> (r: String)
    ensures
        r@ == duplicate_name_message(name@),
{
    let mut s = String::from_str("Device with the name of ");
    s.append(name);
    s.append(" already exists");
    s
}

/// The error of a failed device insert: a duplicate name, a missing floor,
/// or an internal error.
pub fn create_device_error(e: &StoreError, name: &str) -> (r: CreateDeviceError)
    ensures
        e.kind() == StoreErrorKind::UniqueViolation ==> (r matches CreateDeviceError::DeviceAlreadyExists(m)
            && m@ == duplicate_name_message(name@)),
        e.kind() == StoreErrorKind::ForeignKey ==> (r matches CreateDeviceError::FloorNotFound(m) && m@
            == "Floor not found"@),
        e.kind() == StoreErrorKind::NotFound || e.kind() == StoreErrorKind::Internal ==> r is InternalServerError,
{
    match e.classify() {
        StoreErrorKind::UniqueViolation => CreateDeviceError::DeviceAlreadyExists(duplicate_name(name)),
        StoreErrorKind::ForeignKey => CreateDeviceError::FloorNotFound(String::from_str("Floor not found")),
        _ => CreateDeviceError::InternalServerError,
    }
}

/// The error of a failed device update: a missing device, a duplicate name,
/// a missing floor, or an internal error.
pub fn update_device_error(e: &StoreError, name: &str) -> (r: UpdateDeviceError)
    ensures
        e.kind() == StoreErrorKind::NotFound ==> (r matches UpdateDeviceError::DeviceNotFound(m) && m@
            == "Device not found"@),
        e.kind() == StoreErrorKind::UniqueViolation ==> (r matches UpdateDeviceError::DeviceAlreadyExists(m)
            && m@ == duplicate_name_message(name@)),
        e.kind() == StoreErrorKind::ForeignKey ==> (r matches UpdateDeviceError::FloorNotFound(m) && m@
            == "Floor not found"@),
        e.kind() == StoreErrorKind::Internal ==> r is InternalServerError,
{
    match e.classify() {
        StoreErrorKind::NotFound => UpdateDeviceError::DeviceNotFound(String::from_str("Device not found")),
        StoreErrorKind::UniqueViolation => UpdateDeviceError::DeviceAlreadyExists(duplicate_name(name)),
        StoreErrorKind::ForeignKey => UpdateDeviceError::FloorNotFound(String::from_str("Floor not found")),
        StoreErrorKind::Internal => UpdateDeviceError::InternalServerError,
    }
}

/// The error of a failed device delete: a missing device, a device that
/// announcements still point at, or an internal error.
pub fn delete_device_error(e: &StoreError) -> (r: DeleteDeviceError)
    ensures
        e.kind() == StoreErrorKind::NotFound ==> (r matches DeleteDeviceError::DeviceNotFound(m) && m@
            == "Device not found"@),
        e.kind() == StoreErrorKind::ForeignKey ==> (r matches DeleteDeviceError::DeviceCascadeConstraint(m)
            && m@ == "Unable to delete device because it still have existing announcements"@),
        e.kind() == StoreErrorKind::UniqueViolation || e.kind() == StoreErrorKind::Internal ==> r is InternalServerError,
{
    match e.classify() {
        StoreErrorKind::NotFound => DeleteDeviceError::DeviceNotFound(String::from_str("Device not found")),
        StoreErrorKind::ForeignKey => DeleteDeviceError::DeviceCascadeConstraint(
            String::from_str("Unable to delete device because it still have existing announcements"),
        ),
        _ => DeleteDeviceError::InternalServerError,
    }
}

/// The error of a failed device lookup: a missing device or an internal
/// error.
pub fn device_detail_error(e: &StoreError) -> (r: GetDeviceDetailByIdError)
    ensures
        e is RowNotFound ==> (r matches GetDeviceDetailByIdError::DeviceNotFound(m) && m@ == "Device not found"@),
        !(e is RowNotFound) ==> r is InternalServerError,
{
    match e {
        StoreError::RowNotFound => GetDeviceDetailByIdError::DeviceNotFound(String::from_str("Device not found")),
        _ => GetDeviceDetailByIdError::InternalServerError,
    }
}

/// The error of a failed lookup before a resync.
pub fn resync_lookup_error(e: &StoreError) -> (r: ResyncDeviceError)
    ensures
        e is RowNotFound ==> r == ResyncDeviceError::DeviceNotFound("Unable to find the device in the system"),
        !(e is RowNotFound) ==> r is InternalServerError,
{
    match e {
        StoreError::RowNotFound => ResyncDeviceError::DeviceNotFound("Unable to find the device in the system"),
        _ => ResyncDeviceError::InternalServerError,
    }
}

/// Whether a text is made of lowercase ASCII letters and dashes only.
pub open spec fn key_text(s: Seq<char>) -> bool {
    forall|k: int| 0 <= k < s.len() ==> is_ascii_lower(#[trigger] s[k]) || s[k] == '-'
}

/// The words of `text` joined with `-`.
pub open spec fn dash_joined(words: Seq<Seq<char>>) -> Seq<char>
    decreases words.len(),
{
    if words.len() == 0 {
        Seq::empty()
    } else if words.len() == 1 {
        words[0]
    } else {
        dash_joined(words.drop_last()) + "-"@ + words.last()
    }
}

proof fn lemma_dash_joined_extend(words: Seq<Seq<char>>, c: char)
    requires
        words.len() > 0,
    ensures
        dash_joined(words.update(words.len() - 1, words.last().push(c))).len() == dash_joined(words).len() + 1,
{
    let longer = words.update(words.len() - 1, words.last().push(c));
    if words.len() > 1 {
        assert(longer.drop_last() =~= words.drop_last());
    }
}

proof fn lemma_dash_joined_push(words: Seq<Seq<char>>, w: Seq<char>)
    ensures
        dash_joined(words.push(w)).len() <= dash_joined(words).len() + 1 + w.len(),
{
    reveal_strlit("-");
    if words.len() > 0 {
        assert(words.push(w).drop_last() =~= words);
    }
}

/// Joining the letter runs of a text with dashes gives at most twice as
/// many characters as the text has.
proof fn lemma_dash_joined_runs_len(text: Seq<char>)
    ensures
        dash_joined(letter_runs(text)).len() <= 2 * text.len(),
    decreases text.len(),
{
    if text.len() > 0 {
        let prev = text.drop_last();
        lemma_dash_joined_runs_len(prev);
        let runs = letter_runs(prev);
        let c = text.last();
        if is_ascii_letter(c) {
            if text.len() >= 2 && is_ascii_letter(text[text.len() - 2]) {
                assert(prev.last() == text[text.len() - 2]);
                lemma_letter_runs(prev);
                lemma_dash_joined_extend(runs, c);
            } else {
                lemma_dash_joined_push(runs, seq![c]);
            }
        }
    }
}

/// The letter runs of a text, lowercased and joined with `-`.
pub fn dashed_words(text: &str) -> (r: String)
    ensures
        r@ == dash_joined(letter_runs(lowercase(text@))),
        key_text(r@),
        is_ascii_text(text@) ==> r@.len() <= 2 * text@.len(),
{
    let lower = to_lowercase(text);
    let words = find_letter_runs(lower.as_str());
    let ghost runs = letter_runs(lower@);
    proof {
        lemma_letter_runs(lower@);
        lemma_dash_joined_runs_len(lower@);
        assert forall|a: int, b: int| 0 <= a < words@.len() && 0 <= b < words@[a]@.len()
            implies is_ascii_lower(#[trigger] words@[a]@[b]) by {
            assert(words.deep_view()[a] == words@[a]@);
            let ch = runs[a][b];
            assert(is_ascii_letter(ch) && lower@.contains(ch));
            let k = choose|k: int| 0 <= k < lower@.len() && lower@[k] == ch;
            assert(!crate::credentials::is_ascii_upper(lower@[k]));
        }
    }
    let mut out = String::new();
    let n = words.len();
    let mut i: usize = 0;
    while i < n
        invariant
            n == words@.len(),
            words.deep_view() == runs,
            runs == letter_runs(lowercase(text@)),
            i <= n,
            out@ == dash_joined(runs.take(i as int)),
            key_text(out@),
            forall|a: int, b: int| 0 <= a < words@.len() && 0 <= b < words@[a]@.len() ==> is_ascii_lower(#[trigger] words@[a]@[b]),
        decreases n - i,
    {
        proof {
            assert(words.deep_view()[i as int] == words@[i as int]@);
            assert(runs.take(i + 1).drop_last() =~= runs.take(i as int));
            assert(runs.take(i + 1).last() == runs[i as int]);
        }
        let ghost before = out@;
        if i > 0 {
            out.append("-");
            proof {
                reveal_strlit("-");
                assert forall|k: int| 0 <= k < out@.len() implies is_ascii_lower(#[trigger] out@[k]) || out@[k] == '-' by {
                    if k < before.len() {
                        assert(out@[k] == before[k]);
                    }
                }
            }
        }
        let ghost mid = out@;
        out.append(words[i].as_str());
        proof {
            assert forall|k: int| 0 <= k < out@.len() implies is_ascii_lower(#[trigger] out@[k]) || out@[k] == '-' by {
                if k < mid.len() {
                    assert(out@[k] == mid[k]);
                } else {
                    assert(out@[k] == words@[i as int]@[k - mid.len()]);
                }
            }
            if i == 0 {
                assert(runs.take(1) =~= seq![runs[0]]);
            }
        }
        i = i + 1;
    }
    proof {
        assert(runs.take(n as int) =~= runs);
    }
    out
}

/// A random key of lorem ipsum words: lowercase runs of letters joined
/// with `-`, at most 146 characters long (four words of at most 17
/// letters).
pub fn random_key() -> (r: String)
    ensures
        exists|text: Seq<char>| r@ == dash_joined(letter_runs(lowercase(text))),
        key_text(r@),
        r@.len() <= 146,
{
    let text = lorem_words(4);
    dashed_words(text.as_str())
}

/// A device's credentials as the cache keeps them: the device, the Argon2
/// hash of its secret key and the salt of that hash.
#[derive(Debug, Clone)]
pub struct DeviceAuthCache {
    pub device_id: i32,
    pub secret_access_key: String,
    pub secret_access_key_salt: String,
}

/// What a new device is stored with.
#[derive(Debug)]
pub struct InsertDeviceParams {
    pub name: String,
    pub description: String,
    pub floor_id: i32,
    pub access_key_id: String,
    pub secret_access_key: String,
    pub secret_access_key_salt: String,
}

/// What a device is updated to.
#[derive(Debug)]
pub struct UpdateDeviceParams {
    pub name: String,
    pub description: String,
    pub floor_id: i32,
}

/// What a new device is created from.
#[derive(Debug)]
pub struct CreateDeviceParams {
    pub name: String,
    pub description: String,
    pub floor_id: i32,
}

/// What a device's information is changed to.
#[derive(Debug)]
pub struct UpdateDeviceInfoParams {
    pub name: String,
    pub description: String,
    pub floor_id: i32,
}

/// A created device and the credentials it is handed once.
#[derive(Debug)]
pub struct CreateDeviceResult {
    pub id: i32,
    pub access_key_id: String,
    pub secret_access_key: String,
}

/// A device about to be stored, with the secret key in the clear (handed
/// to the caller once, never stored).
#[derive(Debug)]
pub struct PreparedDevice {
    pub insert: InsertDeviceParams,
    pub secret_access_key: String,
}

/// Whether `p` is a device ready to store for `params`: keys of lowercase
/// ASCII letters and dashes, the same name, description and floor, a salt of 32
/// ASCII letters and digits, and the stored key the Argon2 hash of the
/// secret key with that salt.
pub open spec fn prepared_for(p: PreparedDevice, params: CreateDeviceParams) -> bool {
    &&& key_text(p.insert.access_key_id@)
    &&& key_text(p.secret_access_key@)
    &&& p.insert.name@ == params.name@
    &&& p.insert.description@ == params.description@
    &&& p.insert.floor_id == params.floor_id
    &&& p.insert.secret_access_key_salt@.len() == 32
    &&& forall|i: int| 0 <= i < 32 ==> is_ascii_alphanumeric(#[trigger] p.insert.secret_access_key_salt@[i])
    &&& argon2_phc(p.secret_access_key@, p.insert.secret_access_key_salt@) == Some(p.insert.secret_access_key@)
}

/// Draws the credentials of a new device: an access key and a secret key of
/// random words, and a random salt; stores only the hash of the secret.
/// The salt always suits Argon2, so preparing never fails.
pub fn prepare_device(params: CreateDeviceParams) -> (r: Result<PreparedDevice, CreateDeviceError>)
    ensures
        r matches Ok(p) && prepared_for(p, params),
{
    let access_key_id = random_key();
    let secret_access_key = random_key();
    let salt = random_alphanumeric(32);
    let hash = match hash_password(secret_access_key.as_str(), salt.as_str()) {
        Some(h) => h,
        None => return Err(CreateDeviceError::InternalServerError),
    };
    let insert = InsertDeviceParams {
        name: params.name,
        description: params.description,
        floor_id: params.floor_id,
        access_key_id,
        secret_access_key: hash,
        secret_access_key_salt: salt,
    };
    Ok(PreparedDevice { insert, secret_access_key })
}

/// The outcome of storing a prepared device: its id and credentials, or the
/// error the failed insert maps to.
pub fn create_device_result(prepared: PreparedDevice, inserted: Result<i32, StoreError>) -> (r: Result<CreateDeviceResult, CreateDeviceError>)
    ensures
        match inserted {
            Ok(id) => r matches Ok(c) && c.id == id && c.access_key_id@ == prepared.insert.access_key_id@
                && c.secret_access_key@ == prepared.secret_access_key@,
            Err(e) => r matches Err(err) && create_device_error_is(err, e, prepared.insert.name@),
        },
{
    match inserted {
        Ok(id) => Ok(CreateDeviceResult {
            id,
            access_key_id: prepared.insert.access_key_id,
            secret_access_key: prepared.secret_access_key,
        }),
        Err(e) => Err(create_device_error(&e, prepared.insert.name.as_str())),
    }
}

/// Whether `err` is the error a failed device insert maps to: a unique
/// violation is a duplicate name, a foreign-key violation a missing floor,
/// anything else an internal error.
pub open spec fn create_device_error_is(err: CreateDeviceError, e: StoreError, name: Seq<char>) -> bool {
    match e.kind() {
        StoreErrorKind::UniqueViolation => err matches CreateDeviceError::DeviceAlreadyExists(m) && m@
            == duplicate_name_message(name),
        StoreErrorKind::ForeignKey => err matches CreateDeviceError::FloorNotFound(m) && m@ == "Floor not found"@,
        _ => err is InternalServerError,
    }
}

/// The credentials a device sends: both headers must be present.
pub fn device_credentials(access_key_id: Option<String>, secret_access_key: Option<String>) -> (r: Result<(String, String), AuthenticateDeviceError>)
    ensures
        match (access_key_id, secret_access_key) {
            (Some(a), Some(s)) => r matches Ok((ra, rs)) && ra@ == a@ && rs@ == s@,
            _ => r == Err::<(String, String), AuthenticateDeviceError>(
                AuthenticateDeviceError::AuthenticationFailed("Authentication failed"),
            ),
        },
{
    match (access_key_id, secret_access_key) {
        (Some(a), Some(s)) => Ok((a, s)),
        _ => Err(AuthenticateDeviceError::AuthenticationFailed("Authentication failed")),
    }
}

/// The error of a failed lookup of a device by its access key.
pub fn credential_lookup_error(e: &StoreError) -> (r: AuthenticateDeviceError)
    ensures
        e is RowNotFound ==> r == AuthenticateDeviceError::DeviceNotFound(
            "Unable to find the corresponding device in the system",
        ),
        !(e is RowNotFound) ==> r is InternalServerError,
{
    match e {
        StoreError::RowNotFound => AuthenticateDeviceError::DeviceNotFound(
            "Unable to find the corresponding device in the system",
        ),
        _ => AuthenticateDeviceError::InternalServerError,
    }
}

/// The cache entry of a stored device: its stored key must be UTF-8.
pub fn auth_cache_of(device_id: i32, secret_access_key: &Vec<u8>, salt: String) -> (r: Result<DeviceAuthCache, AuthenticateDeviceError>)
    ensures
        match utf8_text(secret_access_key@) {
            Some(text) => r matches Ok(c) && c.device_id == device_id && c.secret_access_key@ == text
                && c.secret_access_key_salt@ == salt@,
            None => r matches Err(e) && e is InternalServerError,
        },
{
    match decode_utf8(secret_access_key.as_slice()) {
        Some(text) => Ok(DeviceAuthCache { device_id, secret_access_key: text, secret_access_key_salt: salt }),
        None => Err(AuthenticateDeviceError::InternalServerError),
    }
}

/// What checking a secret key against cached credentials gives: the
/// device when the Argon2 hash of the key with the cached salt is the cached
/// hash, a refusal when it is another hash, an internal error when the salt
/// cannot be hashed with.
pub open spec fn authentication_outcome(secret_access_key: Seq<char>, cache: DeviceAuthCache) -> Result<i32, AuthenticateDeviceError> {
    match argon2_phc(secret_access_key, cache.secret_access_key_salt@) {
        Some(h) => if h == cache.secret_access_key@ {
            Ok(cache.device_id)
        } else {
            Err(AuthenticateDeviceError::AuthenticationFailed("Authentication failed"))
        },
        None => Err(AuthenticateDeviceError::InternalServerError),
    }
}

/// Checks a device's secret key against its cached credentials.
pub fn authenticate_device(secret_access_key: &str, cache: &DeviceAuthCache) -> (r: Result<i32, AuthenticateDeviceError>)
    ensures
        r == authentication_outcome(secret_access_key@, *cache),
{
    let hash = match hash_password(secret_access_key, cache.secret_access_key_salt.as_str()) {
        Some(h) => h,
        None => return Err(AuthenticateDeviceError::InternalServerError),
    };
    if crate::text::str_eq(hash.as_str(), cache.secret_access_key.as_str()) {
        Ok(cache.device_id)
    } else {
        Err(AuthenticateDeviceError::AuthenticationFailed("Authentication failed"))
    }
}

/// A device created with some secret key authenticates with that key: the
/// cache entry built from what was stored for it accepts the key handed
/// out, and names the stored device.
pub proof fn law_created_device_authenticates(p: PreparedDevice, params: CreateDeviceParams, cache: DeviceAuthCache)
    requires
        prepared_for(p, params),
        cache.secret_access_key@ == p.insert.secret_access_key@,
        cache.secret_access_key_salt@ == p.insert.secret_access_key_salt@,
    ensures
        authentication_outcome(p.secret_access_key@, cache) == Ok::<i32, AuthenticateDeviceError>(cache.device_id),
{
}


/// The device list's query string; page and size are optional.
#[derive(Debug)]
pub struct ListDeviceQueryParams {
    pub page: Option<i32>,
    pub limit: Option<i32>,
    pub query: Option<String>,
    pub building_id: Option<i32>,
    pub floor_id: Option<i32>,
}

/// The list request a query string makes: page 1 and 25 devices a page
/// unless the query says otherwise; the filters pass through.
pub fn list_device_params(q: ListDeviceQueryParams) -> (r: ListDeviceParams)
    ensures
        r.page == (match q.page {
            Some(p) => p,
            None => 1,
        }),
        r.limit == (match q.limit {
            Some(l) => l,
            None => 25,
        }),
        r.query == q.query,
        r.building_id == q.building_id,
        r.floor_id == q.floor_id,
{
    let page = match q.page {
        Some(p) => p,
        None => 1,
    };
    let limit = match q.limit {
        Some(l) => l,
        None => 25,
    };
    ListDeviceParams { page, limit, query: q.query, building_id: q.building_id, floor_id: q.floor_id }
}

/// One device of the device list response.
#[derive(Debug)]
pub struct ListDeviceContent {
    pub id: i32,
    pub name: String,
    pub location: String,
    pub description: String,
}

/// The device list response.
#[derive(Debug)]
pub struct ListDeviceResponse {
    pub count: i32,
    pub total_pages: i32,
    pub has_next: bool,
    pub contents: Vec<ListDeviceContent>,
}

/// The response for a page of devices: the page summary and, for each
/// device in order, its id, name, location and description.
pub fn list_device_response(page: &PaginationResult<Device>) -> (r: ListDeviceResponse)
    ensures
        r.count == page.count,
        r.total_pages == page.total_pages,
        r.has_next == page.has_next,
        r.contents@.len() == page.contents@.len(),
        forall|i: int| 0 <= i < page.contents@.len() ==> {
            let c = #[trigger] r.contents@[i];
            let d = page.contents@[i];
            c.id == d.id && c.name@ == d.name@ && c.location@ == d.location@ && c.description@ == d.description@
        },
{
    let mut contents: Vec<ListDeviceContent> = Vec::new();
    let n = page.contents.len();
    let mut i: usize = 0;
    while i < n
        invariant
            n == page.contents@.len(),
            i <= n,
            contents@.len() == i,
            forall|k: int| 0 <= k < i ==> {
                let c = #[trigger] contents@[k];
                let d = page.contents@[k];
                c.id == d.id && c.name@ == d.name@ && c.location@ == d.location@ && c.description@ == d.description@
            },
        decreases n - i,
    {
        let d = &page.contents[i];
        contents.push(
            ListDeviceContent {
                id: d.id,
                name: d.name.clone(),
                location: d.location.clone(),
                description: d.description.clone(),
            },
        );
        i = i + 1;
    }
    ListDeviceResponse { count: page.count, total_pages: page.total_pages, has_next: page.has_next, contents }
}

/// Everything stored about one device.
#[derive(Debug)]
pub struct DeviceDetail {
    pub id: i32,
    pub name: String,
    pub location: String,
    pub floor_id: i32,
    pub building_id: i32,
    pub description: String,
    pub active_announcements: i32,
    pub access_key_id: String,
    pub secret_access_key: Vec<u8>,
    pub secret_access_key_salt: String,
    pub created_at: Timestamp,
    pub updated_at: Timestamp,
}

/// Whether an instant can be written by chrono.
pub open spec fn writable(t: Timestamp) -> bool {
    MIN_TIMESTAMP <= t.secs <= MAX_TIMESTAMP && t.nanos < 1_000_000_000
}

/// What a device is told about itself.
#[derive(Debug)]
pub struct DeviceDetailResponse {
    pub id: i32,
    pub access_key_id: String,
    pub name: String,
    pub location: String,
    pub floor_id: i32,
    pub building_id: i32,
    pub description: String,
    pub active_announcements: i32,
    pub created_at: String,
    pub updated_at: String,
}

/// The response describing a device to itself: its stored fields but the
/// secret, with both instants written in RFC 3339.
pub fn device_detail_response(d: &DeviceDetail) -> (r: DeviceDetailResponse)
    requires
        writable(d.created_at),
        writable(d.updated_at),
    ensures
        r.id == d.id,
        r.access_key_id@ == d.access_key_id@,
        r.name@ == d.name@,
        r.location@ == d.location@,
        r.floor_id == d.floor_id,
        r.building_id == d.building_id,
        r.description@ == d.description@,
        r.active_announcements == d.active_announcements,
        r.created_at@ == rfc3339_text(d.created_at),
        r.updated_at@ == rfc3339_text(d.updated_at),
{
    DeviceDetailResponse {
        id: d.id,
        access_key_id: d.access_key_id.clone(),
        name: d.name.clone(),
        location: d.location.clone(),
        floor_id: d.floor_id,
        building_id: d.building_id,
        description: d.description.clone(),
        active_announcements: d.active_announcements,
        created_at: format_rfc3339(d.created_at),
        updated_at: format_rfc3339(d.updated_at),
    }
}

/// The body of a device creation request.
#[derive(Debug)]
pub struct CreateDeviceBody {
    pub name: String,
    pub description: String,
    pub floor_id: i32,
    pub is_linked: bool,
}

/// The response to a device creation.
#[derive(Debug)]
pub struct CreateDeviceResponse {
    pub id: i32,
}

/// The body of a device update request.
#[derive(Debug)]
pub struct UpdateDeviceBody {
    pub name: String,
    pub description: String,
    pub floor_id: i32,
}

/// The credentials a device links itself with.
#[derive(Debug)]
pub struct LinkDeviceBody {
    pub access_key_id: String,
    pub secret_access_key: String,
}


/// The checks a device creation body fails, in field order: a name, a
/// description, and a floor id of at least 1.
pub open spec fn create_device_body_errors_spec(name: Seq<char>, description: Seq<char>, floor_id: i32) -> Seq<Seq<char>> {
    let a: Seq<Seq<char>> = if name.len() == 0 { seq!["name: name must not be empty"@] } else { Seq::empty() };
    let b: Seq<Seq<char>> = if description.len() == 0 {
        a.push("description: description must not be empty"@)
    } else {
        a
    };
    if floor_id < 1 { b.push("floorId: id must be greater than 1"@) } else { b }
}

/// The checks a device creation body fails.
pub fn create_device_body_errors(body: &CreateDeviceBody) -> (r: Vec<String>)
    ensures
        r.deep_view() == create_device_body_errors_spec(body.name@, body.description@, body.floor_id),
{
    let mut v: Vec<String> = Vec::new();
    if body.name.as_str().unicode_len() == 0 {
        v.push(String::from_str("name: name must not be empty"));
    }
    if body.description.as_str().unicode_len() == 0 {
        v.push(String::from_str("description: description must not be empty"));
    }
    if body.floor_id < 1 {
        v.push(String::from_str("floorId: id must be greater than 1"));
    }
    proof {
        assert(v.deep_view() =~= create_device_body_errors_spec(body.name@, body.description@, body.floor_id));
    }
    v
}
} // verus!
