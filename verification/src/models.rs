use vstd::prelude::*;

verus! {

// Timestamps throughout the model are UTC instants counted in microseconds.

/// Worker that performs file removal on behalf of the storage reaper.
pub struct FileExecutor {}

/// Request asking the file worker to unlink one recording from disk.
pub struct RemoveFile {
    /// absolute path of the file to remove
    pub path: String,
}

/// An administrative bundle of cameras sharing one storage directory and
/// one storage budget.
#[derive(Clone, Debug, PartialEq)]
pub struct CameraGroup {
    /// camera group id
    pub id: i32,
    /// camera group name
    pub name: String,
    /// absolute directory recordings are written under
    pub storage_path: String,
    /// storage budget, expressed in megabytes
    pub max_storage_size: i64,
    /// insertion time, UTC microseconds
    pub inserted_at: i64,
    /// update time, UTC microseconds
    pub updated_at: i64,
}

impl CameraGroup {
    /// A camera group never carries a negative budget.
    pub open spec fn wf(self) -> bool {
        self.max_storage_size >= 0
    }
}

/// Request to create a camera group.
#[derive(Clone, Debug, PartialEq)]
pub struct CreateCameraGroup {
    /// camera group name
    pub name: String,
    /// absolute directory recordings are written under
    pub storage_path: String,
    /// storage budget, expressed in megabytes
    pub max_storage_size: i64,
}

/// Request to update an existing camera group; absent fields keep their
/// stored value.
#[derive(Clone, Debug, PartialEq)]
pub struct UpdateCameraGroup {
    /// id of camera group to update
    pub id: i32,
    /// if present, new name
    pub name: Option<String>,
    /// if present, new storage directory
    pub storage_path: Option<String>,
    /// if present, new budget in megabytes
    pub max_storage_size: Option<i64>,
}

/// Request to fetch one camera group.
#[derive(Clone, Copy, Debug, PartialEq, Eq, Structural)]
pub struct FetchCameraGroup {
    /// id of camera group to fetch
    pub id: i32,
}

/// Request to fetch every camera group.
pub struct FetchAllCameraGroup {}

/// Request to fetch every camera group together with its cameras.
pub struct FetchAllCameraGroupAndCameras {}

/// A camera group paired with the cameras it owns.
#[derive(Clone, Debug, PartialEq)]
pub struct CameraGroupAndCameras(pub CameraGroup, pub Vec<Camera>);

/// Request for the oldest recordings of a group, together with the
/// group's budget and current usage.
#[derive(Clone, Copy, Debug, PartialEq, Eq, Structural)]
pub struct FetchCameraGroupFiles {
    /// id of the camera group
    pub camera_group_id: i32,
    /// maximum number of files to return
    pub count: i64,
}

/// One IP camera.
#[derive(Clone, Debug, PartialEq)]
pub struct Camera {
    /// camera id
    pub id: i32,
    /// id of the owning camera group
    pub camera_group_id: i32,
    /// display name
    pub name: String,
    /// ip address, e.g. 192.168.0.53
    pub ip: String,
    /// port used for the ONVIF protocol
    pub onvif_port: i32,
    /// MAC address, e.g. 9C-84-AE-0E-33-5A
    pub mac: String,
    /// username for ONVIF and RTSP authentication
    pub username: String,
    /// password for ONVIF and RTSP authentication
    pub password: String,
    /// url of the rtsp stream
    pub rtsp_url: String,
    /// ptz type, either onvif or onvif_continuous
    pub ptz_type: String,
    /// ONVIF profile token for ptz
    pub ptz_profile_token: String,
    /// whether capture is enabled for this camera
    pub enabled: bool,
    /// insertion time, UTC microseconds
    pub inserted_at: i64,
    /// update time, UTC microseconds
    pub updated_at: i64,
}

/// Request to create a camera.
#[derive(Clone, Debug, PartialEq)]
pub struct CreateCamera {
    /// id of the owning camera group
    pub camera_group_id: i32,
    /// display name
    pub name: String,
    /// ip address
    pub ip: String,
    /// port used for the ONVIF protocol
    pub onvif_port: i32,
    /// MAC address
    pub mac: String,
    /// username for ONVIF and RTSP authentication
    pub username: String,
    /// password for ONVIF and RTSP authentication
    pub password: String,
    /// url of the rtsp stream
    pub rtsp_url: String,
    /// ptz type, either onvif or onvif_continuous
    pub ptz_type: String,
    /// ONVIF profile token for ptz
    pub ptz_profile_token: String,
    /// whether capture is enabled
    pub enabled: bool,
}

/// Request to update a camera; absent fields keep their stored value.
#[derive(Clone, Debug, PartialEq)]
pub struct UpdateCamera {
    /// id of camera to update
    pub id: i32,
    /// if present, new owning group
    pub camera_group_id: Option<i32>,
    /// if present, new name
    pub name: Option<String>,
    /// if present, new ip address
    pub ip: Option<String>,
    /// if present, new onvif port
    pub onvif_port: Option<i32>,
    /// if present, new MAC address
    pub mac: Option<String>,
    /// if present, new username
    pub username: Option<String>,
    /// if present, new password
    pub password: Option<String>,
    /// if present, new rtsp url
    pub rtsp_url: Option<String>,
    /// if present, new ptz type
    pub ptz_type: Option<String>,
    /// if present, new ptz profile token
    pub ptz_profile_token: Option<String>,
    /// if present, new enabled state
    pub enabled: Option<bool>,
}

/// Request to fetch one camera.
#[derive(Clone, Copy, Debug, PartialEq, Eq, Structural)]
pub struct FetchCamera {
    /// id of the camera
    pub id: i32,
}

/// Request to fetch every camera.
pub struct FetchAllCamera {}

/// A video unit as returned by the query api.
#[derive(Clone, Debug, PartialEq)]
pub struct OutputVideoUnit {
    /// id of video unit
    pub id: i32,
    /// id of the recording camera
    pub camera_id: i32,
    /// per-camera strictly increasing segment counter
    pub monotonic_index: i32,
    /// begin time, UTC microseconds
    pub begin_time: i64,
    /// end time, UTC microseconds
    pub end_time: i64,
    /// insertion time, UTC microseconds
    pub inserted_at: i64,
    /// update time, UTC microseconds
    pub updated_at: i64,
    /// video files belonging to this unit
    pub files: Vec<VideoFile>,
}

/// One contiguous recorded segment.
#[derive(Clone, Debug, PartialEq)]
pub struct VideoUnit {
    /// id of video unit
    pub id: i32,
    /// id of the recording camera
    pub camera_id: i32,
    /// per-camera strictly increasing segment counter
    pub monotonic_index: i32,
    /// begin time, UTC microseconds
    pub begin_time: i64,
    /// end time, UTC microseconds; provisional and equal to `begin_time`
    /// until the segment closes
    pub end_time: i64,
    /// insertion time, UTC microseconds
    pub inserted_at: i64,
    /// update time, UTC microseconds
    pub updated_at: i64,
}

impl VideoUnit {
    /// A segment never ends before it begins.
    pub open spec fn wf(self) -> bool {
        self.end_time >= self.begin_time
    }
}

/// Request to create a video unit.
#[derive(Clone, Debug, PartialEq)]
pub struct CreateVideoUnit {
    /// id of the recording camera
    pub camera_id: i32,
    /// per-camera strictly increasing segment counter
    pub monotonic_index: i32,
    /// begin time, UTC microseconds
    pub begin_time: i64,
    /// end time, UTC microseconds
    pub end_time: i64,
}

/// Request to update a video unit; absent fields keep their stored value.
#[derive(Clone, Debug, PartialEq)]
pub struct UpdateVideoUnit {
    /// id of video unit to update
    pub id: i32,
    /// if present, new camera id
    pub camera_id: Option<i32>,
    /// if present, new monotonic index
    pub monotonic_index: Option<i32>,
    /// if present, new begin time
    pub begin_time: Option<i64>,
    /// if present, new end time
    pub end_time: Option<i64>,
}

/// Request to fetch one video unit.
#[derive(Clone, Copy, Debug, PartialEq, Eq, Structural)]
pub struct FetchVideoUnit {
    /// id of video unit to fetch
    pub id: i32,
}

/// Request to fetch the video units of one camera recorded between two
/// instants.
#[derive(Clone, Copy, Debug, PartialEq, Eq, Structural)]
pub struct FetchBetweenVideoUnit {
    /// id of the camera
    pub camera_id: i32,
    /// begin time, UTC microseconds
    pub begin_time: i64,
    /// end time, UTC microseconds
    pub end_time: i64,
}

/// One on-disk recording file.
#[derive(Clone, Debug, PartialEq)]
pub struct VideoFile {
    /// id of video file
    pub id: i32,
    /// id of the owning video unit
    pub video_unit_id: i32,
    /// file path under the group's storage directory
    pub filename: String,
    /// size in bytes; -1 while the file is still being written
    pub size: i32,
    /// insertion time, UTC microseconds
    pub inserted_at: i64,
    /// update time, UTC microseconds
    pub updated_at: i64,
}

/// Request to create a video file row.
#[derive(Clone, Debug, PartialEq)]
pub struct CreateVideoFile {
    /// id of the owning video unit
    pub video_unit_id: i32,
    /// file path
    pub filename: String,
    /// size in bytes, -1 while unknown
    pub size: i32,
}

/// Request to update a video file row; absent fields keep their value.
#[derive(Clone, Debug, PartialEq)]
pub struct UpdateVideoFile {
    /// id of video file to update
    pub id: i32,
    /// if present, new owning video unit
    pub video_unit_id: Option<i32>,
    /// if present, new file path
    pub filename: Option<String>,
    /// if present, new size in bytes
    pub size: Option<i32>,
}

/// Request to insert a fresh video unit and its file in one transaction.
#[derive(Clone, Debug, PartialEq)]
pub struct CreateVideoUnitFile {
    /// id of the recording camera
    pub camera_id: i32,
    /// per-camera strictly increasing segment counter
    pub monotonic_index: i32,
    /// begin time, UTC microseconds
    pub begin_time: i64,
    /// file path of the new recording
    pub filename: String,
}

/// Request to close a video unit and record the final file size.
#[derive(Clone, Debug, PartialEq)]
pub struct UpdateVideoUnitFile {
    /// id of the video unit
    pub video_unit_id: i32,
    /// end time, UTC microseconds
    pub end_time: i64,
    /// id of the video file
    pub video_file_id: i32,
    /// final size in bytes
    pub size: i32,
}

/// Request for the oldest video unit and file pairs of a group.
#[derive(Clone, Copy, Debug, PartialEq, Eq, Structural)]
pub struct FetchOldVideoUnitFile {
    /// id of the camera group
    pub camera_group_id: i32,
    /// number of pairs to fetch
    pub count: i64,
}

/// Request to delete video units and their files.
#[derive(Clone, Debug, PartialEq)]
pub struct DeleteVideoUnitFiles {
    /// ids of video units to delete
    pub video_unit_ids: Vec<i32>,
    /// ids of video files to delete
    pub video_file_ids: Vec<i32>,
}

/// Request for video files whose size was never recorded.
pub struct FetchEmptyVideoFile;

/// A single detection emitted by an analysis worker for one frame.
#[derive(Clone, Debug, PartialEq)]
pub struct Observation {
    /// id of observation
    pub id: i64,
    /// id of the owning video unit
    pub video_unit_id: i32,
    /// offset from the beginning of the video unit, microseconds
    pub frame_offset: i64,
    /// kind of observation, e.g. person or motion
    pub tag: String,
    /// details within the tag, e.g. a name
    pub details: String,
    /// certainty score between 0 and 100
    pub score: i16,
    /// bounding box upper-left x coordinate
    pub ul_x: i16,
    /// bounding box upper-left y coordinate
    pub ul_y: i16,
    /// bounding box lower-right x coordinate
    pub lr_x: i16,
    /// bounding box lower-right y coordinate
    pub lr_y: i16,
    /// insertion time, UTC microseconds
    pub inserted_at: i64,
}

impl Observation {
    /// Scores are percentages.
    pub open spec fn wf(self) -> bool {
        0 <= self.score <= 100
    }
}

/// Request to insert one observation.
#[derive(Clone, Debug, PartialEq)]
pub struct CreateObservation {
    /// id of the owning video unit
    pub video_unit_id: i32,
    /// offset from the beginning of the video unit, microseconds
    pub frame_offset: i64,
    /// kind of observation
    pub tag: String,
    /// details within the tag
    pub details: String,
    /// certainty score between 0 and 100
    pub score: i16,
    /// bounding box upper-left x coordinate
    pub ul_x: i16,
    /// bounding box upper-left y coordinate
    pub ul_y: i16,
    /// bounding box lower-right x coordinate
    pub lr_x: i16,
    /// bounding box lower-right y coordinate
    pub lr_y: i16,
}

/// Request to insert a batch of observations.
#[derive(Clone, Debug, PartialEq)]
pub struct CreateObservations {
    /// observations to insert
    pub observations: Vec<CreateObservation>,
}

/// Request for the observations of one camera between two instants.
#[derive(Clone, Copy, Debug, PartialEq, Eq, Structural)]
pub struct FetchObservations {
    /// id of the camera
    pub camera_id: i32,
    /// begin time, inclusive, UTC microseconds
    pub begin_time: i64,
    /// end time, exclusive, UTC microseconds
    pub end_time: i64,
}

/// Request for the observations of one video unit.
#[derive(Clone, Copy, Debug, PartialEq, Eq, Structural)]
pub struct FetchObservationsByVideoUnit {
    /// id of the video unit
    pub video_unit_id: i32,
}

/// Request for one observation.
#[derive(Clone, Copy, Debug, PartialEq, Eq, Structural)]
pub struct FetchObservation {
    /// id of the observation
    pub id: i64,
}

/// One operator account.
#[derive(Clone, Debug, PartialEq)]
pub struct User {
    /// user id
    pub id: i32,
    /// username
    pub username: String,
    /// hashed password
    pub password: String,
    /// Olson timezone, e.g. America/Chicago
    pub timezone: String,
    /// insertion time, UTC microseconds
    pub inserted_at: i64,
    /// update time, UTC microseconds
    pub updated_at: i64,
}

/// An operator account with the password removed, safe to return to
/// clients.
#[derive(Clone, Debug, PartialEq)]
pub struct SlimUser {
    /// user id
    pub id: i32,
    /// username
    pub username: String,
    /// Olson timezone
    pub timezone: String,
}

impl From<User> for SlimUser {
    fn from(user: User) -> (r: Self) {
        Self { id: user.id, username: user.username, timezone: user.timezone }
    }
}

impl vstd::std_specs::convert::FromSpecImpl<User> for SlimUser {
    open spec fn obeys_from_spec() -> bool {
        true
    }

    open spec fn from_spec(user: User) -> Self {
        SlimUser { id: user.id, username: user.username, timezone: user.timezone }
    }
}

/// Request to create an operator account.
#[derive(Clone, Debug, PartialEq)]
pub struct CreateUser {
    /// username
    pub username: String,
    /// password
    pub password: String,
    /// Olson timezone
    pub timezone: String,
}

/// An analysis engine: the executable that analysis instances spawn.
#[derive(Clone, Debug, PartialEq)]
pub struct AnalysisEngine {
    /// analysis engine id
    pub id: i32,
    /// engine name
    pub name: String,
    /// engine version
    pub version: String,
    /// executable name of the engine
    pub entry_point: String,
    /// insertion time, UTC microseconds
    pub inserted_at: i64,
    /// update time, UTC microseconds
    pub updated_at: i64,
}

/// Request to create an analysis engine.
#[derive(Clone, Debug, PartialEq)]
pub struct CreateAnalysisEngine {
    /// engine name
    pub name: String,
    /// engine version
    pub version: String,
    /// executable name of the engine
    pub entry_point: String,
}

/// Request to fetch an analysis engine.
#[derive(Clone, Copy, Debug, PartialEq, Eq, Structural)]
pub struct FetchAnalysisEngine {
    /// id of the engine
    pub id: i32,
}

/// Request to update an analysis engine; absent fields keep their value.
#[derive(Clone, Debug, PartialEq)]
pub struct UpdateAnalysisEngine {
    /// id of the engine
    pub id: i32,
    /// if present, new name
    pub name: Option<String>,
    /// if present, new version
    pub version: Option<String>,
    /// if present, new executable name
    pub entry_point: Option<String>,
}

/// Request to delete an analysis engine.
#[derive(Clone, Copy, Debug, PartialEq, Eq, Structural)]
pub struct DeleteAnalysisEngine {
    /// id of the engine
    pub id: i32,
}

/// Request to create an analysis instance.
#[derive(Clone, Debug, PartialEq)]
pub struct CreateAnalysisInstanceModel {
    /// id of the owning analysis engine
    pub analysis_engine_id: i32,
    /// instance name
    pub name: String,
    /// maximum frames per second fed to the instance
    pub max_fps: i32,
    /// whether the instance is enabled
    pub enabled: bool,
    /// frame sources the instance subscribes to
    pub subscriptions: Vec<AnalysisSubscriptionModel>,
}

/// Request to fetch an analysis instance.
#[derive(Clone, Copy, Debug, PartialEq, Eq, Structural)]
pub struct FetchAnalysisInstanceModel {
    /// id of the instance
    pub id: i32,
}

/// Request to fetch every analysis engine and instance.
pub struct FetchAllAnalysisModel {}

/// Request to update an analysis instance; absent fields keep their
/// value.
#[derive(Clone, Debug, PartialEq)]
pub struct UpdateAnalysisInstanceModel {
    /// id of the instance
    pub id: i32,
    /// if present, new owning engine
    pub analysis_engine_id: Option<i32>,
    /// if present, new name
    pub name: Option<String>,
    /// if present, new frame-rate cap
    pub max_fps: Option<i32>,
    /// if present, new enabled state
    pub enabled: Option<bool>,
    /// if present, new subscriptions
    pub subscriptions: Option<Vec<AnalysisSubscriptionModel>>,
}

/// Row-level changeset for an analysis instance update.
#[derive(Clone, Debug, PartialEq)]
pub struct AnalysisInstanceChangeset {
    /// id of the instance
    pub id: i32,
    /// if present, new owning engine
    pub analysis_engine_id: Option<i32>,
    /// if present, new name
    pub name: Option<String>,
    /// if present, new frame-rate cap
    pub max_fps: Option<i32>,
    /// if present, new enabled state
    pub enabled: Option<bool>,
}

/// Request to delete an analysis instance.
#[derive(Clone, Copy, Debug, PartialEq, Eq, Structural)]
pub struct DeleteAnalysisInstanceModel {
    /// id of the instance
    pub id: i32,
}

/// One analysis instance: a configured run of an analysis engine.
#[derive(Clone, Debug, PartialEq)]
pub struct AnalysisInstanceModel {
    /// analysis instance id
    pub id: i32,
    /// id of the owning analysis engine
    pub analysis_engine_id: i32,
    /// instance name
    pub name: String,
    /// maximum frames per second fed to the instance
    pub max_fps: i32,
    /// whether the instance is enabled
    pub enabled: bool,
    /// frame sources the instance subscribes to
    pub subscriptions: Vec<AnalysisSubscriptionModel>,
}

/// One subscription of an analysis instance to a frame source.
#[derive(Clone, Debug, PartialEq)]
pub struct AnalysisSubscriptionModel {
    /// source of frames
    pub source: crate::ws_camera_server::FrameSource,
    /// regions blanked before frames reach the engine
    pub masks: Vec<SubscriptionMask>,
}

/// A rectangle blanked out of subscribed frames.
#[derive(Clone, Copy, Debug, PartialEq, Eq, Structural)]
pub struct SubscriptionMask {
    /// upper-left x
    pub ul_x: i16,
    /// upper-left y
    pub ul_y: i16,
    /// lower-right x
    pub lr_x: i16,
    /// lower-right y
    pub lr_y: i16,
}

/// An alert rule row: matches observations and names the notifier that
/// delivers the resulting alerts.
#[derive(Clone, Debug, PartialEq)]
pub struct AlertRule {
    /// alert rule id
    pub id: i32,
    /// rule name
    pub name: String,
    /// analysis instance whose observations this rule watches
    pub analysis_instance_id: i32,
    /// tag an observation must carry
    pub tag: String,
    /// details an observation must carry
    pub details: String,
    /// minimum triggering score, 0 to 100
    pub min_score: i16,
    /// number of clustered observations needed before an alert fires
    pub min_cluster_size: i16,
    /// minimum time between alerts of one rule and camera, microseconds
    pub cool_down_time: i64,
    /// id of the notifier that delivers the alert
    pub notifier_id: i32,
    /// insertion time, UTC microseconds
    pub inserted_at: i64,
    /// update time, UTC microseconds
    pub updated_at: i64,
    /// topic the notification is sent under
    pub notification_topic: String,
}

/// Scope row binding an alert rule to one camera.
#[derive(Clone, Copy, Debug, PartialEq, Eq, Structural)]
pub struct AlertRuleCamera {
    /// scope row id
    pub id: i32,
    /// id of the alert rule
    pub alert_rule_id: i32,
    /// id of the camera in scope
    pub camera_id: i32,
}

/// An alert rule together with the ids of the cameras it is scoped to.
/// An empty scope means the rule applies to every camera.
#[derive(Clone, Debug, PartialEq)]
pub struct AlertRuleModel(
    /// the rule row
    pub AlertRule,
    /// ids of cameras in scope; empty means all
    pub Vec<i32>,
);

impl AlertRuleModel {
    /// The rule row.
    pub fn rule(&self) -> (r: &AlertRule)
        ensures
            *r == self.0,
    {
        &self.0
    }

    /// Whether `camera_id` is within this rule's camera scope.
    pub open spec fn spec_matches_camera_id(self, camera_id: i32) -> bool {
        self.1@.len() == 0 || self.1@.contains(camera_id)
    }

    /// Returns true when the rule's camera scope is empty or names
    /// `camera_id`.
    pub fn matches_camera_id(&self, camera_id: i32) -> (r: bool)
        ensures
            r == self.spec_matches_camera_id(camera_id),
    {
        if self.1.len() == 0 {
            return true;
        }
        let mut i: usize = 0;
        while i < self.1.len()
            invariant
                i <= self.1@.len(),
                forall|j: int| 0 <= j < i ==> self.1@[j] != camera_id,
            decreases self.1@.len() - i,
        {
            if self.1[i] == camera_id {
                return true;
            }
            i = i + 1;
        }
        false
    }

    /// Whether this rule matches an observation seen on `camera_id`:
    /// the tag and details are equal, the score reaches `min_score`,
    /// and the camera is in scope.
    pub open spec fn spec_matches(self, camera_id: i32, obs: Observation) -> bool {
        &&& obs.tag@ == self.0.tag@
        &&& obs.details@ == self.0.details@
        &&& obs.score >= self.0.min_score
        &&& self.spec_matches_camera_id(camera_id)
    }

    /// The rule predicate: true exactly when every component predicate
    /// holds — equal tag, equal details, sufficient score, camera in
    /// scope.  The score comparison against `min_score` is part of the
    /// documented predicate and is always applied.
    pub fn matches_observation(&self, camera_id: i32, obs: &Observation) -> (r: bool)
        ensures
            r == self.spec_matches(camera_id, *obs),
    {
        let tag_ok: bool = obs.tag == self.0.tag;
        let details_ok: bool = obs.details == self.0.details;
        let score_ok: bool = obs.score >= self.0.min_score;
        let camera_ok: bool = self.matches_camera_id(camera_id);
        tag_ok && details_ok && score_ok && camera_ok
    }
}

/// Request to create an alert rule together with its camera scope rows.
#[derive(Clone, Debug, PartialEq)]
pub struct CreateAlertRule {
    /// rule name
    pub name: String,
    /// analysis instance whose observations this rule watches
    pub analysis_instance_id: i32,
    /// ids of cameras in scope; empty means all
    pub camera_ids: Vec<i32>,
    /// tag an observation must carry
    pub tag: String,
    /// details an observation must carry
    pub details: String,
    /// number of clustered observations needed before an alert fires
    pub min_cluster_size: i16,
    /// minimum time between alerts of one rule and camera, microseconds
    pub cool_down_time: i64,
    /// id of the notifier that delivers the alert
    pub notifier_id: i32,
    /// topic the notification is sent under
    pub notification_topic: String,
}

/// Request to delete an alert rule.
#[derive(Clone, Copy, Debug, PartialEq, Eq, Structural)]
pub struct DeleteAlertRule {
    /// id of the rule
    pub id: i32,
}

/// Request to fetch every alert rule with its camera scope.
pub struct FetchAllAlertRule {}

/// An outbound delivery endpoint for alerts.
#[derive(Clone, Debug, PartialEq)]
pub struct Notifier {
    /// notifier id
    pub id: i32,
    /// notifier name
    pub name: String,
    /// hostname of the delivery service
    pub hostname: String,
    /// port of the delivery service
    pub port: i32,
    /// service account username
    pub username: Option<String>,
    /// service account password
    pub password: Option<String>,
    /// insertion time, UTC microseconds
    pub inserted_at: i64,
    /// update time, UTC microseconds
    pub updated_at: i64,
}

/// Request to create a notifier.
#[derive(Clone, Debug, PartialEq)]
pub struct CreateNotifier {
    /// notifier name
    pub name: String,
    /// hostname of the delivery service
    pub hostname: String,
    /// port of the delivery service
    pub port: i32,
    /// service account username
    pub username: Option<String>,
    /// service account password
    pub password: Option<String>,
}

/// Request to delete a notifier.
#[derive(Clone, Copy, Debug, PartialEq, Eq, Structural)]
pub struct DeleteNotifier {
    /// id of the notifier
    pub id: i32,
}

/// Request to fetch every notifier.
pub struct FetchAllNotifier {}

/// A time window given by a query: begin exclusive, end inclusive.
#[derive(Clone, Copy, Debug, PartialEq, Eq, Structural)]
pub struct DateRange {
    /// end time, inclusive, UTC microseconds
    pub end_time: i64,
    /// begin time, exclusive, UTC microseconds
    pub begin_time: i64,
}

} // verus!
