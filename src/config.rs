//! Configuration of the bridge: the configuration resource, its whitelist of users and the
//! modifier for the bridge's configuration.
use crate::codec::{
    bool_field, date_time_field, is_field_error, opt_date_time, opt_date_time_field,
    opt_string_view, opt_text, opt_text_field, record_field, req_bool, req_date_time, req_text,
    req_token, req_uint, sentinel_date_time, sentinel_date_time_field, sentinel_text,
    sentinel_text_field, sentinel_time, sentinel_time_field, text_field, token_field, uint_field,
    DateTime, DecodeError, Time, WireToken,
};
use crate::json::{
    entries_of, field, is_object_of, member, new_entries, put_member, text_eq, text_wire, Json, WireValue,
};
use vstd::prelude::*;

verus! {

/// Configuration of the bridge.
#[derive(Clone, Debug, PartialEq, Eq)]
pub struct Config {
    /// Name of the bridge.
    pub name: String,
    /// Software updates of the bridge.
    pub software_update: SoftwareUpdate,
    /// Software version of the bridge.
    pub software_version: String,
    /// Version of the bridge's API.
    pub api_version: String,
    /// Whether the link button was pressed within the last 30 seconds.
    pub link_button: bool,
    /// IP address of the bridge, as text.
    pub ip_address: String,
    /// MAC address of the bridge.
    pub mac_address: String,
    /// Network mask of the bridge.
    pub netmask: String,
    /// IP address of the gateway, as text.
    pub gateway: String,
    /// Whether the bridge obtains its IP address with DHCP.
    pub dhcp: bool,
    /// Whether the bridge synchronizes data with a portal account.
    pub portal_services: bool,
    /// Status of the portal connection.
    pub portal_connection: ServiceStatus,
    /// Portal state of the bridge.
    pub portal_state: PortalState,
    /// Internet services of the bridge.
    pub internet_services: InternetServices,
    /// Current time stored on the bridge, in UTC.
    pub current_time: DateTime,
    /// Local time of the bridge; `"none"` on the wire when unknown.
    pub local_time: Option<DateTime>,
    /// Time zone of the bridge; `"none"` on the wire when unset.
    pub timezone: Option<String>,
    /// Wireless frequency channel: 11, 15, 20, 25, or 0 when undefined.
    pub zigbee_channel: u8,
    /// Hardware model of the bridge.
    pub model_id: String,
    /// Unique identifier of the bridge.
    pub bridge_id: String,
    /// Whether the bridge settings are factory new.
    pub factory_new: bool,
    /// Identifier of the bridge whose backup was restored, if any.
    pub replaces_bridge_id: Option<String>,
    /// Version of the datastore.
    pub datastore_version: String,
    /// Name of the starter kit created in the factory.
    pub starterkit_id: String,
    /// Backup information of the bridge.
    pub backup: Backup,
    /// Whitelisted users.
    pub whitelist: Vec<User>,
}

/// Whether `x` is what the payload `j` describes, member by member.
pub open spec fn config_matches(x: Config, j: Json) -> bool {
    &&& req_text(j, "name"@) == Some(x.name@)
    &&& match field(j, "swupdate2"@) { Some(v) => software_update_matches(x.software_update, v), None => false }
    &&& req_text(j, "swversion"@) == Some(x.software_version@)
    &&& req_text(j, "apiversion"@) == Some(x.api_version@)
    &&& req_bool(j, "linkbutton"@) == Some(x.link_button)
    &&& req_text(j, "ipaddress"@) == Some(x.ip_address@)
    &&& req_text(j, "mac"@) == Some(x.mac_address@)
    &&& req_text(j, "netmask"@) == Some(x.netmask@)
    &&& req_text(j, "gateway"@) == Some(x.gateway@)
    &&& req_bool(j, "dhcp"@) == Some(x.dhcp)
    &&& req_bool(j, "portalservices"@) == Some(x.portal_services)
    &&& req_token::<ServiceStatus>(j, "portalconnection"@) == Some(x.portal_connection)
    &&& match field(j, "portalstate"@) { Some(v) => portal_state_matches(x.portal_state, v), None => false }
    &&& match field(j, "internetservices"@) { Some(v) => internet_services_matches(x.internet_services, v), None => false }
    &&& req_date_time(j, "UTC"@) == Some(x.current_time)
    &&& sentinel_date_time(j, "localtime"@) == Some(x.local_time)
    &&& sentinel_text(j, "timezone"@) == Some(opt_string_view(x.timezone))
    &&& req_uint(j, "zigbeechannel"@, 255) == Some(x.zigbee_channel as int)
    &&& req_text(j, "modelid"@) == Some(x.model_id@)
    &&& req_text(j, "bridgeid"@) == Some(x.bridge_id@)
    &&& req_bool(j, "factorynew"@) == Some(x.factory_new)
    &&& opt_text(j, "replacesbridgeid"@) == Some(opt_string_view(x.replaces_bridge_id))
    &&& req_text(j, "datastoreversion"@) == Some(x.datastore_version@)
    &&& req_text(j, "starterkitid"@) == Some(x.starterkit_id@)
    &&& match field(j, "backup"@) { Some(v) => backup_matches(x.backup, v), None => false }
    &&& match field(j, "whitelist"@) { Some(v) => users_match(x.whitelist@, v), None => false }
}

impl Config {
    /// Decodes the payload of the bridge's configuration; it fails when any member is missing or malformed.
    pub fn decode(j: &Json) -> (r: Result<Config, DecodeError>)
        ensures
            match r {
                Ok(x) => config_matches(x, *j),
                Err(_) => forall|x: Config| !#[trigger] config_matches(x, *j),
            },
    {
        let name = text_field(j, "name")?;
        let software_update = SoftwareUpdate::decode(record_field(j, "swupdate2")?)?;
        let software_version = text_field(j, "swversion")?;
        let api_version = text_field(j, "apiversion")?;
        let link_button = bool_field(j, "linkbutton")?;
        let ip_address = text_field(j, "ipaddress")?;
        let mac_address = text_field(j, "mac")?;
        let netmask = text_field(j, "netmask")?;
        let gateway = text_field(j, "gateway")?;
        let dhcp = bool_field(j, "dhcp")?;
        let portal_services = bool_field(j, "portalservices")?;
        let portal_connection = token_field::<ServiceStatus>(j, "portalconnection")?;
        let portal_state = PortalState::decode(record_field(j, "portalstate")?)?;
        let internet_services = InternetServices::decode(record_field(j, "internetservices")?)?;
        let current_time = date_time_field(j, "UTC")?;
        let local_time = sentinel_date_time_field(j, "localtime")?;
        let timezone = sentinel_text_field(j, "timezone")?;
        let zigbee_channel = uint_field(j, "zigbeechannel", 255)? as u8;
        let model_id = text_field(j, "modelid")?;
        let bridge_id = text_field(j, "bridgeid")?;
        let factory_new = bool_field(j, "factorynew")?;
        let replaces_bridge_id = opt_text_field(j, "replacesbridgeid")?;
        let datastore_version = text_field(j, "datastoreversion")?;
        let starterkit_id = text_field(j, "starterkitid")?;
        let backup = Backup::decode(record_field(j, "backup")?)?;
        let whitelist = decode_users(record_field(j, "whitelist")?)?;
        Ok(Config { name, software_update, software_version, api_version, link_button, ip_address, mac_address, netmask, gateway, dhcp, portal_services, portal_connection, portal_state, internet_services, current_time, local_time, timezone, zigbee_channel, model_id, bridge_id, factory_new, replaces_bridge_id, datastore_version, starterkit_id, backup, whitelist })
    }
}

/// Software updates of the bridge.
#[derive(Clone, Copy, Debug, PartialEq, Eq)]
pub struct SoftwareUpdate {
    /// State of the software updates.
    pub state: SoftwareUpdateState,
    /// Whether a check for updates was triggered.
    pub check: bool,
    /// Configuration of automatic updates.
    pub auto_install: SoftwareUpdateAutoInstall,
    /// Time of the last change in the system configuration.
    pub last_change: Option<DateTime>,
    /// Time of the last software update.
    pub last_install: Option<DateTime>,
}

/// Whether `x` is what the payload `j` describes, member by member.
pub open spec fn software_update_matches(x: SoftwareUpdate, j: Json) -> bool {
    &&& req_token::<SoftwareUpdateState>(j, "state"@) == Some(x.state)
    &&& req_bool(j, "checkforupdate"@) == Some(x.check)
    &&& match field(j, "autoinstall"@) { Some(v) => software_update_auto_install_matches(x.auto_install, v), None => false }
    &&& opt_date_time(j, "lastchange"@) == Some(x.last_change)
    &&& opt_date_time(j, "lastinstall"@) == Some(x.last_install)
}

impl SoftwareUpdate {
    /// Decodes the payload of the bridge's software updates; it fails when any member is missing or malformed.
    pub fn decode(j: &Json) -> (r: Result<SoftwareUpdate, DecodeError>)
        ensures
            match r {
                Ok(x) => software_update_matches(x, *j),
                Err(_) => forall|x: SoftwareUpdate| !#[trigger] software_update_matches(x, *j),
            },
    {
        let state = token_field::<SoftwareUpdateState>(j, "state")?;
        let check = bool_field(j, "checkforupdate")?;
        let auto_install = SoftwareUpdateAutoInstall::decode(record_field(j, "autoinstall")?)?;
        let last_change = opt_date_time_field(j, "lastchange")?;
        let last_install = opt_date_time_field(j, "lastinstall")?;
        Ok(SoftwareUpdate { state, check, auto_install, last_change, last_install })
    }
}

/// State of the software updates of the bridge.
#[derive(Clone, Copy, Debug, PartialEq, Eq, Structural)]
pub enum SoftwareUpdateState {
    /// The system does not know whether updates are available.
    Unkown,
    /// No updates are available.
    NoUpdates,
    /// Updates are being transferred to the devices.
    Transferring,
    /// At least one update can be installed.
    AnyReadyToInstall,
    /// All updates can be installed.
    AllReadyToInstall,
    /// A system update is being installed.
    Installing,
}

impl SoftwareUpdateState {
    /// The wire token of each variant.
    pub open spec fn spec_token(self) -> Seq<char> {
        match self {
            SoftwareUpdateState::Unkown => "unkown"@,
            SoftwareUpdateState::NoUpdates => "noupdates"@,
            SoftwareUpdateState::Transferring => "transferring"@,
            SoftwareUpdateState::AnyReadyToInstall => "anyreadytoinstall"@,
            SoftwareUpdateState::AllReadyToInstall => "allreadytoinstall"@,
            SoftwareUpdateState::Installing => "installing"@,
        }
    }

    /// Encodes the variant as its wire token.
    pub fn token(&self) -> (r: String)
        ensures
            r@ == self.spec_token(),
    {
        match self {
            SoftwareUpdateState::Unkown => "unkown".to_owned(),
            SoftwareUpdateState::NoUpdates => "noupdates".to_owned(),
            SoftwareUpdateState::Transferring => "transferring".to_owned(),
            SoftwareUpdateState::AnyReadyToInstall => "anyreadytoinstall".to_owned(),
            SoftwareUpdateState::AllReadyToInstall => "allreadytoinstall".to_owned(),
            SoftwareUpdateState::Installing => "installing".to_owned(),
        }
    }
}

impl WireToken for SoftwareUpdateState {
    /// The variant that a wire token stands for; nothing for an unknown token.
    open spec fn spec_from_token(s: Seq<char>) -> Option<SoftwareUpdateState> {
        if s == "unkown"@ {
            Some(SoftwareUpdateState::Unkown)
        } else if s == "noupdates"@ {
            Some(SoftwareUpdateState::NoUpdates)
        } else if s == "transferring"@ {
            Some(SoftwareUpdateState::Transferring)
        } else if s == "anyreadytoinstall"@ {
            Some(SoftwareUpdateState::AnyReadyToInstall)
        } else if s == "allreadytoinstall"@ {
            Some(SoftwareUpdateState::AllReadyToInstall)
        } else if s == "installing"@ {
            Some(SoftwareUpdateState::Installing)
        } else {
            None
        }
    }

    /// Decodes a wire token; the match is exact and case-sensitive.
    fn from_token(s: &str) -> (r: Option<SoftwareUpdateState>) {
        if text_eq(s, "unkown") {
            Some(SoftwareUpdateState::Unkown)
        } else if text_eq(s, "noupdates") {
            Some(SoftwareUpdateState::NoUpdates)
        } else if text_eq(s, "transferring") {
            Some(SoftwareUpdateState::Transferring)
        } else if text_eq(s, "anyreadytoinstall") {
            Some(SoftwareUpdateState::AnyReadyToInstall)
        } else if text_eq(s, "allreadytoinstall") {
            Some(SoftwareUpdateState::AllReadyToInstall)
        } else if text_eq(s, "installing") {
            Some(SoftwareUpdateState::Installing)
        } else {
            None
        }
    }
}

/// Each variant decodes back from its own token, and a token that decodes encodes back to
/// itself; a token outside the documented set does not decode.
pub proof fn lemma_software_update_state_tokens(v: SoftwareUpdateState, s: Seq<char>)
    ensures
        SoftwareUpdateState::spec_from_token(v.spec_token()) == Some(v),
        SoftwareUpdateState::spec_from_token(s) matches Some(w) ==> w.spec_token() == s,
        s != "unkown"@ && s != "noupdates"@ && s != "transferring"@ && s != "anyreadytoinstall"@ && s != "allreadytoinstall"@ && s != "installing"@ ==> SoftwareUpdateState::spec_from_token(s) is None,
{
    reveal_strlit("unkown");
    reveal_strlit("noupdates");
    reveal_strlit("transferring");
    reveal_strlit("anyreadytoinstall");
    reveal_strlit("allreadytoinstall");
    reveal_strlit("installing");
    assert("unkown"@.len() != "noupdates"@.len());
    assert("unkown"@.len() != "transferring"@.len());
    assert("unkown"@.len() != "anyreadytoinstall"@.len());
    assert("unkown"@.len() != "allreadytoinstall"@.len());
    assert("unkown"@.len() != "installing"@.len());
    assert("noupdates"@.len() != "transferring"@.len());
    assert("noupdates"@.len() != "anyreadytoinstall"@.len());
    assert("noupdates"@.len() != "allreadytoinstall"@.len());
    assert("noupdates"@.len() != "installing"@.len());
    assert("transferring"@.len() != "anyreadytoinstall"@.len());
    assert("transferring"@.len() != "allreadytoinstall"@.len());
    assert("transferring"@.len() != "installing"@.len());
    assert("anyreadytoinstall"@[1] != "allreadytoinstall"@[1]);
    assert("anyreadytoinstall"@.len() != "installing"@.len());
    assert("allreadytoinstall"@.len() != "installing"@.len());
}

/// Configuration of automatic updates.
#[derive(Clone, Copy, Debug, PartialEq, Eq)]
pub struct SoftwareUpdateAutoInstall {
    /// Whether automatic updates are on.
    pub on: bool,
    /// Time of day at which updates are installed; `"none"` on the wire when unset.
    pub update_time: Option<Time>,
}

/// Whether `x` is what the payload `j` describes, member by member.
pub open spec fn software_update_auto_install_matches(x: SoftwareUpdateAutoInstall, j: Json) -> bool {
    &&& req_bool(j, "on"@) == Some(x.on)
    &&& sentinel_time(j, "updatetime"@) == Some(x.update_time)
}

impl SoftwareUpdateAutoInstall {
    /// Decodes the payload of the configuration of automatic updates; it fails when any member is missing or malformed.
    pub fn decode(j: &Json) -> (r: Result<SoftwareUpdateAutoInstall, DecodeError>)
        ensures
            match r {
                Ok(x) => software_update_auto_install_matches(x, *j),
                Err(_) => forall|x: SoftwareUpdateAutoInstall| !#[trigger] software_update_auto_install_matches(x, *j),
            },
    {
        let on = bool_field(j, "on")?;
        let update_time = sentinel_time_field(j, "updatetime")?;
        Ok(SoftwareUpdateAutoInstall { on, update_time })
    }
}

/// Portal state of the bridge.
#[derive(Clone, Copy, Debug, PartialEq, Eq, Structural)]
pub struct PortalState {
    /// Whether the bridge is signed on.
    pub signedon: bool,
    /// Incoming communication.
    pub incoming: bool,
    /// Outgoing communication.
    pub outgoing: bool,
    /// Status of the communication.
    pub communication: ServiceStatus,
}

/// Whether `x` is what the payload `j` describes, member by member.
pub open spec fn portal_state_matches(x: PortalState, j: Json) -> bool {
    &&& req_bool(j, "signedon"@) == Some(x.signedon)
    &&& req_bool(j, "incoming"@) == Some(x.incoming)
    &&& req_bool(j, "outgoing"@) == Some(x.outgoing)
    &&& req_token::<ServiceStatus>(j, "communication"@) == Some(x.communication)
}

impl PortalState {
    /// Decodes the payload of the bridge's portal state; it fails when any member is missing or malformed.
    pub fn decode(j: &Json) -> (r: Result<PortalState, DecodeError>)
        ensures
            match r {
                Ok(x) => portal_state_matches(x, *j),
                Err(_) => forall|x: PortalState| !#[trigger] portal_state_matches(x, *j),
            },
    {
        let signedon = bool_field(j, "signedon")?;
        let incoming = bool_field(j, "incoming")?;
        let outgoing = bool_field(j, "outgoing")?;
        let communication = token_field::<ServiceStatus>(j, "communication")?;
        Ok(PortalState { signedon, incoming, outgoing, communication })
    }
}

/// Internet services of the bridge.
#[derive(Clone, Copy, Debug, PartialEq, Eq, Structural)]
pub struct InternetServices {
    /// Whether the bridge is connected to the internet.
    pub internet: ServiceStatus,
    /// Whether remote access is available.
    pub remote_access: ServiceStatus,
    /// Whether the time was synchronized in the last 48 hours.
    pub time: ServiceStatus,
    /// Whether the software update server was reachable in the last 24 hours.
    pub software_update: ServiceStatus,
}

/// Whether `x` is what the payload `j` describes, member by member.
pub open spec fn internet_services_matches(x: InternetServices, j: Json) -> bool {
    &&& req_token::<ServiceStatus>(j, "internet"@) == Some(x.internet)
    &&& req_token::<ServiceStatus>(j, "remoteaccess"@) == Some(x.remote_access)
    &&& req_token::<ServiceStatus>(j, "time"@) == Some(x.time)
    &&& req_token::<ServiceStatus>(j, "swupdate"@) == Some(x.software_update)
}

impl InternetServices {
    /// Decodes the payload of the bridge's internet services; it fails when any member is missing or malformed.
    pub fn decode(j: &Json) -> (r: Result<InternetServices, DecodeError>)
        ensures
            match r {
                Ok(x) => internet_services_matches(x, *j),
                Err(_) => forall|x: InternetServices| !#[trigger] internet_services_matches(x, *j),
            },
    {
        let internet = token_field::<ServiceStatus>(j, "internet")?;
        let remote_access = token_field::<ServiceStatus>(j, "remoteaccess")?;
        let time = token_field::<ServiceStatus>(j, "time")?;
        let software_update = token_field::<ServiceStatus>(j, "swupdate")?;
        Ok(InternetServices { internet, remote_access, time, software_update })
    }
}

/// Status of a service.
#[derive(Clone, Copy, Debug, PartialEq, Eq, Structural)]
pub enum ServiceStatus {
    /// The service is connected.
    Connected,
    /// The service is not connected.
    Disconnected,
}

impl ServiceStatus {
    /// The wire token of each variant.
    pub open spec fn spec_token(self) -> Seq<char> {
        match self {
            ServiceStatus::Connected => "connected"@,
            ServiceStatus::Disconnected => "disconnected"@,
        }
    }

    /// Encodes the variant as its wire token.
    pub fn token(&self) -> (r: String)
        ensures
            r@ == self.spec_token(),
    {
        match self {
            ServiceStatus::Connected => "connected".to_owned(),
            ServiceStatus::Disconnected => "disconnected".to_owned(),
        }
    }
}

impl WireToken for ServiceStatus {
    /// The variant that a wire token stands for; nothing for an unknown token.
    open spec fn spec_from_token(s: Seq<char>) -> Option<ServiceStatus> {
        if s == "connected"@ {
            Some(ServiceStatus::Connected)
        } else if s == "disconnected"@ {
            Some(ServiceStatus::Disconnected)
        } else {
            None
        }
    }

    /// Decodes a wire token; the match is exact and case-sensitive.
    fn from_token(s: &str) -> (r: Option<ServiceStatus>) {
        if text_eq(s, "connected") {
            Some(ServiceStatus::Connected)
        } else if text_eq(s, "disconnected") {
            Some(ServiceStatus::Disconnected)
        } else {
            None
        }
    }
}

/// Each variant decodes back from its own token, and a token that decodes encodes back to
/// itself; a token outside the documented set does not decode.
pub proof fn lemma_service_status_tokens(v: ServiceStatus, s: Seq<char>)
    ensures
        ServiceStatus::spec_from_token(v.spec_token()) == Some(v),
        ServiceStatus::spec_from_token(s) matches Some(w) ==> w.spec_token() == s,
        s != "connected"@ && s != "disconnected"@ ==> ServiceStatus::spec_from_token(s) is None,
{
    reveal_strlit("connected");
    reveal_strlit("disconnected");
    assert("connected"@.len() != "disconnected"@.len());
}

/// Backup information of the bridge.
#[derive(Clone, Copy, Debug, PartialEq, Eq, Structural)]
pub struct Backup {
    /// Status of backup and restore.
    pub status: BackupStatus,
    /// Source of the last internal error of the backup.
    pub error: BackupError,
}

/// Whether `x` is what the payload `j` describes, member by member.
pub open spec fn backup_matches(x: Backup, j: Json) -> bool {
    &&& req_token::<BackupStatus>(j, "status"@) == Some(x.status)
    &&& backup_error_at(j, "errorcode"@) == Some(x.error)
}

impl Backup {
    /// Decodes the payload of the bridge's backup information; it fails when any member is missing or malformed.
    pub fn decode(j: &Json) -> (r: Result<Backup, DecodeError>)
        ensures
            match r {
                Ok(x) => backup_matches(x, *j),
                Err(_) => forall|x: Backup| !#[trigger] backup_matches(x, *j),
            },
    {
        let status = token_field::<BackupStatus>(j, "status")?;
        let error = backup_error_field(j, "errorcode")?;
        Ok(Backup { status, error })
    }
}

/// Status of backup and restore.
#[derive(Clone, Copy, Debug, PartialEq, Eq, Structural)]
pub enum BackupStatus {
    /// No backup or restore is in progress.
    Idle,
    /// A file for migration is being created.
    StartMigration,
    /// A backup file is available and the bridge is disabled by a migration.
    FilereadyDisabled,
    /// A backup file was sent to the bridge and is being prepared for restoring.
    PrepareRestore,
    /// The bridge is restoring the backup file.
    Restoring,
}

impl BackupStatus {
    /// The wire token of each variant.
    pub open spec fn spec_token(self) -> Seq<char> {
        match self {
            BackupStatus::Idle => "idle"@,
            BackupStatus::StartMigration => "startmigration"@,
            BackupStatus::FilereadyDisabled => "fileready_disabled"@,
            BackupStatus::PrepareRestore => "prepare_restore"@,
            BackupStatus::Restoring => "restoring"@,
        }
    }

    /// Encodes the variant as its wire token.
    pub fn token(&self) -> (r: String)
        ensures
            r@ == self.spec_token(),
    {
        match self {
            BackupStatus::Idle => "idle".to_owned(),
            BackupStatus::StartMigration => "startmigration".to_owned(),
            BackupStatus::FilereadyDisabled => "fileready_disabled".to_owned(),
            BackupStatus::PrepareRestore => "prepare_restore".to_owned(),
            BackupStatus::Restoring => "restoring".to_owned(),
        }
    }
}

impl WireToken for BackupStatus {
    /// The variant that a wire token stands for; nothing for an unknown token.
    open spec fn spec_from_token(s: Seq<char>) -> Option<BackupStatus> {
        if s == "idle"@ {
            Some(BackupStatus::Idle)
        } else if s == "startmigration"@ {
            Some(BackupStatus::StartMigration)
        } else if s == "fileready_disabled"@ {
            Some(BackupStatus::FilereadyDisabled)
        } else if s == "prepare_restore"@ {
            Some(BackupStatus::PrepareRestore)
        } else if s == "restoring"@ {
            Some(BackupStatus::Restoring)
        } else {
            None
        }
    }

    /// Decodes a wire token; the match is exact and case-sensitive.
    fn from_token(s: &str) -> (r: Option<BackupStatus>) {
        if text_eq(s, "idle") {
            Some(BackupStatus::Idle)
        } else if text_eq(s, "startmigration") {
            Some(BackupStatus::StartMigration)
        } else if text_eq(s, "fileready_disabled") {
            Some(BackupStatus::FilereadyDisabled)
        } else if text_eq(s, "prepare_restore") {
            Some(BackupStatus::PrepareRestore)
        } else if text_eq(s, "restoring") {
            Some(BackupStatus::Restoring)
        } else {
            None
        }
    }
}

/// Each variant decodes back from its own token, and a token that decodes encodes back to
/// itself; a token outside the documented set does not decode.
pub proof fn lemma_backup_status_tokens(v: BackupStatus, s: Seq<char>)
    ensures
        BackupStatus::spec_from_token(v.spec_token()) == Some(v),
        BackupStatus::spec_from_token(s) matches Some(w) ==> w.spec_token() == s,
        s != "idle"@ && s != "startmigration"@ && s != "fileready_disabled"@ && s != "prepare_restore"@ && s != "restoring"@ ==> BackupStatus::spec_from_token(s) is None,
{
    reveal_strlit("idle");
    reveal_strlit("startmigration");
    reveal_strlit("fileready_disabled");
    reveal_strlit("prepare_restore");
    reveal_strlit("restoring");
    assert("idle"@.len() != "startmigration"@.len());
    assert("idle"@.len() != "fileready_disabled"@.len());
    assert("idle"@.len() != "prepare_restore"@.len());
    assert("idle"@.len() != "restoring"@.len());
    assert("startmigration"@.len() != "fileready_disabled"@.len());
    assert("startmigration"@.len() != "prepare_restore"@.len());
    assert("startmigration"@.len() != "restoring"@.len());
    assert("fileready_disabled"@.len() != "prepare_restore"@.len());
    assert("fileready_disabled"@.len() != "restoring"@.len());
    assert("prepare_restore"@.len() != "restoring"@.len());
}

/// Source of the last internal error of a backup, written on the wire as an integer code.
#[derive(Clone, Copy, Debug, PartialEq, Eq, Structural)]
pub enum BackupError {
    /// No internal error was detected (code 0).
    NoError,
    /// Exporting a backup failed (code 1).
    ExportFailed,
    /// Importing a backup failed (code 2).
    ImportFailed,
}

impl BackupError {
    /// The integer code of each variant.
    pub open spec fn spec_code(self) -> int {
        match self {
            BackupError::NoError => 0,
            BackupError::ExportFailed => 1,
            BackupError::ImportFailed => 2,
        }
    }

    /// The variant that an integer code stands for; nothing for an unknown code.
    pub open spec fn spec_from_code(c: int) -> Option<BackupError> {
        if c == 0 {
            Some(BackupError::NoError)
        } else if c == 1 {
            Some(BackupError::ExportFailed)
        } else if c == 2 {
            Some(BackupError::ImportFailed)
        } else {
            None
        }
    }

    /// Decodes an integer code.
    pub fn from_code(c: i64) -> (r: Option<BackupError>)
        ensures
            r == BackupError::spec_from_code(c as int),
    {
        if c == 0 {
            Some(BackupError::NoError)
        } else if c == 1 {
            Some(BackupError::ExportFailed)
        } else if c == 2 {
            Some(BackupError::ImportFailed)
        } else {
            None
        }
    }

    /// The integer code of the variant.
    pub fn code(&self) -> (r: u8)
        ensures
            r as int == self.spec_code(),
    {
        match self {
            BackupError::NoError => 0,
            BackupError::ExportFailed => 1,
            BackupError::ImportFailed => 2,
        }
    }
}

/// Each variant decodes back from its own code, and a code that decodes encodes back to
/// itself; any other code does not decode.
pub proof fn lemma_backup_error_codes(v: BackupError, c: int)
    ensures
        BackupError::spec_from_code(v.spec_code()) == Some(v),
        BackupError::spec_from_code(c) matches Some(w) ==> w.spec_code() == c,
        !(0 <= c <= 2) ==> BackupError::spec_from_code(c) is None,
{
}

/// A required member that holds a backup error code.
pub open spec fn backup_error_at(j: Json, key: Seq<char>) -> Option<BackupError> {
    match field(j, key) {
        Some(Json::Int(c)) => BackupError::spec_from_code(c as int),
        _ => None,
    }
}

/// Reads the required member `key`, which holds a backup error code.
pub fn backup_error_field(j: &Json, key: &str) -> (r: Result<BackupError, DecodeError>)
    ensures
        match r {
            Ok(v) => backup_error_at(*j, key@) == Some(v),
            Err(e) => backup_error_at(*j, key@) is None && is_field_error(e, *j, key@),
        },
{
    match j.get(key) {
        Some(Json::Int(c)) => match BackupError::from_code(*c) {
            Some(v) => Ok(v),
            None => Err(DecodeError::invalid(key)),
        },
        Some(_) => Err(DecodeError::invalid(key)),
        None => Err(DecodeError::missing(key)),
    }
}

/// A user in the bridge's whitelist.
#[derive(Clone, Debug, PartialEq, Eq)]
pub struct User {
    /// Identifier of the user.
    pub id: String,
    /// Name of the user.
    pub name: String,
    /// When the user was last used.
    pub last_use_date: DateTime,
    /// When the user was created.
    pub create_date: DateTime,
}

/// Whether `x` is what the payload `j` describes, member by member.
pub open spec fn user_matches(x: User, j: Json) -> bool {
    &&& req_text(j, "name"@) == Some(x.name@)
    &&& req_date_time(j, "last use date"@) == Some(x.last_use_date)
    &&& req_date_time(j, "create date"@) == Some(x.create_date)
}

impl User {
    /// Decodes the payload of a single user; it fails when any member is missing or malformed.
    /// The payload holds no identifier: the result's is empty.
    pub fn decode(j: &Json) -> (r: Result<User, DecodeError>)
        ensures
            match r {
                Ok(x) => user_matches(x, *j) && x.id@ == Seq::<char>::empty(),
                Err(_) => forall|x: User| !#[trigger] user_matches(x, *j),
            },
    {
        let id = String::new();
        let name = text_field(j, "name")?;
        let last_use_date = date_time_field(j, "last use date")?;
        let create_date = date_time_field(j, "create date")?;
        Ok(User { id, name, last_use_date, create_date })
    }
}

impl User {
    /// The user with its identifier set to `id`.
    pub fn with_id(self, id: String) -> (r: User)
        ensures
            r == (User { id, ..self }),
    {
        User { id, ..self }
    }
}

/// Whether `xs` are, in order, the users that the entries `es` of a collection
/// describe, each with its key as identifier.
pub open spec fn users_match_entries(xs: Seq<User>, es: Seq<(String, Json)>) -> bool {
    &&& xs.len() == es.len()
    &&& forall|i: int|
        #![trigger xs[i]]
        0 <= i < xs.len() ==> xs[i].id@ == es[i].0@ && user_matches(xs[i], es[i].1)
}

/// Decodes a collection of users: an object that maps each identifier to a payload.
/// They come in the order of the payload, each with its key as identifier; one malformed
/// entry fails the whole collection.
pub fn decode_users(j: &Json) -> (r: Result<Vec<User>, DecodeError>)
    ensures
        match r {
            Ok(xs) => j is Object && users_match_entries(xs@, entries_of(*j)),
            Err(_) => !(j is Object) || forall|xs: Seq<User>| !#[trigger] users_match_entries(xs, entries_of(*j)),
        },
{
    match j {
        Json::Object(es) => {
            let mut xs: Vec<User> = Vec::new();
            let mut i: usize = 0;
            while i < es.len()
                invariant
                    *j == Json::Object(*es),
                    i <= es@.len(),
                    users_match_entries(xs@, es@.take(i as int)),
                decreases es@.len() - i,
            {
                let x = match User::decode(&es[i].1) {
                    Ok(x) => x,
                    Err(e) => {
                        assert forall|xs: Seq<User>| !#[trigger] users_match_entries(xs, entries_of(*j)) by {
                            if users_match_entries(xs, entries_of(*j)) {
                                assert(user_matches(xs[i as int], es@[i as int].1));
                            }
                        }
                        return Err(e);
                    },
                };
                let ghost before = xs@;
                xs.push(x.with_id(es[i].0.clone()));
                assert forall|k: int| 0 <= k < xs@.len() implies #[trigger] xs@[k].id@ == es@.take(i + 1)[k].0@
                    && user_matches(xs@[k], es@.take(i + 1)[k].1) by {
                    if k < before.len() {
                        assert(xs@[k] == before[k]);
                    }
                }
                i += 1;
            }
            assert(es@.take(es@.len() as int) =~= es@);
            Ok(xs)
        },
        _ => Err(DecodeError::invalid("")),
    }
}

/// Whether `xs` are the users of the whitelist `j`.
pub open spec fn users_match(xs: Seq<User>, j: Json) -> bool {
    j is Object && users_match_entries(xs, entries_of(j))
}

/// Modifier for the configuration of the bridge.
#[derive(Clone, Debug, PartialEq, Eq)]
pub struct Modifier {
    /// Wire member `name`.
    pub name: Option<String>,
    /// Wire member `ipaddress`.
    pub ip_address: Option<String>,
    /// Wire member `netmask`.
    pub netmask: Option<String>,
    /// Wire member `gateway`.
    pub gateway: Option<String>,
    /// Wire member `dhcp`.
    pub dhcp: Option<bool>,
    /// Wire member `proxyport`.
    pub proxy_port: Option<u16>,
    /// Wire member `proxyaddress`.
    pub proxy_address: Option<String>,
    /// Wire member `linkbutton`.
    pub linkbutton: Option<bool>,
    /// Wire member `touchlink`.
    pub touchlink: Option<bool>,
    /// Wire member `zigbeechannel`.
    pub zigbee_channel: Option<u8>,
    /// Wire member `UTC`.
    pub current_time: Option<String>,
    /// Wire member `timezone`.
    pub timezone: Option<String>,
}

impl Modifier {
    /// The members that the request body holds, in order: one for each slot that is set.
    pub open spec fn wire(self) -> Seq<(Seq<char>, WireValue)> {
        member("name"@, text_wire(self.name))
            + member("ipaddress"@, text_wire(self.ip_address))
            + member("netmask"@, text_wire(self.netmask))
            + member("gateway"@, text_wire(self.gateway))
            + member("dhcp"@, match self.dhcp { Some(b) => Some(WireValue::Bool(b)), None => None })
            + member("proxyport"@, match self.proxy_port { Some(v) => Some(WireValue::Int(v as int)), None => None })
            + member("proxyaddress"@, text_wire(self.proxy_address))
            + member("linkbutton"@, match self.linkbutton { Some(b) => Some(WireValue::Bool(b)), None => None })
            + member("touchlink"@, match self.touchlink { Some(b) => Some(WireValue::Bool(b)), None => None })
            + member("zigbeechannel"@, match self.zigbee_channel { Some(v) => Some(WireValue::Int(v as int)), None => None })
            + member("UTC"@, text_wire(self.current_time))
            + member("timezone"@, text_wire(self.timezone))
    }

    /// The request body: an object with a member for each slot that is set, and no other.
    pub fn to_json(&self) -> (r: Json)
        ensures
            is_object_of(r, self.wire()),
    {
        let mut es = new_entries();
        let ghost mut w: Seq<(Seq<char>, WireValue)> = Seq::empty();
        put_member(&mut es, "name", match &self.name { Some(s) => Some(Json::Text(s.clone())), None => None }, Ghost(w), Ghost(text_wire(self.name)));
        proof {
            w = member("name"@, text_wire(self.name));
            assert(Seq::<(Seq<char>, WireValue)>::empty() + w =~= w);
        }
        put_member(&mut es, "ipaddress", match &self.ip_address { Some(s) => Some(Json::Text(s.clone())), None => None }, Ghost(w), Ghost(text_wire(self.ip_address)));
        proof {
            w = w + member("ipaddress"@, text_wire(self.ip_address));
        }
        put_member(&mut es, "netmask", match &self.netmask { Some(s) => Some(Json::Text(s.clone())), None => None }, Ghost(w), Ghost(text_wire(self.netmask)));
        proof {
            w = w + member("netmask"@, text_wire(self.netmask));
        }
        put_member(&mut es, "gateway", match &self.gateway { Some(s) => Some(Json::Text(s.clone())), None => None }, Ghost(w), Ghost(text_wire(self.gateway)));
        proof {
            w = w + member("gateway"@, text_wire(self.gateway));
        }
        put_member(&mut es, "dhcp", match self.dhcp { Some(b) => Some(Json::Bool(b)), None => None }, Ghost(w), Ghost(match self.dhcp { Some(b) => Some(WireValue::Bool(b)), None => None }));
        proof {
            w = w + member("dhcp"@, match self.dhcp { Some(b) => Some(WireValue::Bool(b)), None => None });
        }
        put_member(&mut es, "proxyport", match self.proxy_port { Some(v) => Some(Json::Int(v as i64)), None => None }, Ghost(w), Ghost(match self.proxy_port { Some(v) => Some(WireValue::Int(v as int)), None => None }));
        proof {
            w = w + member("proxyport"@, match self.proxy_port { Some(v) => Some(WireValue::Int(v as int)), None => None });
        }
        put_member(&mut es, "proxyaddress", match &self.proxy_address { Some(s) => Some(Json::Text(s.clone())), None => None }, Ghost(w), Ghost(text_wire(self.proxy_address)));
        proof {
            w = w + member("proxyaddress"@, text_wire(self.proxy_address));
        }
        put_member(&mut es, "linkbutton", match self.linkbutton { Some(b) => Some(Json::Bool(b)), None => None }, Ghost(w), Ghost(match self.linkbutton { Some(b) => Some(WireValue::Bool(b)), None => None }));
        proof {
            w = w + member("linkbutton"@, match self.linkbutton { Some(b) => Some(WireValue::Bool(b)), None => None });
        }
        put_member(&mut es, "touchlink", match self.touchlink { Some(b) => Some(Json::Bool(b)), None => None }, Ghost(w), Ghost(match self.touchlink { Some(b) => Some(WireValue::Bool(b)), None => None }));
        proof {
            w = w + member("touchlink"@, match self.touchlink { Some(b) => Some(WireValue::Bool(b)), None => None });
        }
        put_member(&mut es, "zigbeechannel", match self.zigbee_channel { Some(v) => Some(Json::Int(v as i64)), None => None }, Ghost(w), Ghost(match self.zigbee_channel { Some(v) => Some(WireValue::Int(v as int)), None => None }));
        proof {
            w = w + member("zigbeechannel"@, match self.zigbee_channel { Some(v) => Some(WireValue::Int(v as int)), None => None });
        }
        put_member(&mut es, "UTC", match &self.current_time { Some(s) => Some(Json::Text(s.clone())), None => None }, Ghost(w), Ghost(text_wire(self.current_time)));
        proof {
            w = w + member("UTC"@, text_wire(self.current_time));
        }
        put_member(&mut es, "timezone", match &self.timezone { Some(s) => Some(Json::Text(s.clone())), None => None }, Ghost(w), Ghost(text_wire(self.timezone)));
        proof {
            w = w + member("timezone"@, text_wire(self.timezone));
        }
        Json::Object(es)
    }
}

impl crate::Modifier for Modifier {
    open spec fn spec_is_empty(&self) -> bool {
        self.name is None && self.ip_address is None && self.netmask is None && self.gateway is None && self.dhcp is None && self.proxy_port is None && self.proxy_address is None && self.linkbutton is None && self.touchlink is None && self.zigbee_channel is None && self.current_time is None && self.timezone is None
    }

    fn new() -> (r: Self) {
        Modifier { name: None, ip_address: None, netmask: None, gateway: None, dhcp: None, proxy_port: None, proxy_address: None, linkbutton: None, touchlink: None, zigbee_channel: None, current_time: None, timezone: None }
    }

    fn is_empty(&self) -> (r: bool) {
        self.name.is_none() && self.ip_address.is_none() && self.netmask.is_none() && self.gateway.is_none() && self.dhcp.is_none() && self.proxy_port.is_none() && self.proxy_address.is_none() && self.linkbutton.is_none() && self.touchlink.is_none() && self.zigbee_channel.is_none() && self.current_time.is_none() && self.timezone.is_none()
    }
}

impl Default for Modifier {
    /// A modifier that changes nothing.
    fn default() -> (r: Self)
        ensures
            crate::Modifier::spec_is_empty(&r),
    {
        <Modifier as crate::Modifier>::new()
    }
}

impl Modifier {
    /// Sets the name of the bridge.
    pub fn name(self, value: String) -> (r: Self)
        ensures
            r == (Modifier { name: Some(value), ..self }),
    {
        Modifier { name: Some(value), ..self }
    }

    /// Sets the IP address of the bridge, given as text.
    pub fn ip_address(self, value: String) -> (r: Self)
        ensures
            r == (Modifier { ip_address: Some(value), ..self }),
    {
        Modifier { ip_address: Some(value), ..self }
    }

    /// Sets the network mask of the bridge.
    pub fn netmask(self, value: String) -> (r: Self)
        ensures
            r == (Modifier { netmask: Some(value), ..self }),
    {
        Modifier { netmask: Some(value), ..self }
    }

    /// Sets the IP address of the gateway, given as text.
    pub fn gateway(self, value: String) -> (r: Self)
        ensures
            r == (Modifier { gateway: Some(value), ..self }),
    {
        Modifier { gateway: Some(value), ..self }
    }

    /// Sets whether the bridge obtains its IP address with DHCP.
    pub fn dhcp(self, value: bool) -> (r: Self)
        ensures
            r == (Modifier { dhcp: Some(value), ..self }),
    {
        Modifier { dhcp: Some(value), ..self }
    }

    /// Sets the proxy port of the bridge; 0 means that no proxy is used.
    pub fn proxy_port(self, value: u16) -> (r: Self)
        ensures
            r == (Modifier { proxy_port: Some(value), ..self }),
    {
        Modifier { proxy_port: Some(value), ..self }
    }

    /// Sets whether the link button was pressed within the last 30 seconds.
    pub fn linkbutton(self, value: bool) -> (r: Self)
        ensures
            r == (Modifier { linkbutton: Some(value), ..self }),
    {
        Modifier { linkbutton: Some(value), ..self }
    }

    /// Sets the wireless frequency channel: 11, 15, 20 or 25.
    pub fn zigbee_channel(self, value: u8) -> (r: Self)
        ensures
            r == (Modifier { zigbee_channel: Some(value), ..self }),
    {
        Modifier { zigbee_channel: Some(value), ..self }
    }

    /// Sets the current time of the bridge in UTC.
    pub fn current_time(self, value: String) -> (r: Self)
        ensures
            r == (Modifier { current_time: Some(value), ..self }),
    {
        Modifier { current_time: Some(value), ..self }
    }

    /// Sets the time zone of the bridge.
    pub fn timezone(self, value: String) -> (r: Self)
        ensures
            r == (Modifier { timezone: Some(value), ..self }),
    {
        Modifier { timezone: Some(value), ..self }
    }

    /// Sets the proxy address of the bridge, given as text; without an address no proxy is
    /// used, which the bridge receives as the sentinel `"none"`.
    pub fn proxy_address(self, value: Option<String>) -> (r: Self)
        ensures
            r.proxy_address is Some,
            r.proxy_address->0@ == match value {
                Some(v) => v@,
                None => "none"@,
            },
            r == (Modifier { proxy_address: r.proxy_address, ..self }),
    {
        let text = match value {
            Some(v) => v,
            None => "none".to_owned(),
        };
        Modifier { proxy_address: Some(text), ..self }
    }

    /// Starts a touchlink procedure, which adds the closest lamp to the ZigBee network.
    pub fn touchlink(self) -> (r: Self)
        ensures
            r == (Modifier { touchlink: Some(true), ..self }),
    {
        Modifier { touchlink: Some(true), ..self }
    }
}

/// A configuration modifier that changes nothing has an empty request body; after one change
/// the body holds exactly the member that the change targets.
pub proof fn lemma_config_modifier_members(m: Modifier, t: String, b: bool, port: u16, channel: u8)
    requires
        crate::Modifier::spec_is_empty(&m),
    ensures
        m.wire() == Seq::<(Seq<char>, WireValue)>::empty(),
        (Modifier { name: Some(t), ..m }).wire() == seq![("name"@, WireValue::Text(t@))],
        (Modifier { ip_address: Some(t), ..m }).wire() == seq![("ipaddress"@, WireValue::Text(t@))],
        (Modifier { netmask: Some(t), ..m }).wire() == seq![("netmask"@, WireValue::Text(t@))],
        (Modifier { gateway: Some(t), ..m }).wire() == seq![("gateway"@, WireValue::Text(t@))],
        (Modifier { dhcp: Some(b), ..m }).wire() == seq![("dhcp"@, WireValue::Bool(b))],
        (Modifier { proxy_port: Some(port), ..m }).wire() == seq![("proxyport"@, WireValue::Int(port as int))],
        (Modifier { proxy_address: Some(t), ..m }).wire() == seq![("proxyaddress"@, WireValue::Text(t@))],
        (Modifier { linkbutton: Some(b), ..m }).wire() == seq![("linkbutton"@, WireValue::Bool(b))],
        (Modifier { touchlink: Some(b), ..m }).wire() == seq![("touchlink"@, WireValue::Bool(b))],
        (Modifier { zigbee_channel: Some(channel), ..m }).wire() == seq![("zigbeechannel"@, WireValue::Int(channel as int))],
        (Modifier { current_time: Some(t), ..m }).wire() == seq![("UTC"@, WireValue::Text(t@))],
        (Modifier { timezone: Some(t), ..m }).wire() == seq![("timezone"@, WireValue::Text(t@))],
{
    assert(m.wire() =~= Seq::<(Seq<char>, WireValue)>::empty());
    assert((Modifier { name: Some(t), ..m }).wire() =~= seq![("name"@, WireValue::Text(t@))]);
    assert((Modifier { ip_address: Some(t), ..m }).wire() =~= seq![("ipaddress"@, WireValue::Text(t@))]);
    assert((Modifier { netmask: Some(t), ..m }).wire() =~= seq![("netmask"@, WireValue::Text(t@))]);
    assert((Modifier { gateway: Some(t), ..m }).wire() =~= seq![("gateway"@, WireValue::Text(t@))]);
    assert((Modifier { dhcp: Some(b), ..m }).wire() =~= seq![("dhcp"@, WireValue::Bool(b))]);
    assert((Modifier { proxy_port: Some(port), ..m }).wire() =~= seq![("proxyport"@, WireValue::Int(port as int))]);
    assert((Modifier { proxy_address: Some(t), ..m }).wire() =~= seq![("proxyaddress"@, WireValue::Text(t@))]);
    assert((Modifier { linkbutton: Some(b), ..m }).wire() =~= seq![("linkbutton"@, WireValue::Bool(b))]);
    assert((Modifier { touchlink: Some(b), ..m }).wire() =~= seq![("touchlink"@, WireValue::Bool(b))]);
    assert((Modifier { zigbee_channel: Some(channel), ..m }).wire() =~= seq![("zigbeechannel"@, WireValue::Int(channel as int))]);
    assert((Modifier { current_time: Some(t), ..m }).wire() =~= seq![("UTC"@, WireValue::Text(t@))]);
    assert((Modifier { timezone: Some(t), ..m }).wire() =~= seq![("timezone"@, WireValue::Text(t@))]);
}

} // verus!
