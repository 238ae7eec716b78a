//! Records of the ClearScope Android tracer, and what the provenance model
//! makes of them.
use vstd::prelude::*;

use crate::data::id::ID;
use crate::data::pvm_types::PVMDataType;
use crate::ingest::pvm::{
    declare_spec, has_prop, meta_spec, name_spec, sink_spec, source_spec, ConcreteType, Name, PvmOp,
    PvmState, PVMError, PVM,
};
use crate::text::{decimal_int, fmt_i64, to_owned};
use crate::uuid_text::{hyphenated_text, mkuuid, uuid_to_string};

verus! {

/// The kind of an Android service or resource that a binder object stands for.
#[derive(Clone, Copy, Debug, PartialEq, Eq, Structural)]
pub enum ProvKind {
    AccessibilityService,
    ActivityManagement,
    AlarmService,
    AndroidTv,
    AudioIo,
    BackupManager,
    Binder,
    Bluetooth,
    BootEvent,
    BroadcastReceiverManagement,
    Camera,
    Clipboard,
    ComponentManagement,
    ContentProvider,
    ContentProviderManagement,
    Database,
    DeviceAdmin,
    DeviceSearch,
    DeviceUser,
    Display,
    Dropbox,
    Email,
    Experimental,
    File,
    FileSystem,
    FileSystemManagement,
    Fingerprint,
    Flashlight,
    Gatekeeper,
    Hdmi,
    IdleDockScreen,
    Ims,
    Infrared,
    InstalledPackages,
    JsseTrustManager,
    Keychain,
    Keyguard,
    Location,
    MachineLearning,
    Media,
    MediaCapture,
    MediaLocalManagement,
    MediaLocalPlayback,
    MediaNetworkConnection,
    MediaRemotePlayback,
    Midi,
    Native,
    Network,
    NetworkManagement,
    Nfc,
    Notification,
    PacProxy,
    Permissions,
    PersistantData,
    Posix,
    PowerManagement,
    PrintService,
    ProcessManagement,
    ReceiverManagement,
    Rpc,
    ScreenAudioCapture,
    SerialPort,
    ServiceConnection,
    ServiceManagement,
    SmsMms,
    SpeechInteraction,
    StatusBar,
    SyncFramework,
    Telephony,
    Test,
    TextServices,
    Threading,
    TimeEvent,
    Ui,
    UidEvent,
    UiAutomation,
    UiMode,
    UiRpc,
    UsageStats,
    Usb,
    UserAccountsManagement,
    UserInput,
    Vibrator,
    WakeLock,
    WallpaperManager,
    Wap,
    WebBrowser,
    Widgets,
}

impl ProvKind {
    /// The number the tracer gives the kind, in specifications.
    pub open spec fn spec_code(self) -> int {
        match self {
            ProvKind::AccessibilityService => 0,
            ProvKind::ActivityManagement => 1,
            ProvKind::AlarmService => 2,
            ProvKind::AndroidTv => 3,
            ProvKind::AudioIo => 4,
            ProvKind::BackupManager => 5,
            ProvKind::Binder => 6,
            ProvKind::Bluetooth => 7,
            ProvKind::BootEvent => 8,
            ProvKind::BroadcastReceiverManagement => 9,
            ProvKind::Camera => 10,
            ProvKind::Clipboard => 11,
            ProvKind::ComponentManagement => 12,
            ProvKind::ContentProvider => 13,
            ProvKind::ContentProviderManagement => 14,
            ProvKind::Database => 15,
            ProvKind::DeviceAdmin => 16,
            ProvKind::DeviceSearch => 17,
            ProvKind::DeviceUser => 18,
            ProvKind::Display => 19,
            ProvKind::Dropbox => 20,
            ProvKind::Email => 21,
            ProvKind::Experimental => 22,
            ProvKind::File => 23,
            ProvKind::FileSystem => 24,
            ProvKind::FileSystemManagement => 25,
            ProvKind::Fingerprint => 26,
            ProvKind::Flashlight => 27,
            ProvKind::Gatekeeper => 28,
            ProvKind::Hdmi => 29,
            ProvKind::IdleDockScreen => 30,
            ProvKind::Ims => 31,
            ProvKind::Infrared => 32,
            ProvKind::InstalledPackages => 33,
            ProvKind::JsseTrustManager => 34,
            ProvKind::Keychain => 35,
            ProvKind::Keyguard => 36,
            ProvKind::Location => 37,
            ProvKind::MachineLearning => 38,
            ProvKind::Media => 39,
            ProvKind::MediaCapture => 40,
            ProvKind::MediaLocalManagement => 41,
            ProvKind::MediaLocalPlayback => 42,
            ProvKind::MediaNetworkConnection => 43,
            ProvKind::MediaRemotePlayback => 44,
            ProvKind::Midi => 45,
            ProvKind::Native => 46,
            ProvKind::Network => 47,
            ProvKind::NetworkManagement => 48,
            ProvKind::Nfc => 49,
            ProvKind::Notification => 50,
            ProvKind::PacProxy => 51,
            ProvKind::Permissions => 52,
            ProvKind::PersistantData => 53,
            ProvKind::Posix => 54,
            ProvKind::PowerManagement => 55,
            ProvKind::PrintService => 56,
            ProvKind::ProcessManagement => 57,
            ProvKind::ReceiverManagement => 58,
            ProvKind::Rpc => 59,
            ProvKind::ScreenAudioCapture => 60,
            ProvKind::SerialPort => 61,
            ProvKind::ServiceConnection => 62,
            ProvKind::ServiceManagement => 63,
            ProvKind::SmsMms => 64,
            ProvKind::SpeechInteraction => 65,
            ProvKind::StatusBar => 66,
            ProvKind::SyncFramework => 67,
            ProvKind::Telephony => 68,
            ProvKind::Test => 69,
            ProvKind::TextServices => 70,
            ProvKind::Threading => 71,
            ProvKind::TimeEvent => 72,
            ProvKind::Ui => 73,
            ProvKind::UidEvent => 74,
            ProvKind::UiAutomation => 75,
            ProvKind::UiMode => 76,
            ProvKind::UiRpc => 77,
            ProvKind::UsageStats => 78,
            ProvKind::Usb => 79,
            ProvKind::UserAccountsManagement => 80,
            ProvKind::UserInput => 81,
            ProvKind::Vibrator => 82,
            ProvKind::WakeLock => 83,
            ProvKind::WallpaperManager => 84,
            ProvKind::Wap => 85,
            ProvKind::WebBrowser => 86,
            ProvKind::Widgets => 87,
        }
    }

    /// The number the tracer gives the kind: its position in the list, from 0.
    pub fn code(self) -> (r: u32)
        ensures
            r == self.spec_code(),
    {
        match self {
            ProvKind::AccessibilityService => 0,
            ProvKind::ActivityManagement => 1,
            ProvKind::AlarmService => 2,
            ProvKind::AndroidTv => 3,
            ProvKind::AudioIo => 4,
            ProvKind::BackupManager => 5,
            ProvKind::Binder => 6,
            ProvKind::Bluetooth => 7,
            ProvKind::BootEvent => 8,
            ProvKind::BroadcastReceiverManagement => 9,
            ProvKind::Camera => 10,
            ProvKind::Clipboard => 11,
            ProvKind::ComponentManagement => 12,
            ProvKind::ContentProvider => 13,
            ProvKind::ContentProviderManagement => 14,
            ProvKind::Database => 15,
            ProvKind::DeviceAdmin => 16,
            ProvKind::DeviceSearch => 17,
            ProvKind::DeviceUser => 18,
            ProvKind::Display => 19,
            ProvKind::Dropbox => 20,
            ProvKind::Email => 21,
            ProvKind::Experimental => 22,
            ProvKind::File => 23,
            ProvKind::FileSystem => 24,
            ProvKind::FileSystemManagement => 25,
            ProvKind::Fingerprint => 26,
            ProvKind::Flashlight => 27,
            ProvKind::Gatekeeper => 28,
            ProvKind::Hdmi => 29,
            ProvKind::IdleDockScreen => 30,
            ProvKind::Ims => 31,
            ProvKind::Infrared => 32,
            ProvKind::InstalledPackages => 33,
            ProvKind::JsseTrustManager => 34,
            ProvKind::Keychain => 35,
            ProvKind::Keyguard => 36,
            ProvKind::Location => 37,
            ProvKind::MachineLearning => 38,
            ProvKind::Media => 39,
            ProvKind::MediaCapture => 40,
            ProvKind::MediaLocalManagement => 41,
            ProvKind::MediaLocalPlayback => 42,
            ProvKind::MediaNetworkConnection => 43,
            ProvKind::MediaRemotePlayback => 44,
            ProvKind::Midi => 45,
            ProvKind::Native => 46,
            ProvKind::Network => 47,
            ProvKind::NetworkManagement => 48,
            ProvKind::Nfc => 49,
            ProvKind::Notification => 50,
            ProvKind::PacProxy => 51,
            ProvKind::Permissions => 52,
            ProvKind::PersistantData => 53,
            ProvKind::Posix => 54,
            ProvKind::PowerManagement => 55,
            ProvKind::PrintService => 56,
            ProvKind::ProcessManagement => 57,
            ProvKind::ReceiverManagement => 58,
            ProvKind::Rpc => 59,
            ProvKind::ScreenAudioCapture => 60,
            ProvKind::SerialPort => 61,
            ProvKind::ServiceConnection => 62,
            ProvKind::ServiceManagement => 63,
            ProvKind::SmsMms => 64,
            ProvKind::SpeechInteraction => 65,
            ProvKind::StatusBar => 66,
            ProvKind::SyncFramework => 67,
            ProvKind::Telephony => 68,
            ProvKind::Test => 69,
            ProvKind::TextServices => 70,
            ProvKind::Threading => 71,
            ProvKind::TimeEvent => 72,
            ProvKind::Ui => 73,
            ProvKind::UidEvent => 74,
            ProvKind::UiAutomation => 75,
            ProvKind::UiMode => 76,
            ProvKind::UiRpc => 77,
            ProvKind::UsageStats => 78,
            ProvKind::Usb => 79,
            ProvKind::UserAccountsManagement => 80,
            ProvKind::UserInput => 81,
            ProvKind::Vibrator => 82,
            ProvKind::WakeLock => 83,
            ProvKind::WallpaperManager => 84,
            ProvKind::Wap => 85,
            ProvKind::WebBrowser => 86,
            ProvKind::Widgets => 87,
        }
    }

    /// The kind's name, in specifications.
    pub open spec fn spec_name(self) -> Seq<char> {
        match self {
            ProvKind::AccessibilityService => "AccessibilityService"@,
            ProvKind::ActivityManagement => "ActivityManagement"@,
            ProvKind::AlarmService => "AlarmService"@,
            ProvKind::AndroidTv => "AndroidTv"@,
            ProvKind::AudioIo => "AudioIo"@,
            ProvKind::BackupManager => "BackupManager"@,
            ProvKind::Binder => "Binder"@,
            ProvKind::Bluetooth => "Bluetooth"@,
            ProvKind::BootEvent => "BootEvent"@,
            ProvKind::BroadcastReceiverManagement => "BroadcastReceiverManagement"@,
            ProvKind::Camera => "Camera"@,
            ProvKind::Clipboard => "Clipboard"@,
            ProvKind::ComponentManagement => "ComponentManagement"@,
            ProvKind::ContentProvider => "ContentProvider"@,
            ProvKind::ContentProviderManagement => "ContentProviderManagement"@,
            ProvKind::Database => "Database"@,
            ProvKind::DeviceAdmin => "DeviceAdmin"@,
            ProvKind::DeviceSearch => "DeviceSearch"@,
            ProvKind::DeviceUser => "DeviceUser"@,
            ProvKind::Display => "Display"@,
            ProvKind::Dropbox => "Dropbox"@,
            ProvKind::Email => "Email"@,
            ProvKind::Experimental => "Experimental"@,
            ProvKind::File => "File"@,
            ProvKind::FileSystem => "FileSystem"@,
            ProvKind::FileSystemManagement => "FileSystemManagement"@,
            ProvKind::Fingerprint => "Fingerprint"@,
            ProvKind::Flashlight => "Flashlight"@,
            ProvKind::Gatekeeper => "Gatekeeper"@,
            ProvKind::Hdmi => "Hdmi"@,
            ProvKind::IdleDockScreen => "IdleDockScreen"@,
            ProvKind::Ims => "Ims"@,
            ProvKind::Infrared => "Infrared"@,
            ProvKind::InstalledPackages => "InstalledPackages"@,
            ProvKind::JsseTrustManager => "JsseTrustManager"@,
            ProvKind::Keychain => "Keychain"@,
            ProvKind::Keyguard => "Keyguard"@,
            ProvKind::Location => "Location"@,
            ProvKind::MachineLearning => "MachineLearning"@,
            ProvKind::Media => "Media"@,
            ProvKind::MediaCapture => "MediaCapture"@,
            ProvKind::MediaLocalManagement => "MediaLocalManagement"@,
            ProvKind::MediaLocalPlayback => "MediaLocalPlayback"@,
            ProvKind::MediaNetworkConnection => "MediaNetworkConnection"@,
            ProvKind::MediaRemotePlayback => "MediaRemotePlayback"@,
            ProvKind::Midi => "Midi"@,
            ProvKind::Native => "Native"@,
            ProvKind::Network => "Network"@,
            ProvKind::NetworkManagement => "NetworkManagement"@,
            ProvKind::Nfc => "Nfc"@,
            ProvKind::Notification => "Notification"@,
            ProvKind::PacProxy => "PacProxy"@,
            ProvKind::Permissions => "Permissions"@,
            ProvKind::PersistantData => "PersistantData"@,
            ProvKind::Posix => "Posix"@,
            ProvKind::PowerManagement => "PowerManagement"@,
            ProvKind::PrintService => "PrintService"@,
            ProvKind::ProcessManagement => "ProcessManagement"@,
            ProvKind::ReceiverManagement => "ReceiverManagement"@,
            ProvKind::Rpc => "Rpc"@,
            ProvKind::ScreenAudioCapture => "ScreenAudioCapture"@,
            ProvKind::SerialPort => "SerialPort"@,
            ProvKind::ServiceConnection => "ServiceConnection"@,
            ProvKind::ServiceManagement => "ServiceManagement"@,
            ProvKind::SmsMms => "SmsMms"@,
            ProvKind::SpeechInteraction => "SpeechInteraction"@,
            ProvKind::StatusBar => "StatusBar"@,
            ProvKind::SyncFramework => "SyncFramework"@,
            ProvKind::Telephony => "Telephony"@,
            ProvKind::Test => "Test"@,
            ProvKind::TextServices => "TextServices"@,
            ProvKind::Threading => "Threading"@,
            ProvKind::TimeEvent => "TimeEvent"@,
            ProvKind::Ui => "Ui"@,
            ProvKind::UidEvent => "UidEvent"@,
            ProvKind::UiAutomation => "UiAutomation"@,
            ProvKind::UiMode => "UiMode"@,
            ProvKind::UiRpc => "UiRpc"@,
            ProvKind::UsageStats => "UsageStats"@,
            ProvKind::Usb => "Usb"@,
            ProvKind::UserAccountsManagement => "UserAccountsManagement"@,
            ProvKind::UserInput => "UserInput"@,
            ProvKind::Vibrator => "Vibrator"@,
            ProvKind::WakeLock => "WakeLock"@,
            ProvKind::WallpaperManager => "WallpaperManager"@,
            ProvKind::Wap => "Wap"@,
            ProvKind::WebBrowser => "WebBrowser"@,
            ProvKind::Widgets => "Widgets"@,
        }
    }

    /// The kind's name, as it is written when recorded.
    pub fn name(self) -> (r: &'static str)
        ensures
            r@ == self.spec_name(),
    {
        match self {
            ProvKind::AccessibilityService => "AccessibilityService",
            ProvKind::ActivityManagement => "ActivityManagement",
            ProvKind::AlarmService => "AlarmService",
            ProvKind::AndroidTv => "AndroidTv",
            ProvKind::AudioIo => "AudioIo",
            ProvKind::BackupManager => "BackupManager",
            ProvKind::Binder => "Binder",
            ProvKind::Bluetooth => "Bluetooth",
            ProvKind::BootEvent => "BootEvent",
            ProvKind::BroadcastReceiverManagement => "BroadcastReceiverManagement",
            ProvKind::Camera => "Camera",
            ProvKind::Clipboard => "Clipboard",
            ProvKind::ComponentManagement => "ComponentManagement",
            ProvKind::ContentProvider => "ContentProvider",
            ProvKind::ContentProviderManagement => "ContentProviderManagement",
            ProvKind::Database => "Database",
            ProvKind::DeviceAdmin => "DeviceAdmin",
            ProvKind::DeviceSearch => "DeviceSearch",
            ProvKind::DeviceUser => "DeviceUser",
            ProvKind::Display => "Display",
            ProvKind::Dropbox => "Dropbox",
            ProvKind::Email => "Email",
            ProvKind::Experimental => "Experimental",
            ProvKind::File => "File",
            ProvKind::FileSystem => "FileSystem",
            ProvKind::FileSystemManagement => "FileSystemManagement",
            ProvKind::Fingerprint => "Fingerprint",
            ProvKind::Flashlight => "Flashlight",
            ProvKind::Gatekeeper => "Gatekeeper",
            ProvKind::Hdmi => "Hdmi",
            ProvKind::IdleDockScreen => "IdleDockScreen",
            ProvKind::Ims => "Ims",
            ProvKind::Infrared => "Infrared",
            ProvKind::InstalledPackages => "InstalledPackages",
            ProvKind::JsseTrustManager => "JsseTrustManager",
            ProvKind::Keychain => "Keychain",
            ProvKind::Keyguard => "Keyguard",
            ProvKind::Location => "Location",
            ProvKind::MachineLearning => "MachineLearning",
            ProvKind::Media => "Media",
            ProvKind::MediaCapture => "MediaCapture",
            ProvKind::MediaLocalManagement => "MediaLocalManagement",
            ProvKind::MediaLocalPlayback => "MediaLocalPlayback",
            ProvKind::MediaNetworkConnection => "MediaNetworkConnection",
            ProvKind::MediaRemotePlayback => "MediaRemotePlayback",
            ProvKind::Midi => "Midi",
            ProvKind::Native => "Native",
            ProvKind::Network => "Network",
            ProvKind::NetworkManagement => "NetworkManagement",
            ProvKind::Nfc => "Nfc",
            ProvKind::Notification => "Notification",
            ProvKind::PacProxy => "PacProxy",
            ProvKind::Permissions => "Permissions",
            ProvKind::PersistantData => "PersistantData",
            ProvKind::Posix => "Posix",
            ProvKind::PowerManagement => "PowerManagement",
            ProvKind::PrintService => "PrintService",
            ProvKind::ProcessManagement => "ProcessManagement",
            ProvKind::ReceiverManagement => "ReceiverManagement",
            ProvKind::Rpc => "Rpc",
            ProvKind::ScreenAudioCapture => "ScreenAudioCapture",
            ProvKind::SerialPort => "SerialPort",
            ProvKind::ServiceConnection => "ServiceConnection",
            ProvKind::ServiceManagement => "ServiceManagement",
            ProvKind::SmsMms => "SmsMms",
            ProvKind::SpeechInteraction => "SpeechInteraction",
            ProvKind::StatusBar => "StatusBar",
            ProvKind::SyncFramework => "SyncFramework",
            ProvKind::Telephony => "Telephony",
            ProvKind::Test => "Test",
            ProvKind::TextServices => "TextServices",
            ProvKind::Threading => "Threading",
            ProvKind::TimeEvent => "TimeEvent",
            ProvKind::Ui => "Ui",
            ProvKind::UidEvent => "UidEvent",
            ProvKind::UiAutomation => "UiAutomation",
            ProvKind::UiMode => "UiMode",
            ProvKind::UiRpc => "UiRpc",
            ProvKind::UsageStats => "UsageStats",
            ProvKind::Usb => "Usb",
            ProvKind::UserAccountsManagement => "UserAccountsManagement",
            ProvKind::UserInput => "UserInput",
            ProvKind::Vibrator => "Vibrator",
            ProvKind::WakeLock => "WakeLock",
            ProvKind::WallpaperManager => "WallpaperManager",
            ProvKind::Wap => "Wap",
            ProvKind::WebBrowser => "WebBrowser",
            ProvKind::Widgets => "Widgets",
        }
    }
}

/// The role of a value in an event.
#[derive(Clone, Copy, Debug, PartialEq, Eq, Structural)]
pub enum ValueType {
    Param,
    Src,
    Sink,
    Ret,
}

impl ValueType {
    /// The number the tracer gives the role: 0 to 3 in declaration order.
    pub fn code(self) -> (r: u32)
        ensures
            r == (match self {
                ValueType::Param => 0u32,
                ValueType::Src => 1u32,
                ValueType::Sink => 2u32,
                ValueType::Ret => 3u32,
            }),
    {
        match self {
            ValueType::Param => 0,
            ValueType::Src => 1,
            ValueType::Sink => 2,
            ValueType::Ret => 3,
        }
    }
}

/// The direction of an event.
#[derive(Clone, Copy, Debug, PartialEq, Eq, Structural)]
pub enum EventFlow {
    Event,
    Src,
    Sink,
}

impl EventFlow {
    /// The number the tracer gives the direction: 0 to 2 in declaration order.
    pub fn code(self) -> (r: u32)
        ensures
            r == (match self {
                EventFlow::Event => 0u32,
                EventFlow::Src => 1u32,
                EventFlow::Sink => 2u32,
            }),
    {
        match self {
            EventFlow::Event => 0,
            EventFlow::Src => 1,
            EventFlow::Sink => 2,
        }
    }
}

/// The direction of a provenance definition.
#[derive(Clone, Copy, Debug, PartialEq, Eq, Structural)]
pub enum ProvFlow {
    Src,
    Sink,
}

impl ProvFlow {
    /// The number the tracer gives the direction: 0 or 1 in declaration order.
    pub fn code(self) -> (r: u32)
        ensures
            r == (match self {
                ProvFlow::Src => 0u32,
                ProvFlow::Sink => 1u32,
            }),
    {
        match self {
            ProvFlow::Src => 0,
            ProvFlow::Sink => 1,
        }
    }
}

/// A run-length encoded taint tag.
#[derive(Debug)]
pub struct RLETag {
    pub length: Option<i32>,
    pub tag: u32,
}

/// An event of a traced program. (The values the event carries are not
/// read by the model and are not kept.)
#[derive(Debug)]
pub struct Event {
    pub flow: EventFlow,
    pub prog_id: u32,
    pub app_ppt: u32,
    pub sys_call: u32,
    pub tid: i64,
    pub time: i64,
    pub predicate1_id: Option<u32>,
    pub predicate2_id: Option<u32>,
}

/// The definition of an application program point.
#[derive(Debug)]
pub struct DefineAppPpt {
    pub id: u32,
    pub prog_id: u32,
    pub value: String,
}

/// The definition of a traced program.
#[derive(Debug)]
pub struct DefineProgram {
    pub id: u32,
    pub host_id: u32,
    pub pname: String,
    pub pid: i32,
    pub ppid: i32,
    pub uid: i32,
    pub start_time: i64,
}

/// A flow between a program and a provenance object.
#[derive(Debug)]
pub struct DefineProv {
    pub flow: ProvFlow,
    pub id: u32,
    pub prog_id: u32,
    pub prov_type: i32,
    pub app_ppt: u32,
    pub sys_call: u32,
    pub prev_id: u32,
    pub prev_device_id: Option<String>,
}

/// A set of provenance definitions.
#[derive(Debug)]
pub struct DefineProvSet {
    pub id: u32,
    pub prog_id: u32,
    pub child: Vec<u32>,
}

/// What a provenance object is.
#[derive(Debug)]
pub enum ProvTypeObject {
    General { obj_type: String, properties: Vec<(String, String)> },
    File { path: String, permissions: i32, file_type: String, size_in_bytes: Option<i64> },
    Network {
        local_address: String,
        local_port: i32,
        remote_address: Option<String>,
        remote_port: Option<i32>,
        protocol: i32,
    },
    PacketSocket { protocol: i32, ifindex: i32, hatype: i32, pkttype: i32, halen: i32, addr: String },
    Pipe { unique_id: String },
    Binder { kind: ProvKind, properties: Vec<(String, String)> },
}

/// The definition of a provenance object.
#[derive(Debug)]
pub struct DefineProvType {
    pub id: u32,
    pub prog_id: u32,
    pub object: ProvTypeObject,
}

/// The definition of a system call.
#[derive(Debug)]
pub struct DefineSysCall {
    pub id: u32,
    pub prog_id: u32,
    pub value: String,
}

/// A network interface of the traced host.
#[derive(Debug)]
pub struct InterfaceInfo {
    pub name: String,
    pub mac_address: String,
    pub ip_addresses: Vec<String>,
}

/// The traced host.
#[derive(Debug)]
pub struct HostInfo {
    pub id: u32,
    pub hostname: String,
    pub host_ids: Vec<(String, String)>,
    pub interfaces: Vec<InterfaceInfo>,
    pub os_details: String,
}

/// A user of the traced host.
#[derive(Debug)]
pub struct User {
    pub user_id: i32,
    pub name: String,
    pub groups: Vec<String>,
}

/// A record of the tracer.
#[derive(Debug)]
pub enum ProvMessage {
    DefineAppPpt(DefineAppPpt),
    DefineProgram(DefineProgram),
    DefineProv(DefineProv),
    DefineProvSet(DefineProvSet),
    DefineProvType(DefineProvType),
    DefineSysCall(DefineSysCall),
    Event(Event),
    HostInfo(HostInfo),
    User(User),
}

/// The concrete node types the records are modelled with.
#[derive(Clone, Copy, Debug, PartialEq, Eq, Structural)]
pub enum ConcreteKind {
    Program,
    Object,
    File,
    Netflow,
    Binder,
    Pipe,
}

/// The provenance roles of the concrete types.
#[derive(Clone, Copy, Debug, PartialEq, Eq, Structural)]
pub enum ProvRole {
    Actor,
    Object,
    Store,
    Conduit,
}

/// The role of a concrete type.
pub fn concrete_role(k: ConcreteKind) -> (r: ProvRole)
    ensures
        r == (match k {
            ConcreteKind::Program => ProvRole::Actor,
            ConcreteKind::Object => ProvRole::Object,
            ConcreteKind::File => ProvRole::Store,
            ConcreteKind::Netflow => ProvRole::Conduit,
            ConcreteKind::Binder => ProvRole::Conduit,
            ConcreteKind::Pipe => ProvRole::Conduit,
        }),
{
    match k {
        ConcreteKind::Program => ProvRole::Actor,
        ConcreteKind::Object => ProvRole::Object,
        ConcreteKind::File => ProvRole::Store,
        ConcreteKind::Netflow => ProvRole::Conduit,
        ConcreteKind::Binder => ProvRole::Conduit,
        ConcreteKind::Pipe => ProvRole::Conduit,
    }
}

/// The name of a concrete type.
pub fn concrete_name(k: ConcreteKind) -> (r: &'static str)
    ensures
        r@ == (match k {
            ConcreteKind::Program => "program"@,
            ConcreteKind::Object => "object"@,
            ConcreteKind::File => "file"@,
            ConcreteKind::Netflow => "netflow"@,
            ConcreteKind::Binder => "binder"@,
            ConcreteKind::Pipe => "pipe"@,
        }),
{
    match k {
        ConcreteKind::Program => "program",
        ConcreteKind::Object => "object",
        ConcreteKind::File => "file",
        ConcreteKind::Netflow => "netflow",
        ConcreteKind::Binder => "binder",
        ConcreteKind::Pipe => "pipe",
    }
}

/// The properties of a concrete type, each with whether it is inherited by
/// new versions.
pub open spec fn concrete_props_spec(k: ConcreteKind) -> Seq<(Seq<char>, bool)> {
    match k {
        ConcreteKind::Program => seq![
            ("host_uuid"@, true),
            ("pname"@, true),
            ("pid"@, false),
            ("ppid"@, false),
            ("uid"@, true),
            ("start_time"@, false),
        ],
        ConcreteKind::Object => seq![("obj_type"@, true)],
        ConcreteKind::File => seq![("permissions"@, true), ("file_type"@, true), ("size_in_bytes"@, true)],
        ConcreteKind::Netflow => seq![("protocol"@, true)],
        ConcreteKind::Binder => seq![("kind"@, true)],
        ConcreteKind::Pipe => seq![("unique_id"@, true)],
    }
}

/// The properties of a concrete type, each with whether it is inherited by
/// new versions.
pub fn concrete_props(k: ConcreteKind) -> (r: Vec<(&'static str, bool)>)
    ensures
        r@.map_values(|p: (&'static str, bool)| (p.0@, p.1)) == concrete_props_spec(k),
{
    let r = match k {
        ConcreteKind::Program => vec![
            ("host_uuid", true),
            ("pname", true),
            ("pid", false),
            ("ppid", false),
            ("uid", true),
            ("start_time", false),
        ],
        ConcreteKind::Object => vec![("obj_type", true)],
        ConcreteKind::File => vec![("permissions", true), ("file_type", true), ("size_in_bytes", true)],
        ConcreteKind::Netflow => vec![("protocol", true)],
        ConcreteKind::Binder => vec![("kind", true)],
        ConcreteKind::Pipe => vec![("unique_id", true)],
    };
    assert(r@.map_values(|p: (&'static str, bool)| (p.0@, p.1)) =~= concrete_props_spec(k));
    r
}

/// The concrete types registered before the first record, in order.
pub fn init_types() -> (r: Vec<ConcreteKind>)
    ensures
        r@ == seq![
            ConcreteKind::Program,
            ConcreteKind::File,
            ConcreteKind::Netflow,
            ConcreteKind::Object,
            ConcreteKind::Binder,
            ConcreteKind::Pipe,
        ],
{
    let r = vec![
        ConcreteKind::Program,
        ConcreteKind::File,
        ConcreteKind::Netflow,
        ConcreteKind::Object,
        ConcreteKind::Binder,
        ConcreteKind::Pipe,
    ];
    assert(r@ =~= seq![
        ConcreteKind::Program,
        ConcreteKind::File,
        ConcreteKind::Netflow,
        ConcreteKind::Object,
        ConcreteKind::Binder,
        ConcreteKind::Pipe,
    ]);
    r
}

/// A name given to a node: a path, or a network address and port.
pub enum ProvName {
    Path(String),
    Net(String, u16),
}

/// A call on the provenance model. Nodes are named by their UUIDs.
pub enum ProvOp {
    /// Declare a node of the type for the UUID (if none is declared yet).
    Declare { ty: ConcreteKind, uuid: u128 },
    /// The program `act` read from `ent`.
    Source { act: u128, ent: u128 },
    /// The program `act` wrote to `ent`.
    Sink { act: u128, ent: u128 },
    /// The node has the name.
    Name { ent: u128, name: ProvName },
    /// Set a property of the node; a failure ends the record's calls.
    Meta { ent: u128, key: &'static str, val: String },
}

/// The abstract form of a name.
pub enum ProvNameV {
    Path(Seq<char>),
    Net(Seq<char>, u16),
}

/// The abstract form of a call on the provenance model.
pub enum ProvOpV {
    Declare { ty: ConcreteKind, uuid: u128 },
    Source { act: u128, ent: u128 },
    Sink { act: u128, ent: u128 },
    Name { ent: u128, name: ProvNameV },
    Meta { ent: u128, key: Seq<char>, val: Seq<char> },
}

impl View for ProvOp {
    type V = ProvOpV;

    open spec fn view(&self) -> ProvOpV {
        match self {
            ProvOp::Declare { ty, uuid } => ProvOpV::Declare { ty: *ty, uuid: *uuid },
            ProvOp::Source { act, ent } => ProvOpV::Source { act: *act, ent: *ent },
            ProvOp::Sink { act, ent } => ProvOpV::Sink { act: *act, ent: *ent },
            ProvOp::Name { ent, name } => ProvOpV::Name {
                ent: *ent,
                name: match name {
                    ProvName::Path(p) => ProvNameV::Path(p@),
                    ProvName::Net(a, port) => ProvNameV::Net(a@, *port),
                },
            },
            ProvOp::Meta { ent, key, val } => ProvOpV::Meta { ent: *ent, key: key@, val: val@ },
        }
    }
}

/// The abstract form of a list of calls.
pub open spec fn prov_ops_view(ops: Seq<ProvOp>) -> Seq<ProvOpV> {
    ops.map_values(|o: ProvOp| o@)
}

/// The UUID of the node for the tracer's object number `v`.
pub open spec fn obj_uuid(v: u32) -> u128 {
    v as u128
}

/// The second object of an event, if the model declares it: it is neither
/// the program nor the first object.
pub open spec fn event_objects(e: Event) -> (Option<u128>, Option<u128>) {
    let pr1 = match e.predicate1_id {
        Some(v) => if v != e.prog_id {
            Some(obj_uuid(v))
        } else {
            None
        },
        None => None,
    };
    let pr2 = match e.predicate2_id {
        Some(v) => if v != e.prog_id && e.predicate1_id != e.predicate2_id {
            Some(obj_uuid(v))
        } else {
            None
        },
        None => None,
    };
    (pr1, pr2)
}

/// The objects an event declares are never its program, and never the same
/// object twice.
pub proof fn lemma_event_objects_distinct(e: Event)
    ensures
        ({
            let (pr1, pr2) = event_objects(e);
            &&& pr1 != Some(obj_uuid(e.prog_id))
            &&& pr2 != Some(obj_uuid(e.prog_id))
            &&& (pr1 is Some && pr2 is Some ==> pr1 != pr2)
        }),
{
}

/// The declaration of an object, if there is one.
pub open spec fn opt_declare(o: Option<u128>) -> Seq<ProvOpV> {
    match o {
        Some(u) => seq![ProvOpV::Declare { ty: ConcreteKind::Object, uuid: u }],
        None => Seq::empty(),
    }
}

/// The flow between the program and an object, if there is one.
pub open spec fn opt_flow(flow: EventFlow, prog: u128, o: Option<u128>) -> Seq<ProvOpV> {
    match o {
        Some(u) => match flow {
            EventFlow::Src => seq![ProvOpV::Source { act: prog, ent: u }],
            EventFlow::Sink => seq![ProvOpV::Sink { act: prog, ent: u }],
            EventFlow::Event => Seq::empty(),
        },
        None => Seq::empty(),
    }
}

/// The calls for an event: declare the program and the objects it names
/// (each once, and not the program itself), then a read or write between
/// the program and each object as the event's direction says.
pub open spec fn event_plan(e: Event) -> Seq<ProvOpV> {
    let prog = obj_uuid(e.prog_id);
    let (pr1, pr2) = event_objects(e);
    seq![ProvOpV::Declare { ty: ConcreteKind::Program, uuid: prog }] + opt_declare(pr1) + opt_declare(pr2)
        + opt_flow(e.flow, prog, pr1) + opt_flow(e.flow, prog, pr2)
}

fn push_prov(ops: &mut Vec<ProvOp>, op: ProvOp)
    ensures
        prov_ops_view(final(ops)@) == prov_ops_view(old(ops)@).push(op@),
{
    ops.push(op);
    proof {
        crate::text::lemma_map_push(old(ops)@, op, |o: ProvOp| o@);
    }
}

fn push_opt_flow(ops: &mut Vec<ProvOp>, flow: EventFlow, prog: u128, o: Option<u128>)
    ensures
        prov_ops_view(final(ops)@) == prov_ops_view(old(ops)@) + opt_flow(flow, prog, o),
{
    match o {
        Some(u) => match flow {
            EventFlow::Src => push_prov(ops, ProvOp::Source { act: prog, ent: u }),
            EventFlow::Sink => push_prov(ops, ProvOp::Sink { act: prog, ent: u }),
            EventFlow::Event => {},
        },
        None => {},
    }
    assert(prov_ops_view(ops@) =~= prov_ops_view(old(ops)@) + opt_flow(flow, prog, o));
}

impl Event {
    /// The calls the model makes for the event.
    pub fn parse(&self) -> (r: Vec<ProvOp>)
        ensures
            prov_ops_view(r@) == event_plan(*self),
    {
        let prog = mkuuid(self.prog_id);
        let pr1 = match self.predicate1_id {
            Some(v) => if v != self.prog_id {
                Some(mkuuid(v))
            } else {
                None
            },
            None => None,
        };
        let pr2 = match self.predicate2_id {
            Some(v) => if v != self.prog_id && self.predicate1_id != self.predicate2_id {
                Some(mkuuid(v))
            } else {
                None
            },
            None => None,
        };
        let mut ops: Vec<ProvOp> = Vec::new();
        push_prov(&mut ops, ProvOp::Declare { ty: ConcreteKind::Program, uuid: prog });
        match pr1 {
            Some(u) => push_prov(&mut ops, ProvOp::Declare { ty: ConcreteKind::Object, uuid: u }),
            None => {},
        }
        match pr2 {
            Some(u) => push_prov(&mut ops, ProvOp::Declare { ty: ConcreteKind::Object, uuid: u }),
            None => {},
        }
        let ghost decls = prov_ops_view(ops@);
        assert(decls =~= seq![ProvOpV::Declare { ty: ConcreteKind::Program, uuid: prog }] + opt_declare(pr1)
            + opt_declare(pr2));
        push_opt_flow(&mut ops, self.flow, prog, pr1);
        push_opt_flow(&mut ops, self.flow, prog, pr2);
        ops
    }
}

/// A property set on a node.
pub open spec fn meta(ent: u128, key: Seq<char>, val: Seq<char>) -> ProvOpV {
    ProvOpV::Meta { ent, key, val }
}

/// The calls for a program definition: declare it and set its properties,
/// in order.
pub open spec fn program_plan(p: DefineProgram) -> Seq<ProvOpV> {
    let u = obj_uuid(p.id);
    seq![
        ProvOpV::Declare { ty: ConcreteKind::Program, uuid: u },
        meta(u, "host_uuid"@, hyphenated_text(obj_uuid(p.host_id))),
        meta(u, "pname"@, p.pname@),
        meta(u, "pid"@, decimal_int(p.pid as int)),
        meta(u, "ppid"@, decimal_int(p.ppid as int)),
        meta(u, "uid"@, decimal_int(p.uid as int)),
        meta(u, "start_time"@, decimal_int(p.start_time as int)),
    ]
}

impl DefineProgram {
    /// The calls the model makes for the definition.
    pub fn parse(&self) -> (r: Vec<ProvOp>)
        ensures
            prov_ops_view(r@) == program_plan(*self),
    {
        let u = mkuuid(self.id);
        let mut ops: Vec<ProvOp> = Vec::new();
        push_prov(&mut ops, ProvOp::Declare { ty: ConcreteKind::Program, uuid: u });
        push_prov(&mut ops, ProvOp::Meta { ent: u, key: "host_uuid", val: uuid_to_string(mkuuid(self.host_id)) });
        push_prov(&mut ops, ProvOp::Meta { ent: u, key: "pname", val: self.pname.clone() });
        push_prov(&mut ops, ProvOp::Meta { ent: u, key: "pid", val: fmt_i64(self.pid as i64) });
        push_prov(&mut ops, ProvOp::Meta { ent: u, key: "ppid", val: fmt_i64(self.ppid as i64) });
        push_prov(&mut ops, ProvOp::Meta { ent: u, key: "uid", val: fmt_i64(self.uid as i64) });
        push_prov(&mut ops, ProvOp::Meta { ent: u, key: "start_time", val: fmt_i64(self.start_time) });
        assert(prov_ops_view(ops@) =~= program_plan(*self));
        ops
    }
}

/// The calls for a flow definition: declare the program and the object
/// (a file numbered by the object's type), then a read or a write.
pub open spec fn prov_plan(p: DefineProv) -> Seq<ProvOpV> {
    let prog = obj_uuid(p.prog_id);
    let prov = obj_uuid(p.prov_type as u32);
    seq![
        ProvOpV::Declare { ty: ConcreteKind::Program, uuid: prog },
        ProvOpV::Declare { ty: ConcreteKind::File, uuid: prov },
        match p.flow {
            ProvFlow::Src => ProvOpV::Source { act: prog, ent: prov },
            ProvFlow::Sink => ProvOpV::Sink { act: prog, ent: prov },
        },
    ]
}

impl DefineProv {
    /// The calls the model makes for the definition.
    pub fn parse(&self) -> (r: Vec<ProvOp>)
        ensures
            prov_ops_view(r@) == prov_plan(*self),
    {
        let prog = mkuuid(self.prog_id);
        let prov = mkuuid(self.prov_type as u32);
        let mut ops: Vec<ProvOp> = Vec::new();
        push_prov(&mut ops, ProvOp::Declare { ty: ConcreteKind::Program, uuid: prog });
        push_prov(&mut ops, ProvOp::Declare { ty: ConcreteKind::File, uuid: prov });
        match self.flow {
            ProvFlow::Src => push_prov(&mut ops, ProvOp::Source { act: prog, ent: prov }),
            ProvFlow::Sink => push_prov(&mut ops, ProvOp::Sink { act: prog, ent: prov }),
        }
        assert(prov_ops_view(ops@) =~= prov_plan(*self));
        ops
    }
}

/// The calls for an object definition: files, network flows, pipes and
/// binder objects are declared, named where they have a name, and given
/// their properties; other objects ask nothing.
pub open spec fn prov_type_plan(d: DefineProvType) -> Seq<ProvOpV> {
    let u = obj_uuid(d.id);
    match d.object {
        ProvTypeObject::File { path, permissions, file_type, size_in_bytes } => seq![
            ProvOpV::Declare { ty: ConcreteKind::File, uuid: u },
            ProvOpV::Name { ent: u, name: ProvNameV::Path(path@) },
            meta(u, "permissions"@, decimal_int(permissions as int)),
            meta(u, "file_type"@, file_type@),
        ] + match size_in_bytes {
            Some(sb) => seq![meta(u, "size_in_bytes"@, decimal_int(sb as int))],
            None => Seq::empty(),
        },
        ProvTypeObject::Network { local_address, local_port, protocol, .. } => seq![
            ProvOpV::Declare { ty: ConcreteKind::Netflow, uuid: u },
            ProvOpV::Name { ent: u, name: ProvNameV::Net(local_address@, local_port as u16) },
            meta(u, "protocol"@, decimal_int(protocol as int)),
        ],
        ProvTypeObject::Pipe { unique_id } => seq![
            ProvOpV::Declare { ty: ConcreteKind::Pipe, uuid: u },
            meta(u, "unique_id"@, unique_id@),
        ],
        ProvTypeObject::Binder { kind, .. } => seq![
            ProvOpV::Declare { ty: ConcreteKind::Binder, uuid: u },
            meta(u, "kind"@, kind.spec_name()),
        ],
        _ => Seq::empty(),
    }
}

impl DefineProvType {
    /// The calls the model makes for the definition.
    pub fn parse(&self) -> (r: Vec<ProvOp>)
        ensures
            prov_ops_view(r@) == prov_type_plan(*self),
    {
        let u = mkuuid(self.id);
        let mut ops: Vec<ProvOp> = Vec::new();
        match &self.object {
            ProvTypeObject::File { path, permissions, file_type, size_in_bytes } => {
                push_prov(&mut ops, ProvOp::Declare { ty: ConcreteKind::File, uuid: u });
                push_prov(&mut ops, ProvOp::Name { ent: u, name: ProvName::Path(path.clone()) });
                push_prov(&mut ops, ProvOp::Meta { ent: u, key: "permissions", val: fmt_i64(*permissions as i64) });
                push_prov(&mut ops, ProvOp::Meta { ent: u, key: "file_type", val: file_type.clone() });
                match size_in_bytes {
                    Some(sb) => push_prov(&mut ops, ProvOp::Meta { ent: u, key: "size_in_bytes", val: fmt_i64(*sb) }),
                    None => {},
                }
            },
            ProvTypeObject::Network { local_address, local_port, protocol, .. } => {
                push_prov(&mut ops, ProvOp::Declare { ty: ConcreteKind::Netflow, uuid: u });
                push_prov(&mut ops, ProvOp::Name { ent: u, name: ProvName::Net(local_address.clone(), *local_port as u16) });
                push_prov(&mut ops, ProvOp::Meta { ent: u, key: "protocol", val: fmt_i64(*protocol as i64) });
            },
            ProvTypeObject::Pipe { unique_id } => {
                push_prov(&mut ops, ProvOp::Declare { ty: ConcreteKind::Pipe, uuid: u });
                push_prov(&mut ops, ProvOp::Meta { ent: u, key: "unique_id", val: unique_id.clone() });
            },
            ProvTypeObject::Binder { kind, .. } => {
                push_prov(&mut ops, ProvOp::Declare { ty: ConcreteKind::Binder, uuid: u });
                push_prov(&mut ops, ProvOp::Meta { ent: u, key: "kind", val: to_owned(kind.name()) });
            },
            _ => {},
        }
        assert(prov_ops_view(ops@) =~= prov_type_plan(*self));
        ops
    }
}

/// The calls for a record: programs, flows, objects and events ask the
/// model for something; the other records ask nothing.
pub open spec fn message_plan(m: ProvMessage) -> Seq<ProvOpV> {
    match m {
        ProvMessage::DefineProgram(p) => program_plan(p),
        ProvMessage::DefineProv(p) => prov_plan(p),
        ProvMessage::DefineProvType(d) => prov_type_plan(d),
        ProvMessage::Event(e) => event_plan(e),
        _ => Seq::empty(),
    }
}

impl ProvMessage {
    /// The calls the model makes for the record.
    pub fn parse(&self) -> (r: Vec<ProvOp>)
        ensures
            prov_ops_view(r@) == message_plan(*self),
    {
        match self {
            ProvMessage::DefineProgram(p) => p.parse(),
            ProvMessage::DefineProv(p) => p.parse(),
            ProvMessage::DefineProvType(d) => d.parse(),
            ProvMessage::Event(e) => e.parse(),
            _ => {
                let r: Vec<ProvOp> = Vec::new();
                assert(prov_ops_view(r@) =~= Seq::<ProvOpV>::empty());
                r
            },
        }
    }
}


/// Where the concrete kinds of the records stand among the model's
/// registered data types.
#[derive(Clone, Copy, Debug)]
pub struct ProvTypes {
    pub program: usize,
    pub object: usize,
    pub file: usize,
    pub netflow: usize,
    pub binder: usize,
    pub pipe: usize,
}

/// The registered index of kind `k`.
pub open spec fn type_index(t: ProvTypes, k: ConcreteKind) -> usize {
    match k {
        ConcreteKind::Program => t.program,
        ConcreteKind::Object => t.object,
        ConcreteKind::File => t.file,
        ConcreteKind::Netflow => t.netflow,
        ConcreteKind::Binder => t.binder,
        ConcreteKind::Pipe => t.pipe,
    }
}

impl ProvTypes {
    /// The registered index of kind `k`.
    pub fn index(&self, k: ConcreteKind) -> (r: usize)
        ensures
            r == type_index(*self, k),
    {
        match k {
            ConcreteKind::Program => self.program,
            ConcreteKind::Object => self.object,
            ConcreteKind::File => self.file,
            ConcreteKind::Netflow => self.netflow,
            ConcreteKind::Binder => self.binder,
            ConcreteKind::Pipe => self.pipe,
        }
    }
}

/// Every kind's index is a registered data type of the model.
pub open spec fn types_ok(s: PvmState, t: ProvTypes) -> bool {
    forall|k: ConcreteKind| #[trigger] type_index(t, k) < s.types.len()
}

/// The role of the nodes of a concrete kind in the model.
pub open spec fn role_type(k: ConcreteKind) -> PVMDataType {
    match k {
        ConcreteKind::Program => PVMDataType::Actor,
        ConcreteKind::Object => PVMDataType::Object,
        ConcreteKind::File => PVMDataType::Store,
        ConcreteKind::Netflow => PVMDataType::Conduit,
        ConcreteKind::Binder => PVMDataType::Conduit,
        ConcreteKind::Pipe => PVMDataType::Conduit,
    }
}

/// The name of a concrete kind.
pub open spec fn kind_name(k: ConcreteKind) -> Seq<char> {
    match k {
        ConcreteKind::Program => "program"@,
        ConcreteKind::Object => "object"@,
        ConcreteKind::File => "file"@,
        ConcreteKind::Netflow => "netflow"@,
        ConcreteKind::Binder => "binder"@,
        ConcreteKind::Pipe => "pipe"@,
    }
}

/// `t` is the data type of kind `k`: its role, name and properties.
pub open spec fn is_concrete(t: ConcreteType, k: ConcreteKind) -> bool {
    &&& t.pvm_ty == role_type(k)
    &&& t.name@ == kind_name(k)
    &&& t.props@.map_values(|p: (String, bool)| (p.0@, p.1)) == concrete_props_spec(k)
}

/// The data type of kind `k`.
pub fn concrete_type(k: ConcreteKind) -> (r: ConcreteType)
    ensures
        is_concrete(r, k),
{
    let src = concrete_props(k);
    let mut props: Vec<(String, bool)> = Vec::new();
    let mut i: usize = 0;
    while i < src.len()
        invariant
            i <= src@.len(),
            props@.len() == i,
            forall|j: int| 0 <= j < i ==> (#[trigger] props@[j]).0@ == src@[j].0@ && props@[j].1 == src@[j].1,
        decreases src@.len() - i,
    {
        let (name, inherit) = src[i];
        props.push((to_owned(name), inherit));
        i = i + 1;
    }
    assert(props@.map_values(|p: (String, bool)| (p.0@, p.1)) =~= src@.map_values(|p: (&'static str, bool)| (p.0@, p.1)));
    let pvm_ty = match k {
        ConcreteKind::Program => PVMDataType::Actor,
        ConcreteKind::Object => PVMDataType::Object,
        ConcreteKind::File => PVMDataType::Store,
        ConcreteKind::Netflow => PVMDataType::Conduit,
        ConcreteKind::Binder => PVMDataType::Conduit,
        ConcreteKind::Pipe => PVMDataType::Conduit,
    };
    ConcreteType { pvm_ty, name: to_owned(concrete_name(k)), props }
}

/// Registers the data types of the records' kinds, in the order of
/// [`init_types`], and says where each stands.
pub fn init_prov(pvm: &mut PVM) -> (t: ProvTypes)
    requires
        old(pvm).wf(),
        old(pvm).state().next + 32 <= i64::MAX,
    ensures
        final(pvm).wf(),
        types_ok(final(pvm).state(), t),
        forall|k: ConcreteKind| #[trigger] is_concrete(final(pvm).state().types[type_index(t, k) as int], k),
        t == (ProvTypes {
            program: old(pvm).state().types.len() as usize,
            file: (old(pvm).state().types.len() + 1) as usize,
            netflow: (old(pvm).state().types.len() + 2) as usize,
            object: (old(pvm).state().types.len() + 3) as usize,
            binder: (old(pvm).state().types.len() + 4) as usize,
            pipe: (old(pvm).state().types.len() + 5) as usize,
        }),
        final(pvm).state().types.len() == old(pvm).state().types.len() + 6,
        final(pvm).state().types.subrange(0, old(pvm).state().types.len() as int) == old(pvm).state().types,
        final(pvm).state().next == old(pvm).state().next + 6,
        final(pvm).state().ops == old(pvm).state().ops + seq![
            PvmOp::DataSchema { id: ID(old(pvm).state().next as i64), ty: t.program },
            PvmOp::DataSchema { id: ID((old(pvm).state().next + 1) as i64), ty: t.file },
            PvmOp::DataSchema { id: ID((old(pvm).state().next + 2) as i64), ty: t.netflow },
            PvmOp::DataSchema { id: ID((old(pvm).state().next + 3) as i64), ty: t.object },
            PvmOp::DataSchema { id: ID((old(pvm).state().next + 4) as i64), ty: t.binder },
            PvmOp::DataSchema { id: ID((old(pvm).state().next + 5) as i64), ty: t.pipe },
        ],
        final(pvm).state() == (PvmState {
            next: final(pvm).state().next,
            types: final(pvm).state().types,
            ops: final(pvm).state().ops,
            ..old(pvm).state()
        }),
{
    let ghost s0 = pvm.state();
    let program = pvm.register_data_type(concrete_type(ConcreteKind::Program));
    let file = pvm.register_data_type(concrete_type(ConcreteKind::File));
    let netflow = pvm.register_data_type(concrete_type(ConcreteKind::Netflow));
    let object = pvm.register_data_type(concrete_type(ConcreteKind::Object));
    let binder = pvm.register_data_type(concrete_type(ConcreteKind::Binder));
    let pipe = pvm.register_data_type(concrete_type(ConcreteKind::Pipe));
    let t = ProvTypes { program, object, file, netflow, binder, pipe };
    proof {
        let s = pvm.state();
        assert(s.types.subrange(0, s0.types.len() as int) =~= s0.types);
        assert(s.ops =~= s0.ops + seq![
            PvmOp::DataSchema { id: ID(s0.next as i64), ty: t.program },
            PvmOp::DataSchema { id: ID((s0.next + 1) as i64), ty: t.file },
            PvmOp::DataSchema { id: ID((s0.next + 2) as i64), ty: t.netflow },
            PvmOp::DataSchema { id: ID((s0.next + 3) as i64), ty: t.object },
            PvmOp::DataSchema { id: ID((s0.next + 4) as i64), ty: t.binder },
            PvmOp::DataSchema { id: ID((s0.next + 5) as i64), ty: t.pipe },
        ]);
        assert forall|k: ConcreteKind| #[trigger] is_concrete(s.types[type_index(t, k) as int], k) by {
            match k {
                ConcreteKind::Program => {},
                ConcreteKind::Object => {},
                ConcreteKind::File => {},
                ConcreteKind::Netflow => {},
                ConcreteKind::Binder => {},
                ConcreteKind::Pipe => {},
            }
        }
    }
    t
}

/// The name the model gives for a record's name.
pub open spec fn prov_name(n: ProvName) -> Name {
    match n {
        ProvName::Path(p) => Name::Path(p),
        ProvName::Net(a, port) => Name::Net(a, port),
    }
}

fn to_name(n: &ProvName) -> (r: Name)
    ensures
        r == prov_name(*n),
{
    match n {
        ProvName::Path(p) => Name::Path(p.clone()),
        ProvName::Net(a, port) => Name::Net(a.clone(), *port),
    }
}

/// The state after one call of a record, or why the model cannot make it:
/// a node named by a UUID that was never declared, a read or write whose
/// actor is not an actor, a write of an actor to itself, or a property that
/// the node's type does not have.
pub open spec fn prov_step(s: PvmState, t: ProvTypes, op: ProvOp) -> Result<PvmState, PVMError> {
    match op {
        ProvOp::Declare { ty, uuid } => Ok(declare_spec(s, type_index(t, ty), uuid, None).0),
        ProvOp::Source { act, ent } => if !s.uuids.contains_key(act) {
            Err(PVMError::UnknownNode { uuid: act })
        } else if !s.uuids.contains_key(ent) {
            Err(PVMError::UnknownNode { uuid: ent })
        } else if s.nodes[s.uuids[act]].pvm_ty != PVMDataType::Actor {
            Err(PVMError::NotAnActor { uuid: act })
        } else {
            Ok(source_spec(s, s.uuids[act], s.uuids[ent]).0)
        },
        ProvOp::Sink { act, ent } => if !s.uuids.contains_key(act) {
            Err(PVMError::UnknownNode { uuid: act })
        } else if !s.uuids.contains_key(ent) {
            Err(PVMError::UnknownNode { uuid: ent })
        } else if s.nodes[s.uuids[act]].pvm_ty != PVMDataType::Actor {
            Err(PVMError::NotAnActor { uuid: act })
        } else if s.uuids[act] == s.uuids[ent] {
            Err(PVMError::SelfFlow { uuid: act })
        } else {
            Ok(sink_spec(s, s.uuids[act], s.uuids[ent]).0)
        },
        ProvOp::Name { ent, name } => if !s.uuids.contains_key(ent) {
            Err(PVMError::UnknownNode { uuid: ent })
        } else {
            Ok(name_spec(s, s.uuids[ent], prov_name(name)).0)
        },
        ProvOp::Meta { ent, key, val } => if !s.uuids.contains_key(ent) {
            Err(PVMError::UnknownNode { uuid: ent })
        } else if !has_prop(s, s.uuids[ent], key@) {
            Err(PVMError::UnknownProperty { key })
        } else {
            Ok(meta_spec(s, s.uuids[ent], key, val))
        },
    }
}

/// The calls of a record made in order, up to the first that the model
/// cannot make: the state reached, and that call's error if there is one
/// (the calls after it are not made).
pub open spec fn prov_apply(s: PvmState, t: ProvTypes, ops: Seq<ProvOp>) -> (PvmState, Result<(), PVMError>)
    decreases ops.len(),
{
    if ops.len() == 0 {
        (s, Ok(()))
    } else {
        match prov_step(s, t, ops[0]) {
            Ok(s1) => prov_apply(s1, t, ops.drop_first()),
            Err(e) => (s, Err(e)),
        }
    }
}

/// Makes one call of a record (see [`prov_step`]); when it cannot be made,
/// the model is left as it was.
fn prov_call(pvm: &mut PVM, t: &ProvTypes, op: &ProvOp) -> (r: Result<(), PVMError>)
    requires
        old(pvm).wf(),
        old(pvm).room(),
        types_ok(old(pvm).state(), *t),
    ensures
        final(pvm).wf(),
        final(pvm).state().types == old(pvm).state().types,
        old(pvm).state().next <= final(pvm).state().next <= old(pvm).state().next + 16,
        match prov_step(old(pvm).state(), *t, *op) {
            Ok(s1) => r is Ok && final(pvm).state() == s1,
            Err(e) => r == Err::<(), PVMError>(e) && final(pvm).state() == old(pvm).state(),
        },
{
    match op {
        ProvOp::Declare { ty, uuid } => {
            let i = t.index(*ty);
            assert(type_index(*t, *ty) < pvm.state().types.len());
            pvm.declare(i, *uuid, None);
            Ok(())
        },
        ProvOp::Source { act, ent } => {
            let a = match pvm.node_of(*act) {
                Some(a) => a,
                None => return Err(PVMError::UnknownNode { uuid: *act }),
            };
            let e = match pvm.node_of(*ent) {
                Some(e) => e,
                None => return Err(PVMError::UnknownNode { uuid: *ent }),
            };
            if pvm.role_of(a) != PVMDataType::Actor {
                return Err(PVMError::NotAnActor { uuid: *act });
            }
            pvm.source(a, e);
            Ok(())
        },
        ProvOp::Sink { act, ent } => {
            let a = match pvm.node_of(*act) {
                Some(a) => a,
                None => return Err(PVMError::UnknownNode { uuid: *act }),
            };
            let e = match pvm.node_of(*ent) {
                Some(e) => e,
                None => return Err(PVMError::UnknownNode { uuid: *ent }),
            };
            if pvm.role_of(a) != PVMDataType::Actor {
                return Err(PVMError::NotAnActor { uuid: *act });
            }
            if a.0 == e.0 {
                return Err(PVMError::SelfFlow { uuid: *act });
            }
            pvm.sink(a, e);
            Ok(())
        },
        ProvOp::Name { ent, name } => {
            let e = match pvm.node_of(*ent) {
                Some(e) => e,
                None => return Err(PVMError::UnknownNode { uuid: *ent }),
            };
            pvm.name(e, to_name(name));
            Ok(())
        },
        ProvOp::Meta { ent, key, val } => {
            let e = match pvm.node_of(*ent) {
                Some(e) => e,
                None => return Err(PVMError::UnknownNode { uuid: *ent }),
            };
            if !pvm.has_property(e, key) {
                return Err(PVMError::UnknownProperty { key: *key });
            }
            pvm.meta(e, *key, val.clone());
            Ok(())
        },
    }
}

/// Makes the calls of a record in order (see [`prov_apply`]): the first
/// call the model cannot make ends the record with its error, and the model
/// stays as the calls before it left it.
pub fn apply_prov(pvm: &mut PVM, t: &ProvTypes, ops: &Vec<ProvOp>) -> (r: Result<(), PVMError>)
    requires
        old(pvm).wf(),
        types_ok(old(pvm).state(), *t),
        old(pvm).state().next + 16 * ops@.len() + 16 <= i64::MAX,
    ensures
        final(pvm).wf(),
        (final(pvm).state(), r) == prov_apply(old(pvm).state(), *t, ops@),
{
    let ghost s_init = pvm.state();
    let mut res: Result<(), PVMError> = Ok(());
    let mut i: usize = 0;
    assert(ops@.subrange(0, ops@.len() as int) =~= ops@);
    while i < ops.len()
        invariant_except_break
            i <= ops@.len(),
            res == Ok::<(), PVMError>(()),
            ops@.subrange(ops@.len() as int, ops@.len() as int) =~= Seq::<ProvOp>::empty(),
            pvm.state().next + 16 * (ops@.len() - i) + 16 <= i64::MAX,
            prov_apply(s_init, *t, ops@) == prov_apply(pvm.state(), *t, ops@.subrange(i as int, ops@.len() as int)),
        invariant
            pvm.wf(),
            types_ok(pvm.state(), *t),
        ensures
            (pvm.state(), res) == prov_apply(s_init, *t, ops@),
        decreases ops@.len() - i,
    {
        let ghost s0 = pvm.state();
        let ghost rest = ops@.subrange(i as int, ops@.len() as int);
        assert(rest[0] == ops@[i as int]);
        assert(rest.drop_first() =~= ops@.subrange(i + 1, ops@.len() as int));
        match prov_call(pvm, t, &ops[i]) {
            Ok(()) => {},
            Err(e) => {
                res = Err(e);
                assert(prov_apply(s0, *t, rest) == (s0, Err::<(), PVMError>(e)));
                break;
            },
        }
        i = i + 1;
    }
    res
}


/// Whether every kind's index is a registered data type of the model.
pub fn prov_types_ok(pvm: &PVM, t: &ProvTypes) -> (r: bool)
    ensures
        r == types_ok(pvm.state(), *t),
{
    let n = pvm.type_count();
    let ok = t.program < n && t.object < n && t.file < n && t.netflow < n && t.binder < n && t.pipe < n;
    proof {
        if ok {
            assert forall|k: ConcreteKind| #[trigger] type_index(*t, k) < pvm.state().types.len() by {
                match k {
                    ConcreteKind::Program => {},
                    ConcreteKind::Object => {},
                    ConcreteKind::File => {},
                    ConcreteKind::Netflow => {},
                    ConcreteKind::Binder => {},
                    ConcreteKind::Pipe => {},
                }
            }
        } else {
            assert(!(type_index(*t, ConcreteKind::Program) < n && type_index(*t, ConcreteKind::Object) < n
                && type_index(*t, ConcreteKind::File) < n && type_index(*t, ConcreteKind::Netflow) < n
                && type_index(*t, ConcreteKind::Binder) < n && type_index(*t, ConcreteKind::Pipe) < n));
        }
    }
    ok
}

/// Applies one record to the model: the calls of its plan (see
/// [`message_plan`]), made in order up to the first the model cannot make.
pub fn parse_prov(m: &ProvMessage, pvm: &mut PVM, t: &ProvTypes) -> (r: Result<(), PVMError>)
    requires
        old(pvm).wf(),
        types_ok(old(pvm).state(), *t),
        old(pvm).state().next + 16 * 8 + 16 <= i64::MAX,
    ensures
        final(pvm).wf(),
        exists|ops: Seq<ProvOp>|
            prov_ops_view(ops) == message_plan(*m) && (final(pvm).state(), r) == #[trigger] prov_apply(
                old(pvm).state(),
                *t,
                ops,
            ),
{
    let ops = m.parse();
    assert(prov_ops_view(ops@).len() == ops@.len());
    assert(message_plan(*m).len() <= 8);
    apply_prov(pvm, t, &ops)
}


/// A flow definition records the program's access in the direction of its
/// flow field: a read (`Src`) is a read flow from the object into the
/// program, a write (`Sink`) a write flow from the program into the object,
/// and never the other way.
pub proof fn lemma_prov_flow_direction(p: DefineProv, r: Vec<ProvOp>)
    requires
        prov_ops_view(r@) == prov_plan(p),
    ensures
        r@.len() == 3,
        p.flow == ProvFlow::Src ==> prov_ops_view(r@)[2] == (ProvOpV::Source {
            act: p.prog_id as u128,
            ent: (p.prov_type as u32) as u128,
        }),
        p.flow == ProvFlow::Sink ==> prov_ops_view(r@)[2] == (ProvOpV::Sink {
            act: p.prog_id as u128,
            ent: (p.prov_type as u32) as u128,
        }),
        forall|i: int| 0 <= i < r@.len() && (#[trigger] prov_ops_view(r@)[i] is Sink) ==> p.flow == ProvFlow::Sink,
        forall|i: int| 0 <= i < r@.len() && (#[trigger] prov_ops_view(r@)[i] is Source) ==> p.flow == ProvFlow::Src,
{
    assert(prov_ops_view(r@).len() == r@.len());
}

/// An event records the program's access to its objects in the direction
/// of its flow field: reads (`Src`) only as read flows from an object into
/// the program, writes (`Sink`) only as write flows from the program into an
/// object, and other events no flow; an event that reads its first object,
/// when that object is not the program, records that read.
pub proof fn lemma_event_flow_direction(e: Event, r: Vec<ProvOp>)
    requires
        prov_ops_view(r@) == event_plan(e),
    ensures
        forall|i: int|
            0 <= i < r@.len() && (#[trigger] prov_ops_view(r@)[i] is Sink) ==> e.flow == EventFlow::Sink
                && prov_ops_view(r@)[i]->Sink_act == e.prog_id as u128,
        forall|i: int|
            0 <= i < r@.len() && (#[trigger] prov_ops_view(r@)[i] is Source) ==> e.flow == EventFlow::Src
                && prov_ops_view(r@)[i]->Source_act == e.prog_id as u128,
        forall|v: u32|
            e.flow == EventFlow::Src && e.predicate1_id == Some(v) && v != e.prog_id ==> prov_ops_view(r@).contains(
                ProvOpV::Source { act: e.prog_id as u128, ent: v as u128 },
            ),
{
    let ops = prov_ops_view(r@);
    let prog = obj_uuid(e.prog_id);
    let (pr1, pr2) = event_objects(e);
    let d = seq![ProvOpV::Declare { ty: ConcreteKind::Program, uuid: prog }] + opt_declare(pr1) + opt_declare(pr2);
    let f1 = opt_flow(e.flow, prog, pr1);
    let f2 = opt_flow(e.flow, prog, pr2);
    assert(ops == d + f1 + f2);
    assert forall|i: int| 0 <= i < d.len() implies d[i] is Declare by {
        if i >= 1 {
            if pr1 is Some && i == 1 {
            } else {
            }
        }
    }
    assert forall|i: int| 0 <= i < ops.len() implies (#[trigger] ops[i] is Sink ==> e.flow == EventFlow::Sink
        && ops[i]->Sink_act == e.prog_id as u128) && (ops[i] is Source ==> e.flow == EventFlow::Src
        && ops[i]->Source_act == e.prog_id as u128) by {
        if i < d.len() {
            assert(ops[i] == d[i]);
        } else if i < d.len() + f1.len() {
            assert(ops[i] == f1[i - d.len()]);
        } else {
            assert(ops[i] == f2[i - d.len() - f1.len()]);
        }
    }
    if e.flow == EventFlow::Src {
        if let Some(v) = e.predicate1_id {
            if v != e.prog_id {
                assert(ops[d.len() as int] == f1[0]);
            }
        }
    }
}


/// A file definition declares the file under the definition's number, names
/// it by its path, and sets its permissions, its file type and, only when the
/// definition has one, its size, in that order.
pub proof fn lemma_file_definition(d: DefineProvType, r: Vec<ProvOp>)
    requires
        d.object is File,
        prov_ops_view(r@) == prov_type_plan(d),
    ensures
        ({
            let ops = prov_ops_view(r@);
            let u = d.id as u128;
            &&& r@.len() == (if d.object->File_size_in_bytes is Some { 5int } else { 4int })
            &&& ops[0] == (ProvOpV::Declare { ty: ConcreteKind::File, uuid: u })
            &&& ops[1] == (ProvOpV::Name { ent: u, name: ProvNameV::Path(d.object->File_path@) })
            &&& ops[2] == (ProvOpV::Meta { ent: u, key: "permissions"@, val: decimal_int(d.object->File_permissions as int) })
            &&& ops[3] == (ProvOpV::Meta { ent: u, key: "file_type"@, val: d.object->File_file_type@ })
            &&& (d.object->File_size_in_bytes matches Some(sb) ==> ops[4] == (ProvOpV::Meta {
                ent: u,
                key: "size_in_bytes"@,
                val: decimal_int(sb as int),
            }))
        }),
{
    assert(prov_ops_view(r@).len() == r@.len());
}

} // verus!
