//! The configuration model: plain values mirroring the TOML layout.
//! Loading and deserialising the file is host work; the engine is built
//! from these values alone.

pub mod default;

use crate::placeholder::PlaceholderMap;
use vstd::prelude::*;

verus! {

/// The whole configuration.
#[derive(Debug)]
pub struct Config {
    pub general: General,
    pub log: Log,
    pub report: Report,
    pub actions: Vec<Action>,
    pub checks: Vec<Check>,
}

#[derive(Debug)]
pub struct General {
    pub boot_delay: Option<u32>,
    pub start_delay: Option<u32>,
}

#[derive(Debug)]
pub struct Log {
    pub level: LogLevel,
    pub target: LogTarget,
}

#[derive(Clone, Copy, Debug, PartialEq, Eq, Structural)]
pub enum LogLevel {
    Debug,
    Info,
    Warning,
    Error,
}

#[derive(Clone, Copy, Debug, PartialEq, Eq, Structural)]
pub enum LogTarget {
    Stdout,
    Stderr,
    Journal,
}

#[derive(Debug)]
pub struct Report {
    pub disable: bool,
    pub when: ReportWhen,
    pub placeholders: PlaceholderMap,
    pub events: Vec<ReportEvent>,
}

/// When the report fires: a plain interval in seconds, a cron expression,
/// or the default interval where neither is given.
#[derive(Debug)]
pub struct ReportWhen {
    pub interval: Option<u32>,
    pub cron: Option<String>,
}

#[derive(Debug)]
pub struct ReportEvent {
    pub disable: bool,
    pub name: String,
    pub action: String,
    pub placeholders: PlaceholderMap,
}

#[derive(Debug)]
pub struct Action {
    pub disable: bool,
    pub name: String,
    pub timeout: u32,
    pub placeholders: PlaceholderMap,
    pub type_: ActionType,
}

#[derive(Debug)]
pub enum ActionType {
    Email(ActionEmail),
    Log(ActionLog),
    Process(ActionProcess),
    Webhook(ActionWebhook),
}

#[derive(Debug)]
pub struct ActionEmail {
    pub from: String,
    pub to: String,
    pub reply_to: Option<String>,
    pub subject: String,
    pub body: String,
    pub smtp_server: String,
    pub smtp_port: Option<u16>,
    pub smtp_security: SmtpSecurity,
    pub username: String,
    pub password: String,
}

#[derive(Clone, Copy, Debug, PartialEq, Eq, Structural)]
pub enum SmtpSecurity {
    Tls,
    StartTls,
    Plain,
}

#[derive(Debug)]
pub struct ActionLog {
    pub level: LogLevel,
    pub template: String,
}

#[derive(Debug)]
pub struct ActionProcess {
    pub process_config: ProcessConfig,
}

#[derive(Debug)]
pub struct ActionWebhook {
    pub url: String,
    pub method: HttpMethod,
    pub headers: PlaceholderMap,
    pub body: String,
}

#[derive(Clone, Copy, Debug, PartialEq, Eq, Structural)]
pub enum HttpMethod {
    Get,
    Post,
    Put,
    Delete,
    Patch,
}

#[derive(Debug)]
pub struct Check {
    pub disable: bool,
    pub interval: u32,
    pub name: String,
    pub timeout: Option<u32>,
    pub placeholders: PlaceholderMap,
    pub filter: Option<Filter>,
    pub type_: CheckType,
    pub alarms: Vec<Alarm>,
}

#[derive(Debug)]
pub enum CheckType {
    DockerContainerStatus(CheckDockerContainerStatus),
    FilesystemUsage(CheckFilesystemUsage),
    MemoryUsage(CheckMemoryUsage),
    NetworkThroughput(CheckNetworkThroughput),
    PressureAverage(CheckPressureAverage),
    ProcessExitStatus(CheckProcessExitStatus),
    SystemdUnitStatus(CheckSystemdUnitStatus),
    Temperature(CheckTemperature),
}

#[derive(Debug)]
pub struct CheckDockerContainerStatus {
    pub socket_path: String,
    pub containers: Vec<String>,
}

#[derive(Debug)]
pub struct CheckFilesystemUsage {
    pub mountpoints: Vec<String>,
}

#[derive(Debug)]
pub struct CheckMemoryUsage {
    pub memory: bool,
    pub swap: bool,
}

#[derive(Debug)]
pub struct CheckNetworkThroughput {
    pub interfaces: Vec<String>,
    pub received: bool,
    pub sent: bool,
    pub log_format: DataSizeFormat,
}

#[derive(Clone, Copy, Debug, PartialEq, Eq, Structural)]
pub enum DataSizeFormat {
    Binary,
    Decimal,
    Bytes,
}

#[derive(Debug)]
pub struct CheckPressureAverage {
    pub cpu: bool,
    pub io: PressureChoice,
    pub memory: PressureChoice,
    pub avg10: bool,
    pub avg60: bool,
    pub avg300: bool,
}

/// Which stall lines of a pressure file feed the check: neither, the
/// `some` line, the `full` line, or both.
#[derive(Clone, Copy, Debug, PartialEq, Eq, Structural)]
pub enum PressureChoice {
    Neither,
    SomeStall,
    FullStall,
    Both,
}

#[derive(Debug)]
pub struct CheckSystemdUnitStatus {
    pub units: Vec<SystemdUnitConfig>,
}

/// A system unit named directly, or a user unit with the owning uid.
#[derive(Debug)]
pub enum SystemdUnitConfig {
    System(String),
    User(SystemdUnitConfigUser),
}

#[derive(Debug)]
pub struct SystemdUnitConfigUser {
    pub unit: String,
    pub uid: u32,
}

impl SystemdUnitConfig {
    pub fn unit(&self) -> (r: &String)
        ensures
            r@ == self.spec_unit(),
    {
        match self {
            SystemdUnitConfig::System(unit) => unit,
            SystemdUnitConfig::User(config) => &config.unit,
        }
    }

    pub open spec fn spec_unit(&self) -> Seq<char> {
        match self {
            SystemdUnitConfig::System(unit) => unit@,
            SystemdUnitConfig::User(config) => config.unit@,
        }
    }

    pub fn uid(&self) -> (r: u32)
        ensures
            r == self.spec_uid(),
    {
        match self {
            SystemdUnitConfig::System(_) => 0,
            SystemdUnitConfig::User(config) => config.uid,
        }
    }

    pub open spec fn spec_uid(&self) -> u32 {
        match self {
            SystemdUnitConfig::System(_) => 0u32,
            SystemdUnitConfig::User(config) => config.uid,
        }
    }
}

#[derive(Debug)]
pub struct CheckTemperature {
    pub sensors: Vec<SensorsId>,
}

/// A sensor named by chip, or by chip and feature label.
#[derive(Debug)]
pub enum SensorsId {
    Sensor(String),
    SensorWithLabel(SensorsIdLabel),
}

#[derive(Debug)]
pub struct SensorsIdLabel {
    pub sensor: String,
    pub label: String,
}

impl SensorsId {
    pub fn sensor(&self) -> (r: &String)
        ensures
            r@ == self.spec_sensor(),
    {
        match self {
            SensorsId::Sensor(sensor) => sensor,
            SensorsId::SensorWithLabel(config) => &config.sensor,
        }
    }

    pub open spec fn spec_sensor(&self) -> Seq<char> {
        match self {
            SensorsId::Sensor(sensor) => sensor@,
            SensorsId::SensorWithLabel(config) => config.sensor@,
        }
    }

    pub fn label(&self) -> (r: Option<&String>)
        ensures
            match self {
                SensorsId::Sensor(_) => r is None,
                SensorsId::SensorWithLabel(config) => r matches Some(l) && l@ == config.label@,
            },
    {
        match self {
            SensorsId::Sensor(_) => None,
            SensorsId::SensorWithLabel(config) => Some(&config.label),
        }
    }
}

#[derive(Debug)]
pub struct CheckProcessExitStatus {
    pub process_config: ProcessConfig,
}

/// How to run a child process: executable path, arguments, environment,
/// working directory, credentials, and output caps.
#[derive(Debug)]
pub struct ProcessConfig {
    pub path: String,
    pub arguments: Vec<String>,
    pub environment_variables: PlaceholderMap,
    pub working_directory: Option<String>,
    pub uid: Option<u32>,
    pub gid: Option<u32>,
    pub stdout_max: u32,
    pub stderr_max: u32,
}

#[derive(Debug)]
pub enum Filter {
    Average(FilterAverage),
    Peak(FilterPeak),
    Sum(FilterSum),
}

#[derive(Debug)]
pub struct FilterAverage {
    pub window_config: FilterWindowConfig,
}

#[derive(Debug)]
pub struct FilterPeak {
    pub window_config: FilterWindowConfig,
}

#[derive(Debug)]
pub struct FilterSum {
    pub window_config: FilterWindowConfig,
}

#[derive(Debug)]
pub struct FilterWindowConfig {
    pub window_size: u16,
}

#[derive(Debug)]
pub struct Alarm {
    pub disable: bool,
    pub name: String,
    pub action: String,
    pub placeholders: PlaceholderMap,
    pub cycles: u32,
    pub repeat_cycles: u32,
    pub recover_action: Option<String>,
    pub recover_placeholders: PlaceholderMap,
    pub recover_cycles: u32,
    pub error_action: Option<String>,
    pub error_placeholders: PlaceholderMap,
    pub error_repeat_cycles: u32,
    pub error_recover_action: Option<String>,
    pub error_recover_placeholders: PlaceholderMap,
    pub invert: bool,
    pub type_: AlarmType,
}

#[derive(Debug)]
pub enum AlarmType {
    DataSize(AlarmDataSize),
    Default(AlarmDefault),
    StatusCode(AlarmStatusCode),
    Level(AlarmLevel),
    Temperature(AlarmTemperature),
    Integer(AlarmInteger),
}

#[derive(Debug)]
pub struct AlarmDataSize {
    pub unit: DataSizeUnit,
    pub data_size: u64,
}

#[derive(Clone, Copy, Debug, PartialEq, Eq, Structural)]
pub enum DataSizeUnit {
    Byte,
    Kilobyte,
    Megabyte,
    Gigabyte,
    Kibibyte,
    Mebibyte,
    Gibibyte,
}

impl DataSizeUnit {
    /// How many bytes one of this unit holds.
    pub fn factor(&self) -> (r: u64)
        ensures
            r == self.spec_factor(),
    {
        match self {
            DataSizeUnit::Byte => 1,
            DataSizeUnit::Kilobyte => 1000,
            DataSizeUnit::Megabyte => 1000000,
            DataSizeUnit::Gigabyte => 1000000000,
            DataSizeUnit::Kibibyte => 1024,
            DataSizeUnit::Mebibyte => 1048576,
            DataSizeUnit::Gibibyte => 1073741824,
        }
    }

    pub open spec fn spec_factor(&self) -> u64 {
        match self {
            DataSizeUnit::Byte => 1u64,
            DataSizeUnit::Kilobyte => 1000u64,
            DataSizeUnit::Megabyte => 1000000u64,
            DataSizeUnit::Gigabyte => 1000000000u64,
            DataSizeUnit::Kibibyte => 1024u64,
            DataSizeUnit::Mebibyte => 1048576u64,
            DataSizeUnit::Gibibyte => 1073741824u64,
        }
    }
}

impl AlarmDataSize {
    /// The configured threshold in bytes, saturating at the largest byte
    /// count rather than overflowing.
    pub fn bytes(&self) -> (r: u64)
        ensures
            r == spec_min_u64(self.data_size as int * self.unit.spec_factor() as int),
    {
        let p: u128 = (self.data_size as u128) * (self.unit.factor() as u128);
        if p > u64::MAX as u128 {
            u64::MAX
        } else {
            p as u64
        }
    }
}

/// A non-negative value clipped into `u64`.
pub open spec fn spec_min_u64(x: int) -> u64 {
    if x > u64::MAX as int {
        u64::MAX
    } else {
        x as u64
    }
}

/// A dummy for alarms that need no kind-specific fields.
#[derive(Debug)]
pub struct AlarmDefault {
}

#[derive(Debug)]
pub struct AlarmLevel {
    pub level: u8,
}

#[derive(Debug)]
pub struct AlarmStatusCode {
    pub status_codes: Vec<u8>,
}

#[derive(Debug)]
pub struct AlarmTemperature {
    pub temperature: i16,
}

#[derive(Debug)]
pub struct AlarmInteger {
    pub min: Option<i64>,
    pub max: Option<i64>,
}

} // verus!
