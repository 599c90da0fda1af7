use vstd::prelude::*;

pub use crate::duration::{format_duration, Duration};

verus! {

/// Values for task compatibility
/// Task compatibility, which is set through the Compatibility property, should only be set to `Compatibility.V1`
/// if a task needs to be accessed or modified from a Windows XP, Windows Server 2003, or Windows 2000 computer.
/// Otherwise, it is recommended that Task Scheduler 2.0 compatibility be used because the task will have more features.
/// Tasks compatible with the AT command can only have one time trigger.
/// Tasks compatible with Task Scheduler 1.0 can only have a time trigger, a logon trigger, or a boot trigger, and the
/// task can only have an executable action.
///
/// See <https://docs.microsoft.com/en-us/windows/win32/taskschd/tasksettings-compatibility>
#[derive(Debug, Clone, Copy, PartialEq, Eq, Structural)]
pub enum Compatibility {
    /// The task is compatible with the AT command.
    AT,
    /// The task is compatible with Task Scheduler 1.0.
    V1,
    /// The task is compatible with Task Scheduler 2.0.
    V2,
}

impl Compatibility {
    /// The number that a task store knows the value by.
    pub open spec fn spec_value(self) -> i32 {
        match self {
            Compatibility::AT => 0,
            Compatibility::V1 => 1,
            Compatibility::V2 => 2,
        }
    }

    /// The number that a task store knows the value by.
    pub fn value(self) -> (v: i32)
        ensures
            v == self.spec_value(),
    {
        match self {
            Compatibility::AT => 0,
            Compatibility::V1 => 1,
            Compatibility::V2 => 2,
        }
    }
}

/// Defines idle settings on a task
#[derive(Debug, Clone, PartialEq)]
pub struct IdleSettings {
    /// This field is deprecated by the task store.
    /// Gets or sets a String that indicates the amount of time that the computer must be in an idle state before
    /// the task is run.
    ///
    /// A value that indicates the amount of time that the computer must be in an idle state before the task
    /// is run). The format for this string is PnYnMnDTnHnMnS, where nY is the number of years, nM is the number
    /// of months, nD is the number of days, 'T' is the date/time separator, nH is the number of hours,
    /// nM is the number of minutes, and nS is the number of seconds (for example, PT5M specifies 5 minutes
    /// and P1M4DT2H5M specifies one month, four days, two hours, and five minutes). The minimum value is
    /// one minute.
    pub idle_duration: Option<String>,
    /// Gets or sets a Boolean value that indicates whether the task is restarted when the computer cycles into an idle
    /// condition more than once.
    pub restart_on_idle: Option<bool>,
    /// Gets or sets a Boolean value that indicates that the Task Scheduler will terminate the task if the
    /// idle condition ends before the task is completed.
    pub stop_on_idle_end: Option<bool>,
    /// This field is deprecated by the task store.
    /// Get or sets a String that indicates the amount of time that the Task Scheduler will wait for an idle
    /// condition to occur.
    ///
    /// The format for this String is PnYnMnDTnHnMnS, where nY is the number of years, nM is the number of months,
    /// nD is the number of days, 'T' is the date/time separator, nH is the number of hours, nM is the number
    /// of minutes, and nS is the number of seconds (for example, PT5M specifies 5 minutes and P1M4DT2H5M specifies
    /// one month, four days, two hours, and five minutes). The minimum time allowed is 1 minute.
    pub wait_timeout: Option<String>,
}

impl IdleSettings {
    /// Creates a new IdleSettings struct with all values set to None.
    pub fn new() -> (s: IdleSettings)
        ensures
            s.idle_duration is None,
            s.restart_on_idle is None,
            s.stop_on_idle_end is None,
            s.wait_timeout is None,
    {
        IdleSettings {
            idle_duration: None,
            restart_on_idle: None,
            stop_on_idle_end: None,
            wait_timeout: None,
        }
    }

    /// These settings with every field that `update` sets taken from `update`.
    pub open spec fn merged(self, update: IdleSettings) -> IdleSettings {
        IdleSettings {
            idle_duration: prefer(update.idle_duration, self.idle_duration),
            restart_on_idle: prefer(update.restart_on_idle, self.restart_on_idle),
            stop_on_idle_end: prefer(update.stop_on_idle_end, self.stop_on_idle_end),
            wait_timeout: prefer(update.wait_timeout, self.wait_timeout),
        }
    }

    /// Overwrites every field that `update` sets; the other fields stay.
    pub fn merge(self, update: IdleSettings) -> (r: IdleSettings)
        ensures
            r == self.merged(update),
    {
        IdleSettings {
            idle_duration: pick(update.idle_duration, self.idle_duration),
            restart_on_idle: pick(update.restart_on_idle, self.restart_on_idle),
            stop_on_idle_end: pick(update.stop_on_idle_end, self.stop_on_idle_end),
            wait_timeout: pick(update.wait_timeout, self.wait_timeout),
        }
    }
}

/// The newer of two optional values: `new` when it is set, `old` otherwise.
pub open spec fn prefer<T>(new: Option<T>, old: Option<T>) -> Option<T> {
    if new is Some {
        new
    } else {
        old
    }
}

/// The newer of two optional values: `new` when it is set, `old` otherwise.
pub fn pick<T>(new: Option<T>, old: Option<T>) -> (r: Option<T>)
    ensures
        r == prefer(new, old),
{
    match new {
        Some(v) => Some(v),
        None => old,
    }
}

/// The idle settings after an update: those of the update, laid over the
/// earlier ones where there were any.
pub open spec fn merged_idle(old: Option<IdleSettings>, update: Option<IdleSettings>) -> Option<
    IdleSettings,
> {
    match update {
        None => old,
        Some(u) => match old {
            None => Some(u),
            Some(o) => Some(o.merged(u)),
        },
    }
}

/// Values for the instance policy.
#[derive(Debug, Clone, Copy, PartialEq, Eq, Structural)]
pub enum InstancesPolicy {
    /// Starts a new instance while an existing instance of the task is running.
    Parallel,
    /// Starts a new instance of the task after all other instances of the task are complete.
    Queue,
    /// Does not start a new instance if an existing instance of the task is running.
    IgnoreNew,
    /// Stops an existing instance of the task before it starts new instance.
    StopExisting,
}

impl InstancesPolicy {
    /// The number that a task store knows the value by.
    pub open spec fn spec_value(self) -> i32 {
        match self {
            InstancesPolicy::Parallel => 0,
            InstancesPolicy::Queue => 1,
            InstancesPolicy::IgnoreNew => 2,
            InstancesPolicy::StopExisting => 3,
        }
    }

    /// The number that a task store knows the value by.
    pub fn value(self) -> (v: i32)
        ensures
            v == self.spec_value(),
    {
        match self {
            InstancesPolicy::Parallel => 0,
            InstancesPolicy::Queue => 1,
            InstancesPolicy::IgnoreNew => 2,
            InstancesPolicy::StopExisting => 3,
        }
    }
}

/// Values for the security logon method.
#[derive(Debug, Clone, Copy, PartialEq, Eq, Structural)]
pub enum LogonType {
    /// The logon method is not specified. Used for non-NT credentials.
    Unspecified,
    /// Use a password for logging on the user. The password must be supplied at registration time.
    Password,
    /// Use an existing interactive token to run a task. The user must log on using a service for user (S4U) logon.
    /// When an S4U logon is used, no password is stored by the system and there is no access to either the network
    /// or encrypted files.
    S4U,
    /// User must already be logged on. The task will be run only in an existing interactive session.
    InteractiveToken,
    /// Group activation. The [user_id](PrincipalSettings::user_id) field specifies the group.
    Group,
    /// Indicates that a Local System, Local Service, or Network Service account is being used as a security context
    /// to run the task.
    ServiceAccount,
    /// First use the interactive token. If the user is not logged on (no interactive token is available), then the password
    /// is used. The password must be specified when a task is registered. This flag is not recommended for new tasks because
    /// it is less reliable than [LogonType::Password](LogonType::Password).
    InteractiveTokenOrPassword,
}

impl LogonType {
    /// The number that a task store knows the value by.
    pub open spec fn spec_value(self) -> i32 {
        match self {
            LogonType::Unspecified => 0,
            LogonType::Password => 1,
            LogonType::S4U => 2,
            LogonType::InteractiveToken => 3,
            LogonType::Group => 4,
            LogonType::ServiceAccount => 5,
            LogonType::InteractiveTokenOrPassword => 6,
        }
    }

    /// The number that a task store knows the value by.
    pub fn value(self) -> (v: i32)
        ensures
            v == self.spec_value(),
    {
        match self {
            LogonType::Unspecified => 0,
            LogonType::Password => 1,
            LogonType::S4U => 2,
            LogonType::InteractiveToken => 3,
            LogonType::Group => 4,
            LogonType::ServiceAccount => 5,
            LogonType::InteractiveTokenOrPassword => 6,
        }
    }
}

/// Use to set a network profile identifier and name.
#[derive(Debug, Clone, PartialEq)]
pub struct NetworkSettings {
    /// GUID value that identifies a network profile.
    pub id: String,
    /// The name of a network profile. The name is used for display purposes.
    pub name: String,
}

/// Use to set the settings for the principal
/// # Reference
/// <https://docs.microsoft.com/en-us/windows/win32/taskschd/principal>
#[derive(Debug, Clone, PartialEq)]
pub struct PrincipalSettings {
    /// Gets or sets the name of the principal that is displayed in the Task Scheduler UI.
    pub display_name: String,
    /// Gets or sets the identifier of the user group that is required to run the tasks that are associated with the principal.
    /// Do not set this property if a user identifier is specified in the [user_id](PrincipalSettings::user_id) property.
    pub group_id: Option<String>,
    /// Gets or sets the identifier of the principal.
    pub id: String,
    /// Gets or sets the security logon method that is required to run the tasks that are associated with the principal.
    /// This property is valid only when a user identifier is specified by the [user_id](PrincipalSettings::user_id) property.
    pub logon_type: LogonType,
    /// Gets or sets the identifier that is used to specify the privilege level that is required to run the tasks
    /// that are associated with the principal.
    pub run_level: RunLevel,
    /// Gets or sets the user identifier that is required to run the tasks that are associated with the principal.
    /// Do not set this property if a group identifier is specified in the [group_id](PrincipalSettings::group_id) property.
    pub user_id: Option<String>,
}

impl PrincipalSettings {
    /// Whether the settings name at most one of a group and a user.
    pub open spec fn exclusive(self) -> bool {
        !(self.group_id is Some && self.user_id is Some)
    }

    /// Whether the settings name at most one of a group and a user.
    pub fn is_exclusive(&self) -> (r: bool)
        ensures
            r == self.exclusive(),
    {
        !(self.group_id.is_some() && self.user_id.is_some())
    }
}

/// Values for the identifier that is used to specify the privilege level that is required to run the tasks
/// that are associated with the principal.
#[derive(Debug, Clone, Copy, PartialEq, Eq, Structural)]
pub enum RunLevel {
    /// Tasks will be run with the highest privileges.
    Highest,
    /// Tasks will be run with the least privileges (LUA).
    LUA,
}

impl RunLevel {
    /// The number that a task store knows the value by.
    pub open spec fn spec_value(self) -> i32 {
        match self {
            RunLevel::Highest => 1,
            RunLevel::LUA => 0,
        }
    }

    /// The number that a task store knows the value by.
    pub fn value(self) -> (v: i32)
        ensures
            v == self.spec_value(),
    {
        match self {
            RunLevel::Highest => 1,
            RunLevel::LUA => 0,
        }
    }
}

/// Defines all available settings on a task.
///
/// # References
/// - <https://docs.microsoft.com/en-us/windows/win32/taskschd/tasksettings>
/// - <https://docs.microsoft.com/en-us/windows/win32/taskschd/tasksettings-priority>
/// - <https://docs.microsoft.com/en-us/windows/win32/procthread/scheduling-priorities>
/// - <https://docs.microsoft.com/en-us/windows/win32/taskschd/networksettings>
/// - <https://docs.microsoft.com/en-us/windows/win32/taskschd/idlesettings>
#[derive(Debug, Clone, PartialEq)]
pub struct Settings {
    /// Gets or sets a Boolean value that indicates that the task can be started by using either the Run command
    /// or the Context menu.
    pub allow_demand_start: Option<bool>,
    /// Gets or sets a Boolean value that indicates that the task may be terminated by using TerminateProcess.
    pub allow_hard_terminate: Option<bool>,
    /// Gets or sets an integer value that indicates which version of Task Scheduler a task is compatible with.
    pub compatibility: Option<Compatibility>,
    /// Gets or sets the amount of time that the Task Scheduler will wait before deleting the task after it expires.
    ///
    /// A string that gets or sets the amount of time that the Task Scheduler will wait before deleting the task after
    /// it expires. The format for this string is PnYnMnDTnHnMnS, where nY is the number of years, nM is the number of
    /// months, nD is the number of days, 'T' is the date/time separator, nH is the number of hours, nM is the number
    /// of minutes, and nS is the number of seconds (for example, PT5M specifies 5 minutes and P1M4DT2H5M specifies one
    /// month, four days, two hours, and five minutes).
    pub delete_expired_task_after: Option<String>,
    /// Gets or sets a Boolean value that indicates that the task will not be started if the computer is running on
    /// battery power.
    pub disallow_start_if_on_batteries: Option<bool>,
    /// Gets or sets a Boolean value that indicates that the task is enabled. The task can be performed only when this
    /// setting is True.
    pub enabled: Option<bool>,
    /// Gets or sets the amount of time allowed to complete the task.
    pub execution_time_limit: Option<String>,
    /// Gets or sets a Boolean value that indicates that the task will not be visible in the UI. However, administrators
    /// can override this setting through the use of a "master switch" that makes all tasks visible in the UI.
    pub hidden: Option<bool>,
    /// Gets or sets the information that specifies how the Task Scheduler performs tasks when the computer is in an idle state.
    pub idle_settings: Option<IdleSettings>,
    /// Gets or sets the policy that defines how the Task Scheduler deals with multiple instances of the task.
    pub multiple_instances_policy: Option<InstancesPolicy>,
    /// The network settings object that contains a network profile identifier and name.
    /// If the `run_only_if_network_available` property is true and
    /// a network profile is specified in the [network_settings](Settings::network_settings)
    /// field, then the task will run only if the specified network profile is available.
    pub network_settings: Option<NetworkSettings>,
    /// Gets or sets the priority level of the task.
    pub priority: Option<i32>,
    /// Gets or sets the number of times that the Task Scheduler will attempt to restart the task.
    pub restart_count: Option<i32>,
    /// Gets or sets a value that specifies how long the Task Scheduler will attempt to restart the task.
    pub restart_interval: Option<String>,
    /// Gets or sets a Boolean value that indicates that the Task Scheduler will run the task only if the
    /// computer is in an idle state.
    pub run_only_if_idle: Option<bool>,
    /// Gets or sets a Boolean value that indicates that the Task Scheduler will run the task only when a
    /// network is available.
    pub run_only_if_network_available: Option<bool>,
    /// Gets or sets a Boolean value that indicates that the Task Scheduler can start the task at any time
    /// after its scheduled time has passed.
    pub start_when_available: Option<bool>,
    /// Gets or sets a Boolean value that indicates that the task will be stopped if the computer begins to
    /// run on battery power.
    pub stop_if_going_on_batteries: Option<bool>,
    /// Gets or sets a Boolean value that indicates that the Task Scheduler will wake the computer when it is
    /// time to run the task.
    pub wake_to_run: Option<bool>,
    /// Gets or sets an XML-formatted definition of the task settings.
    pub xml_text: Option<String>,
}

impl Settings {
    /// Whether no field is set.
    pub open spec fn is_unset(self) -> bool {
        &&& self.allow_demand_start is None
        &&& self.allow_hard_terminate is None
        &&& self.compatibility is None
        &&& self.delete_expired_task_after is None
        &&& self.disallow_start_if_on_batteries is None
        &&& self.enabled is None
        &&& self.execution_time_limit is None
        &&& self.hidden is None
        &&& self.idle_settings is None
        &&& self.multiple_instances_policy is None
        &&& self.network_settings is None
        &&& self.priority is None
        &&& self.restart_count is None
        &&& self.restart_interval is None
        &&& self.run_only_if_idle is None
        &&& self.run_only_if_network_available is None
        &&& self.start_when_available is None
        &&& self.stop_if_going_on_batteries is None
        &&& self.wake_to_run is None
        &&& self.xml_text is None
    }

    /// Creates a new Settings struct with all values set to None.
    pub fn new() -> (s: Settings)
        ensures
            s.is_unset(),
    {
        Settings {
            allow_demand_start: None,
            allow_hard_terminate: None,
            compatibility: None,
            delete_expired_task_after: None,
            disallow_start_if_on_batteries: None,
            enabled: None,
            execution_time_limit: None,
            hidden: None,
            idle_settings: None,
            multiple_instances_policy: None,
            network_settings: None,
            priority: None,
            restart_count: None,
            restart_interval: None,
            run_only_if_idle: None,
            run_only_if_network_available: None,
            start_when_available: None,
            stop_if_going_on_batteries: None,
            wake_to_run: None,
            xml_text: None,
        }
    }

    /// These settings with every field that `update` sets taken from `update`.
    ///
    /// Idle settings are laid over the earlier idle settings field by field;
    /// network settings are replaced whole.
    pub open spec fn merged(self, update: Settings) -> Settings {
        Settings {
            allow_demand_start: prefer(update.allow_demand_start, self.allow_demand_start),
            allow_hard_terminate: prefer(update.allow_hard_terminate, self.allow_hard_terminate),
            compatibility: prefer(update.compatibility, self.compatibility),
            delete_expired_task_after: prefer(update.delete_expired_task_after, self.delete_expired_task_after),
            disallow_start_if_on_batteries: prefer(update.disallow_start_if_on_batteries, self.disallow_start_if_on_batteries),
            enabled: prefer(update.enabled, self.enabled),
            execution_time_limit: prefer(update.execution_time_limit, self.execution_time_limit),
            hidden: prefer(update.hidden, self.hidden),
            idle_settings: merged_idle(self.idle_settings, update.idle_settings),
            multiple_instances_policy: prefer(update.multiple_instances_policy, self.multiple_instances_policy),
            network_settings: prefer(update.network_settings, self.network_settings),
            priority: prefer(update.priority, self.priority),
            restart_count: prefer(update.restart_count, self.restart_count),
            restart_interval: prefer(update.restart_interval, self.restart_interval),
            run_only_if_idle: prefer(update.run_only_if_idle, self.run_only_if_idle),
            run_only_if_network_available: prefer(update.run_only_if_network_available, self.run_only_if_network_available),
            start_when_available: prefer(update.start_when_available, self.start_when_available),
            stop_if_going_on_batteries: prefer(update.stop_if_going_on_batteries, self.stop_if_going_on_batteries),
            wake_to_run: prefer(update.wake_to_run, self.wake_to_run),
            xml_text: prefer(update.xml_text, self.xml_text),
        }
    }

    /// Overwrites every field that `update` sets; the other fields stay.
    pub fn merge(self, update: Settings) -> (r: Settings)
        ensures
            r == self.merged(update),
    {
        let idle_settings = match update.idle_settings {
            None => self.idle_settings,
            Some(u) => match self.idle_settings {
                None => Some(u),
                Some(o) => Some(o.merge(u)),
            },
        };
        Settings {
            allow_demand_start: pick(update.allow_demand_start, self.allow_demand_start),
            allow_hard_terminate: pick(update.allow_hard_terminate, self.allow_hard_terminate),
            compatibility: pick(update.compatibility, self.compatibility),
            delete_expired_task_after: pick(update.delete_expired_task_after, self.delete_expired_task_after),
            disallow_start_if_on_batteries: pick(update.disallow_start_if_on_batteries, self.disallow_start_if_on_batteries),
            enabled: pick(update.enabled, self.enabled),
            execution_time_limit: pick(update.execution_time_limit, self.execution_time_limit),
            hidden: pick(update.hidden, self.hidden),
            idle_settings,
            multiple_instances_policy: pick(update.multiple_instances_policy, self.multiple_instances_policy),
            network_settings: pick(update.network_settings, self.network_settings),
            priority: pick(update.priority, self.priority),
            restart_count: pick(update.restart_count, self.restart_count),
            restart_interval: pick(update.restart_interval, self.restart_interval),
            run_only_if_idle: pick(update.run_only_if_idle, self.run_only_if_idle),
            run_only_if_network_available: pick(update.run_only_if_network_available, self.run_only_if_network_available),
            start_when_available: pick(update.start_when_available, self.start_when_available),
            stop_if_going_on_batteries: pick(update.stop_if_going_on_batteries, self.stop_if_going_on_batteries),
            wake_to_run: pick(update.wake_to_run, self.wake_to_run),
            xml_text: pick(update.xml_text, self.xml_text),
        }
    }
}

} // verus!
