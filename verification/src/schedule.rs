use crate::com::{RuntimeAction, RuntimeHandle, RuntimeLedger, RuntimeView};
use crate::error::{ErrorView, ScheduleError};
use crate::settings::{PrincipalSettings, Settings};
use vstd::prelude::*;
use vstd::string::*;

verus! {

/// Marker type for a [`Schedule`] that no task store holds yet.
pub struct Unregistered {}

/// Marker type for a [`Schedule`] that a task store has accepted.
pub struct Registered {}

/// The kinds of trigger.
#[derive(Debug, Clone, Copy, PartialEq, Eq, Structural)]
pub enum TriggerKind {
    /// Fires when the system is booted.
    Boot,
    /// Fires every given number of days.
    Daily,
    /// Fires when a system event occurs.
    Event,
    /// Fires when the computer goes idle.
    Idle,
    /// Fires when a user logs on.
    Logon,
    /// Fires on given days of given months.
    Monthly,
    /// Fires on given days of the week in given weeks of given months.
    MonthlyDOW,
    /// Fires when the task is registered or updated.
    Registration,
    /// Fires once, at a given time.
    Time,
    /// Fires on given days of the week, every given number of weeks.
    Weekly,
}

impl TriggerKind {
    /// Whether a schedule with a trigger of this kind must name the time it starts at.
    pub open spec fn needs_start_boundary(self) -> bool {
        self == TriggerKind::Daily || self == TriggerKind::Time || self == TriggerKind::MonthlyDOW
            || self == TriggerKind::Monthly || self == TriggerKind::Event
    }

    /// Whether a schedule with a trigger of this kind must name the time it starts at.
    pub fn requires_start_boundary(self) -> (r: bool)
        ensures
            r == self.needs_start_boundary(),
    {
        match self {
            TriggerKind::Daily => true,
            TriggerKind::Time => true,
            TriggerKind::MonthlyDOW => true,
            TriggerKind::Monthly => true,
            TriggerKind::Event => true,
            _ => false,
        }
    }
}

/// The characters of an optional text.
pub open spec fn text_of(t: Option<String>) -> Option<Seq<char>> {
    match t {
        Some(s) => Some(s@),
        None => None,
    }
}

/// The characters of a list of named values.
pub open spec fn queries_of(q: Seq<(String, String)>) -> Seq<(Seq<char>, Seq<char>)> {
    Seq::new(q.len(), |i: int| (q[i].0@, q[i].1@))
}

/// One unit of executable work attached to a schedule.
#[derive(Debug, Clone, PartialEq)]
pub struct Action {
    /// The identifier of the action.
    pub id: String,
    /// The path to the executable.
    pub path: String,
    /// The directory in which the executable runs.
    pub working_dir: String,
    /// The arguments handed to the executable.
    pub args: String,
}

/// What an [`Action`] holds, as sequences of characters.
pub ghost struct ActionView {
    pub id: Seq<char>,
    pub path: Seq<char>,
    pub working_dir: Seq<char>,
    pub args: Seq<char>,
}

impl View for Action {
    type V = ActionView;

    open spec fn view(&self) -> ActionView {
        ActionView {
            id: self.id@,
            path: self.path@,
            working_dir: self.working_dir@,
            args: self.args@,
        }
    }
}

impl Action {
    /// Creates a new action.
    pub fn new(id: &str, path: &str, working_dir: &str, args: &str) -> (a: Action)
        ensures
            a@ == (ActionView { id: id@, path: path@, working_dir: working_dir@, args: args@ }),
    {
        Action {
            id: String::from_str(id),
            path: String::from_str(path),
            working_dir: String::from_str(working_dir),
            args: String::from_str(args),
        }
    }
}

/// The views of a list of actions, in the same order.
pub open spec fn actions_of(actions: Seq<Action>) -> Seq<ActionView> {
    Seq::new(actions.len(), |i: int| actions[i]@)
}

/// Who wrote a schedule, and what it is for.
#[derive(Debug, Clone, PartialEq)]
pub struct RegistrationInfo {
    /// The author of the schedule.
    pub author: Option<String>,
    /// The description of the schedule.
    pub description: Option<String>,
}

/// What a [`RegistrationInfo`] holds, as sequences of characters.
pub ghost struct RegistrationInfoView {
    pub author: Option<Seq<char>>,
    pub description: Option<Seq<char>>,
}

impl View for RegistrationInfo {
    type V = RegistrationInfoView;

    open spec fn view(&self) -> RegistrationInfoView {
        RegistrationInfoView {
            author: text_of(self.author),
            description: text_of(self.description),
        }
    }
}

/// How often, and for how long, a triggered task is started again.
#[derive(Debug, Clone, PartialEq)]
pub struct Repetition {
    /// How long the pattern is repeated, as a formatted duration.
    pub duration: String,
    /// The time between two starts of the task, as a formatted duration.
    pub interval: String,
    /// Whether a running instance of the task is stopped at the end of the duration.
    pub stop_at_duration_end: bool,
}

/// What a [`Repetition`] holds, as sequences of characters.
pub ghost struct RepetitionView {
    pub duration: Seq<char>,
    pub interval: Seq<char>,
    pub stop_at_duration_end: bool,
}

impl View for Repetition {
    type V = RepetitionView;

    open spec fn view(&self) -> RepetitionView {
        RepetitionView {
            duration: self.duration@,
            interval: self.interval@,
            stop_at_duration_end: self.stop_at_duration_end,
        }
    }
}

/// The fields that belong to one kind of trigger only.
#[derive(Debug, Clone, PartialEq)]
pub enum TriggerDetail {
    /// Fires when the system is booted.
    Boot {
        /// The time between the event and the start of the task, as a formatted duration.
        delay: Option<String>,
    },
    /// Fires every given number of days.
    Daily {
        /// The interval between the days in the schedule.
        days_interval: Option<i16>,
        /// A delay time that is randomly added to the start time, as a formatted duration.
        random_delay: Option<String>,
    },
    /// Fires when a system event occurs.
    Event {
        /// The time between the event and the start of the task, as a formatted duration.
        delay: Option<String>,
        /// The query that identifies the event that fires the trigger.
        subscription: Option<String>,
        /// Named values: each a name and a query into the event.
        value_queries: Vec<(String, String)>,
    },
    /// Fires when the computer goes idle.
    Idle,
    /// Fires when a user logs on.
    Logon {
        /// The time between the event and the start of the task, as a formatted duration.
        delay: Option<String>,
        /// The identifier of the user whose logon fires the trigger.
        user_id: Option<String>,
    },
    /// Fires on given days of given months.
    Monthly {
        /// The days of the month, as a flag word over [`DayOfMonth`](crate::enums::DayOfMonth).
        days_of_month: Option<u32>,
        /// The months of the year, as a flag word over [`Month`](crate::enums::Month).
        months_of_year: Option<u32>,
        /// A delay time that is randomly added to the start time, as a formatted duration.
        random_delay: Option<String>,
        /// Whether the task runs on the last day of the month.
        run_on_last_day: Option<bool>,
    },
    /// Fires on given days of the week in given weeks of given months.
    MonthlyDOW {
        /// The days of the week, as a flag word over [`DayOfWeek`](crate::enums::DayOfWeek).
        days_of_week: Option<u32>,
        /// The months of the year, as a flag word over [`Month`](crate::enums::Month).
        months_of_year: Option<u32>,
        /// A delay time that is randomly added to the start time, as a formatted duration.
        random_delay: Option<String>,
        /// Whether the task runs in the last week of the month.
        run_on_last_week: Option<bool>,
        /// The weeks of the month, as a flag word over [`WeekOfMonth`](crate::enums::WeekOfMonth).
        weeks_of_month: Option<u32>,
    },
    /// Fires when the task is registered or updated.
    Registration {
        /// The time between the event and the start of the task, as a formatted duration.
        delay: Option<String>,
    },
    /// Fires once, at a given time.
    Time {
        /// A delay time that is randomly added to the start time, as a formatted duration.
        random_delay: Option<String>,
    },
    /// Fires on given days of the week, every given number of weeks.
    Weekly {
        /// The days of the week, as a flag word over [`DayOfWeek`](crate::enums::DayOfWeek).
        days_of_week: Option<u32>,
        /// A delay time that is randomly added to the start time, as a formatted duration.
        random_delay: Option<String>,
        /// The interval between the weeks in the schedule.
        weeks_interval: Option<i16>,
    },
}

/// What a [`TriggerDetail`] holds, as sequences of characters.
pub ghost enum TriggerDetailView {
    Boot { delay: Option<Seq<char>> },
    Daily { days_interval: Option<i16>, random_delay: Option<Seq<char>> },
    Event { delay: Option<Seq<char>>, subscription: Option<Seq<char>>, value_queries: Seq<(Seq<char>, Seq<char>)> },
    Idle,
    Logon { delay: Option<Seq<char>>, user_id: Option<Seq<char>> },
    Monthly { days_of_month: Option<u32>, months_of_year: Option<u32>, random_delay: Option<Seq<char>>, run_on_last_day: Option<bool> },
    MonthlyDOW { days_of_week: Option<u32>, months_of_year: Option<u32>, random_delay: Option<Seq<char>>, run_on_last_week: Option<bool>, weeks_of_month: Option<u32> },
    Registration { delay: Option<Seq<char>> },
    Time { random_delay: Option<Seq<char>> },
    Weekly { days_of_week: Option<u32>, random_delay: Option<Seq<char>>, weeks_interval: Option<i16> },
}

impl View for TriggerDetail {
    type V = TriggerDetailView;

    open spec fn view(&self) -> TriggerDetailView {
        match self {
            TriggerDetail::Boot { delay } => TriggerDetailView::Boot {
                delay: text_of(*delay),
            },
            TriggerDetail::Daily { days_interval, random_delay } => TriggerDetailView::Daily {
                days_interval: *days_interval,
                random_delay: text_of(*random_delay),
            },
            TriggerDetail::Event { delay, subscription, value_queries } => TriggerDetailView::Event {
                delay: text_of(*delay),
                subscription: text_of(*subscription),
                value_queries: queries_of(value_queries@),
            },
            TriggerDetail::Idle => TriggerDetailView::Idle,
            TriggerDetail::Logon { delay, user_id } => TriggerDetailView::Logon {
                delay: text_of(*delay),
                user_id: text_of(*user_id),
            },
            TriggerDetail::Monthly { days_of_month, months_of_year, random_delay, run_on_last_day } => TriggerDetailView::Monthly {
                days_of_month: *days_of_month,
                months_of_year: *months_of_year,
                random_delay: text_of(*random_delay),
                run_on_last_day: *run_on_last_day,
            },
            TriggerDetail::MonthlyDOW { days_of_week, months_of_year, random_delay, run_on_last_week, weeks_of_month } => TriggerDetailView::MonthlyDOW {
                days_of_week: *days_of_week,
                months_of_year: *months_of_year,
                random_delay: text_of(*random_delay),
                run_on_last_week: *run_on_last_week,
                weeks_of_month: *weeks_of_month,
            },
            TriggerDetail::Registration { delay } => TriggerDetailView::Registration {
                delay: text_of(*delay),
            },
            TriggerDetail::Time { random_delay } => TriggerDetailView::Time {
                random_delay: text_of(*random_delay),
            },
            TriggerDetail::Weekly { days_of_week, random_delay, weeks_interval } => TriggerDetailView::Weekly {
                days_of_week: *days_of_week,
                random_delay: text_of(*random_delay),
                weeks_interval: *weeks_interval,
            },
        }
    }
}

impl TriggerDetailView {
    /// The kind of trigger that the fields belong to.
    pub open spec fn kind(self) -> TriggerKind {
        match self {
            TriggerDetailView::Boot { .. } => TriggerKind::Boot,
            TriggerDetailView::Daily { .. } => TriggerKind::Daily,
            TriggerDetailView::Event { .. } => TriggerKind::Event,
            TriggerDetailView::Idle => TriggerKind::Idle,
            TriggerDetailView::Logon { .. } => TriggerKind::Logon,
            TriggerDetailView::Monthly { .. } => TriggerKind::Monthly,
            TriggerDetailView::MonthlyDOW { .. } => TriggerKind::MonthlyDOW,
            TriggerDetailView::Registration { .. } => TriggerKind::Registration,
            TriggerDetailView::Time { .. } => TriggerKind::Time,
            TriggerDetailView::Weekly { .. } => TriggerKind::Weekly,
        }
    }

    /// The fields of a trigger of the given kind on which nothing is set yet.
    pub open spec fn unset(kind: TriggerKind) -> TriggerDetailView {
        match kind {
            TriggerKind::Boot => TriggerDetailView::Boot {
                delay: None,
            },
            TriggerKind::Daily => TriggerDetailView::Daily {
                days_interval: None,
                random_delay: None,
            },
            TriggerKind::Event => TriggerDetailView::Event {
                delay: None,
                subscription: None,
                value_queries: Seq::empty(),
            },
            TriggerKind::Idle => TriggerDetailView::Idle,
            TriggerKind::Logon => TriggerDetailView::Logon {
                delay: None,
                user_id: None,
            },
            TriggerKind::Monthly => TriggerDetailView::Monthly {
                days_of_month: None,
                months_of_year: None,
                random_delay: None,
                run_on_last_day: None,
            },
            TriggerKind::MonthlyDOW => TriggerDetailView::MonthlyDOW {
                days_of_week: None,
                months_of_year: None,
                random_delay: None,
                run_on_last_week: None,
                weeks_of_month: None,
            },
            TriggerKind::Registration => TriggerDetailView::Registration {
                delay: None,
            },
            TriggerKind::Time => TriggerDetailView::Time {
                random_delay: None,
            },
            TriggerKind::Weekly => TriggerDetailView::Weekly {
                days_of_week: None,
                random_delay: None,
                weeks_interval: None,
            },
        }
    }
}

impl TriggerDetail {
    /// The kind of trigger that the fields belong to.
    pub fn kind(&self) -> (k: TriggerKind)
        ensures
            k == self@.kind(),
    {
        match self {
            TriggerDetail::Boot { .. } => TriggerKind::Boot,
            TriggerDetail::Daily { .. } => TriggerKind::Daily,
            TriggerDetail::Event { .. } => TriggerKind::Event,
            TriggerDetail::Idle => TriggerKind::Idle,
            TriggerDetail::Logon { .. } => TriggerKind::Logon,
            TriggerDetail::Monthly { .. } => TriggerKind::Monthly,
            TriggerDetail::MonthlyDOW { .. } => TriggerKind::MonthlyDOW,
            TriggerDetail::Registration { .. } => TriggerKind::Registration,
            TriggerDetail::Time { .. } => TriggerKind::Time,
            TriggerDetail::Weekly { .. } => TriggerKind::Weekly,
        }
    }

    /// The fields of a trigger of the given kind on which nothing is set yet.
    pub fn unset(kind: TriggerKind) -> (d: TriggerDetail)
        ensures
            d@ == TriggerDetailView::unset(kind),
    {
        let d = match kind {
            TriggerKind::Boot => TriggerDetail::Boot {
                delay: None,
            },
            TriggerKind::Daily => TriggerDetail::Daily {
                days_interval: None,
                random_delay: None,
            },
            TriggerKind::Event => {
                let value_queries: Vec<(String, String)> = Vec::new();
                assert(queries_of(value_queries@) =~= Seq::empty());
                TriggerDetail::Event { delay: None, subscription: None, value_queries }
            },
            TriggerKind::Idle => TriggerDetail::Idle,
            TriggerKind::Logon => TriggerDetail::Logon {
                delay: None,
                user_id: None,
            },
            TriggerKind::Monthly => TriggerDetail::Monthly {
                days_of_month: None,
                months_of_year: None,
                random_delay: None,
                run_on_last_day: None,
            },
            TriggerKind::MonthlyDOW => TriggerDetail::MonthlyDOW {
                days_of_week: None,
                months_of_year: None,
                random_delay: None,
                run_on_last_week: None,
                weeks_of_month: None,
            },
            TriggerKind::Registration => TriggerDetail::Registration {
                delay: None,
            },
            TriggerKind::Time => TriggerDetail::Time {
                random_delay: None,
            },
            TriggerKind::Weekly => TriggerDetail::Weekly {
                days_of_week: None,
                random_delay: None,
                weeks_interval: None,
            },
        };
        d
    }
}

/// The condition that causes the actions of a schedule to run.
#[derive(Debug, Clone, PartialEq)]
pub struct Trigger {
    /// The identifier of the trigger.
    pub id: String,
    /// Whether the trigger is enabled.
    pub enabled: bool,
    /// The date and time when the trigger is activated.
    pub start_boundary: Option<String>,
    /// The date and time when the trigger is deactivated.
    pub end_boundary: Option<String>,
    /// The time that the task may take, as a formatted duration.
    pub execution_time_limit: Option<String>,
    /// How the task is started again once triggered.
    pub repetition: Option<Repetition>,
    /// The fields of the trigger's kind.
    pub detail: TriggerDetail,
}

/// What a [`Trigger`] holds, as sequences of characters.
pub ghost struct TriggerView {
    pub id: Seq<char>,
    pub enabled: bool,
    pub start_boundary: Option<Seq<char>>,
    pub end_boundary: Option<Seq<char>>,
    pub execution_time_limit: Option<Seq<char>>,
    pub repetition: Option<RepetitionView>,
    pub detail: TriggerDetailView,
}

impl View for Trigger {
    type V = TriggerView;

    open spec fn view(&self) -> TriggerView {
        TriggerView {
            id: self.id@,
            enabled: self.enabled,
            start_boundary: text_of(self.start_boundary),
            end_boundary: text_of(self.end_boundary),
            execution_time_limit: text_of(self.execution_time_limit),
            repetition: match self.repetition {
                Some(r) => Some(r@),
                None => None,
            },
            detail: self.detail@,
        }
    }
}

impl TriggerView {
    /// A trigger of the given kind, newly created: nothing but its identifier
    /// and whether it is enabled is set.
    pub open spec fn fresh(kind: TriggerKind, id: Seq<char>, enabled: bool) -> TriggerView {
        TriggerView {
            id,
            enabled,
            start_boundary: None,
            end_boundary: None,
            execution_time_limit: None,
            repetition: None,
            detail: TriggerDetailView::unset(kind),
        }
    }

    /// The kind of the trigger.
    pub open spec fn kind(self) -> TriggerKind {
        self.detail.kind()
    }
}

impl Trigger {
    /// Creates a trigger of the given kind on which nothing but its
    /// identifier and whether it is enabled is set.
    pub fn fresh(kind: TriggerKind, id: &str, enabled: bool) -> (t: Trigger)
        ensures
            t@ == TriggerView::fresh(kind, id@, enabled),
    {
        Trigger {
            id: String::from_str(id),
            enabled,
            start_boundary: None,
            end_boundary: None,
            execution_time_limit: None,
            repetition: None,
            detail: TriggerDetail::unset(kind),
        }
    }

    /// The kind of the trigger.
    pub fn kind(&self) -> (k: TriggerKind)
        ensures
            k == self@.kind(),
    {
        self.detail.kind()
    }
}

/// A schedule is created by a [schedule builder](crate::schedule_builder). Once created, the
/// Schedule can be handed to a task store. It can be read, and no longer changed.
///
/// A schedule holds the handle to the runtime that its builder was made
/// with, until it is given back with [`release`](Schedule::release).
pub struct Schedule<Kind = Unregistered> {
    pub(crate) kind: core::marker::PhantomData<Kind>,
    pub(crate) com: RuntimeHandle,
    pub(crate) trigger: Trigger,
    pub(crate) actions: Vec<Action>,
    pub(crate) force_start_boundary: bool,
    pub(crate) registration_info: RegistrationInfo,
    pub(crate) settings: Settings,
    pub(crate) principal: Option<PrincipalSettings>,
}

/// What a [`Schedule`] holds, as sequences of characters.
pub ghost struct ScheduleView {
    pub handle: nat,
    pub trigger: TriggerView,
    pub actions: Seq<ActionView>,
    pub force_start_boundary: bool,
    pub registration_info: RegistrationInfoView,
    pub settings: Settings,
    pub principal: Option<PrincipalSettings>,
}

impl<Kind> View for Schedule<Kind> {
    type V = ScheduleView;

    closed spec fn view(&self) -> ScheduleView {
        ScheduleView {
            handle: self.com.serial(),
            trigger: self.trigger@,
            actions: actions_of(self.actions@),
            force_start_boundary: self.force_start_boundary,
            registration_info: self.registration_info@,
            settings: self.settings,
            principal: self.principal,
        }
    }
}

impl<Kind> Schedule<Kind> {
    /// Puts a schedule together from its parts. No start boundary is owed on it.
    pub(crate) fn assemble(
        trigger: Trigger,
        actions: Vec<Action>,
        registration_info: RegistrationInfo,
        settings: Settings,
        principal: Option<PrincipalSettings>,
        com: RuntimeHandle,
    ) -> (s: Self)
        ensures
            s@ == (ScheduleView {
                handle: com.serial(),
                trigger: trigger@,
                actions: actions_of(actions@),
                force_start_boundary: false,
                registration_info: registration_info@,
                settings,
                principal,
            }),
    {
        Schedule {
            kind: core::marker::PhantomData,
            com,
            trigger,
            actions,
            force_start_boundary: false,
            registration_info,
            settings,
            principal,
        }
    }

    /// The one trigger of the schedule.
    pub fn trigger(&self) -> (t: &Trigger)
        ensures
            t@ == self@.trigger,
    {
        &self.trigger
    }

    /// The actions, in the order in which they run.
    pub fn actions(&self) -> (a: &Vec<Action>)
        ensures
            actions_of(a@) == self@.actions,
    {
        &self.actions
    }

    /// Whether a start boundary is still owed. A built schedule owes none.
    pub fn force_start_boundary(&self) -> (f: bool)
        ensures
            f == self@.force_start_boundary,
    {
        self.force_start_boundary
    }

    /// Author and description.
    pub fn registration_info(&self) -> (r: &RegistrationInfo)
        ensures
            r@ == self@.registration_info,
    {
        &self.registration_info
    }

    /// The settings of the task.
    pub fn settings(&self) -> (s: &Settings)
        ensures
            *s == self@.settings,
    {
        &self.settings
    }

    /// The principal that the task runs as.
    pub fn principal(&self) -> (p: &Option<PrincipalSettings>)
        ensures
            *p == self@.principal,
    {
        &self.principal
    }

    /// Gives the handle of the schedule back to the ledger, and says whether
    /// the subsystem has to be torn down. The schedule is no more.
    pub fn release(self, ledger: &mut RuntimeLedger) -> (r: Result<RuntimeAction, ScheduleError>)
        ensures
            match r {
                Ok(action) => old(ledger)@.release() == Ok::<
                    (RuntimeView, RuntimeAction),
                    ErrorView,
                >((final(ledger)@, action)),
                Err(e) => final(ledger)@ == old(ledger)@ && old(ledger)@.release() == Err::<
                    (RuntimeView, RuntimeAction),
                    ErrorView,
                >(e@),
            },
    {
        ledger.release(self.com)
    }
}

impl Schedule<Unregistered> {
    /// Marks the schedule as held by a task store, once the store has accepted it.
    pub fn registered(self) -> (r: Schedule<Registered>)
        ensures
            r@ == self@,
    {
        Schedule {
            kind: core::marker::PhantomData,
            com: self.com,
            trigger: self.trigger,
            actions: self.actions,
            force_start_boundary: self.force_start_boundary,
            registration_info: self.registration_info,
            settings: self.settings,
            principal: self.principal,
        }
    }
}

} // verus!
