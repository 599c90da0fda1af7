use crate::bitmask::{all_valid, encode, encode_spec, encode_valid};
use crate::com::{RuntimeAction, RuntimeHandle, RuntimeLedger, RuntimeView};
use crate::enums::{day_out_of_range_message, DayOfMonth, DayOfWeek, Month, WeekOfMonth};
use crate::error::{ErrorView, ScheduleError};
use crate::schedule::{
    actions_of, queries_of, ActionView, RegistrationInfo, RegistrationInfoView, Repetition,
    RepetitionView, Schedule, ScheduleView, Trigger, TriggerDetail, TriggerDetailView, TriggerKind,
    TriggerView,
};
use crate::settings::{Duration, PrincipalSettings, Settings};
use vstd::prelude::*;
use vstd::string::*;

pub use crate::schedule::Action;

verus! {

/* triggers */

/// Marker type for base [`ScheduleBuilder<Base>`]
pub struct Base {}

/// Marker type for boot [`ScheduleBuilder<Boot>`]
pub struct Boot {}

/// Marker type for a daily [`ScheduleBuilder<Daily>`]
pub struct Daily {}

/// Marker type for an event [`ScheduleBuilder<Event>`]
pub struct Event {}

/// Marker type for an idle [`ScheduleBuilder<Idle>`]
pub struct Idle {}

/// Marker type for a logon [`ScheduleBuilder<Logon>`]
pub struct Logon {}

/// Marker type for a monthly [`ScheduleBuilder<Monthly>`]
pub struct Monthly {}

/// Marker type for a monthly day of week [`ScheduleBuilder<MonthlyDOW>`]
pub struct MonthlyDOW {}

/// Marker type for registration [`ScheduleBuilder<Registration>`]
pub struct Registration {}

/// Marker type for a time [`ScheduleBuilder<Time>`]
pub struct Time {}

/// Marker type for a weekly [`ScheduleBuilder<Weekly>`]
pub struct Weekly {}

/// A marker type of the builder, and the kind of trigger that it stands for.
pub trait TriggerChoice {
    /// The kind of trigger that a builder with this marker creates; `None`
    /// for the marker of a builder on which no kind is chosen yet.
    spec fn kind() -> Option<TriggerKind>;
}

impl TriggerChoice for Base {
    open spec fn kind() -> Option<TriggerKind> {
        None
    }
}

impl TriggerChoice for Boot {
    open spec fn kind() -> Option<TriggerKind> {
        Some(TriggerKind::Boot)
    }
}

impl TriggerChoice for Daily {
    open spec fn kind() -> Option<TriggerKind> {
        Some(TriggerKind::Daily)
    }
}

impl TriggerChoice for Event {
    open spec fn kind() -> Option<TriggerKind> {
        Some(TriggerKind::Event)
    }
}

impl TriggerChoice for Idle {
    open spec fn kind() -> Option<TriggerKind> {
        Some(TriggerKind::Idle)
    }
}

impl TriggerChoice for Logon {
    open spec fn kind() -> Option<TriggerKind> {
        Some(TriggerKind::Logon)
    }
}

impl TriggerChoice for Monthly {
    open spec fn kind() -> Option<TriggerKind> {
        Some(TriggerKind::Monthly)
    }
}

impl TriggerChoice for MonthlyDOW {
    open spec fn kind() -> Option<TriggerKind> {
        Some(TriggerKind::MonthlyDOW)
    }
}

impl TriggerChoice for Registration {
    open spec fn kind() -> Option<TriggerKind> {
        Some(TriggerKind::Registration)
    }
}

impl TriggerChoice for Time {
    open spec fn kind() -> Option<TriggerKind> {
        Some(TriggerKind::Time)
    }
}

impl TriggerChoice for Weekly {
    open spec fn kind() -> Option<TriggerKind> {
        Some(TriggerKind::Weekly)
    }
}


/* messages */

/// The message of the error for an operation on a trigger that was not created yet.
pub open spec fn trigger_uninitialised_message() -> Seq<char> {
    "Trigger has not been created yet. Consider calling ScheduleBuilder.Trigger()"@
}

/// The message of the error for creating a second trigger.
pub open spec fn trigger_exists_message() -> Seq<char> {
    "A trigger has already been created. A schedule has one trigger only."@
}

/// The message of the error for creating a trigger with an empty identifier.
pub open spec fn empty_id_message() -> Seq<char> {
    "The identifier of a trigger must not be empty."@
}

/// The message of the error for a principal that names both a group and a user.
pub open spec fn principal_message() -> Seq<char> {
    "Invalid operation: group_id and user_id are mutually exclusive and cannot both be set."@
}

/// The message of the error for building without a trigger.
pub open spec fn trigger_not_created_message() -> Seq<char> {
    "trigger not created"@
}

/// The message of the error for building while the start boundary is owed.
pub open spec fn start_boundary_required_message() -> Seq<char> {
    "start boundary required"@
}

/// The error of an operation that needs a trigger, on a builder that has none.
pub fn trigger_uninitialised_error() -> (e: ScheduleError)
    ensures
        e@ == ErrorView::invalid_operation(trigger_uninitialised_message()),
{
    ScheduleError::invalid_operation(
        "Trigger has not been created yet. Consider calling ScheduleBuilder.Trigger()",
    )
}

/// The characters of a list of named values handed in as string slices.
pub open spec fn pairs_of(q: Seq<(&str, &str)>) -> Seq<(Seq<char>, Seq<char>)> {
    Seq::new(q.len(), |i: int| (q[i].0@, q[i].1@))
}

/* the fields of one kind of trigger */

impl TriggerDetailView {
    /// The fields with `delay` set to `value`; unchanged for a kind without that field.
    pub open spec fn with_delay(self, value: Seq<char>) -> TriggerDetailView {
        match self {
            TriggerDetailView::Boot { delay } => TriggerDetailView::Boot {
                delay: Some(value),
            },
            TriggerDetailView::Event { delay, subscription, value_queries } => TriggerDetailView::Event {
                delay: Some(value),
                subscription,
                value_queries,
            },
            TriggerDetailView::Logon { delay, user_id } => TriggerDetailView::Logon {
                delay: Some(value),
                user_id,
            },
            TriggerDetailView::Registration { delay } => TriggerDetailView::Registration {
                delay: Some(value),
            },
            _ => self,
        }
    }

    /// The fields with `days_interval` set to `value`; unchanged for a kind without that field.
    pub open spec fn with_days_interval(self, value: i16) -> TriggerDetailView {
        match self {
            TriggerDetailView::Daily { days_interval, random_delay } => TriggerDetailView::Daily {
                days_interval: Some(value),
                random_delay,
            },
            _ => self,
        }
    }

    /// The fields with `random_delay` set to `value`; unchanged for a kind without that field.
    pub open spec fn with_random_delay(self, value: Seq<char>) -> TriggerDetailView {
        match self {
            TriggerDetailView::Daily { days_interval, random_delay } => TriggerDetailView::Daily {
                days_interval,
                random_delay: Some(value),
            },
            TriggerDetailView::Monthly { days_of_month, months_of_year, random_delay, run_on_last_day } => TriggerDetailView::Monthly {
                days_of_month,
                months_of_year,
                random_delay: Some(value),
                run_on_last_day,
            },
            TriggerDetailView::MonthlyDOW { days_of_week, months_of_year, random_delay, run_on_last_week, weeks_of_month } => TriggerDetailView::MonthlyDOW {
                days_of_week,
                months_of_year,
                random_delay: Some(value),
                run_on_last_week,
                weeks_of_month,
            },
            TriggerDetailView::Time { random_delay } => TriggerDetailView::Time {
                random_delay: Some(value),
            },
            TriggerDetailView::Weekly { days_of_week, random_delay, weeks_interval } => TriggerDetailView::Weekly {
                days_of_week,
                random_delay: Some(value),
                weeks_interval,
            },
            _ => self,
        }
    }

    /// The fields with `subscription` set to `value`; unchanged for a kind without that field.
    pub open spec fn with_subscription(self, value: Seq<char>) -> TriggerDetailView {
        match self {
            TriggerDetailView::Event { delay, subscription, value_queries } => TriggerDetailView::Event {
                delay,
                subscription: Some(value),
                value_queries,
            },
            _ => self,
        }
    }

    /// The fields with `more` appended to the named values; unchanged for a kind without them.
    pub open spec fn with_value_queries(self, more: Seq<(Seq<char>, Seq<char>)>) -> TriggerDetailView {
        match self {
            TriggerDetailView::Event { delay, subscription, value_queries } => TriggerDetailView::Event {
                delay,
                subscription,
                value_queries: value_queries + more,
            },
            _ => self,
        }
    }

    /// The fields with `user_id` set to `value`; unchanged for a kind without that field.
    pub open spec fn with_user_id(self, value: Seq<char>) -> TriggerDetailView {
        match self {
            TriggerDetailView::Logon { delay, user_id } => TriggerDetailView::Logon {
                delay,
                user_id: Some(value),
            },
            _ => self,
        }
    }

    /// The fields with `days_of_month` set to `value`; unchanged for a kind without that field.
    pub open spec fn with_days_of_month(self, value: u32) -> TriggerDetailView {
        match self {
            TriggerDetailView::Monthly { days_of_month, months_of_year, random_delay, run_on_last_day } => TriggerDetailView::Monthly {
                days_of_month: Some(value),
                months_of_year,
                random_delay,
                run_on_last_day,
            },
            _ => self,
        }
    }

    /// The fields with `months_of_year` set to `value`; unchanged for a kind without that field.
    pub open spec fn with_months_of_year(self, value: u32) -> TriggerDetailView {
        match self {
            TriggerDetailView::Monthly { days_of_month, months_of_year, random_delay, run_on_last_day } => TriggerDetailView::Monthly {
                days_of_month,
                months_of_year: Some(value),
                random_delay,
                run_on_last_day,
            },
            TriggerDetailView::MonthlyDOW { days_of_week, months_of_year, random_delay, run_on_last_week, weeks_of_month } => TriggerDetailView::MonthlyDOW {
                days_of_week,
                months_of_year: Some(value),
                random_delay,
                run_on_last_week,
                weeks_of_month,
            },
            _ => self,
        }
    }

    /// The fields with `run_on_last_day` set to `value`; unchanged for a kind without that field.
    pub open spec fn with_run_on_last_day(self, value: bool) -> TriggerDetailView {
        match self {
            TriggerDetailView::Monthly { days_of_month, months_of_year, random_delay, run_on_last_day } => TriggerDetailView::Monthly {
                days_of_month,
                months_of_year,
                random_delay,
                run_on_last_day: Some(value),
            },
            _ => self,
        }
    }

    /// The fields with `days_of_week` set to `value`; unchanged for a kind without that field.
    pub open spec fn with_days_of_week(self, value: u32) -> TriggerDetailView {
        match self {
            TriggerDetailView::MonthlyDOW { days_of_week, months_of_year, random_delay, run_on_last_week, weeks_of_month } => TriggerDetailView::MonthlyDOW {
                days_of_week: Some(value),
                months_of_year,
                random_delay,
                run_on_last_week,
                weeks_of_month,
            },
            TriggerDetailView::Weekly { days_of_week, random_delay, weeks_interval } => TriggerDetailView::Weekly {
                days_of_week: Some(value),
                random_delay,
                weeks_interval,
            },
            _ => self,
        }
    }

    /// The fields with `run_on_last_week` set to `value`; unchanged for a kind without that field.
    pub open spec fn with_run_on_last_week(self, value: bool) -> TriggerDetailView {
        match self {
            TriggerDetailView::MonthlyDOW { days_of_week, months_of_year, random_delay, run_on_last_week, weeks_of_month } => TriggerDetailView::MonthlyDOW {
                days_of_week,
                months_of_year,
                random_delay,
                run_on_last_week: Some(value),
                weeks_of_month,
            },
            _ => self,
        }
    }

    /// The fields with `weeks_of_month` set to `value`; unchanged for a kind without that field.
    pub open spec fn with_weeks_of_month(self, value: u32) -> TriggerDetailView {
        match self {
            TriggerDetailView::MonthlyDOW { days_of_week, months_of_year, random_delay, run_on_last_week, weeks_of_month } => TriggerDetailView::MonthlyDOW {
                days_of_week,
                months_of_year,
                random_delay,
                run_on_last_week,
                weeks_of_month: Some(value),
            },
            _ => self,
        }
    }

    /// The fields with `weeks_interval` set to `value`; unchanged for a kind without that field.
    pub open spec fn with_weeks_interval(self, value: i16) -> TriggerDetailView {
        match self {
            TriggerDetailView::Weekly { days_of_week, random_delay, weeks_interval } => TriggerDetailView::Weekly {
                days_of_week,
                random_delay,
                weeks_interval: Some(value),
            },
            _ => self,
        }
    }
}

/// Appending lists of named values appends their characters.
proof fn lemma_queries_of_add(a: Seq<(String, String)>, b: Seq<(String, String)>)
    ensures
        queries_of(a + b) == queries_of(a) + queries_of(b),
{
    assert(queries_of(a + b) =~= queries_of(a) + queries_of(b));
}

impl TriggerDetail {
    fn with_delay(self, value: String) -> (r: TriggerDetail)
        ensures
            r@ == self@.with_delay(value@),
            r@.kind() == self@.kind(),
    {
        match self {
            TriggerDetail::Boot { delay: _ } => TriggerDetail::Boot {
                delay: Some(value),
            },
            TriggerDetail::Event { delay: _, subscription, value_queries } => TriggerDetail::Event {
                delay: Some(value),
                subscription,
                value_queries,
            },
            TriggerDetail::Logon { delay: _, user_id } => TriggerDetail::Logon {
                delay: Some(value),
                user_id,
            },
            TriggerDetail::Registration { delay: _ } => TriggerDetail::Registration {
                delay: Some(value),
            },
            other => other,
        }
    }

    fn with_days_interval(self, value: i16) -> (r: TriggerDetail)
        ensures
            r@ == self@.with_days_interval(value),
            r@.kind() == self@.kind(),
    {
        match self {
            TriggerDetail::Daily { days_interval: _, random_delay } => TriggerDetail::Daily {
                days_interval: Some(value),
                random_delay,
            },
            other => other,
        }
    }

    fn with_random_delay(self, value: String) -> (r: TriggerDetail)
        ensures
            r@ == self@.with_random_delay(value@),
            r@.kind() == self@.kind(),
    {
        match self {
            TriggerDetail::Daily { days_interval, random_delay: _ } => TriggerDetail::Daily {
                days_interval,
                random_delay: Some(value),
            },
            TriggerDetail::Monthly { days_of_month, months_of_year, random_delay: _, run_on_last_day } => TriggerDetail::Monthly {
                days_of_month,
                months_of_year,
                random_delay: Some(value),
                run_on_last_day,
            },
            TriggerDetail::MonthlyDOW { days_of_week, months_of_year, random_delay: _, run_on_last_week, weeks_of_month } => TriggerDetail::MonthlyDOW {
                days_of_week,
                months_of_year,
                random_delay: Some(value),
                run_on_last_week,
                weeks_of_month,
            },
            TriggerDetail::Time { random_delay: _ } => TriggerDetail::Time {
                random_delay: Some(value),
            },
            TriggerDetail::Weekly { days_of_week, random_delay: _, weeks_interval } => TriggerDetail::Weekly {
                days_of_week,
                random_delay: Some(value),
                weeks_interval,
            },
            other => other,
        }
    }

    fn with_subscription(self, value: String) -> (r: TriggerDetail)
        ensures
            r@ == self@.with_subscription(value@),
            r@.kind() == self@.kind(),
    {
        match self {
            TriggerDetail::Event { delay, subscription: _, value_queries } => TriggerDetail::Event {
                delay,
                subscription: Some(value),
                value_queries,
            },
            other => other,
        }
    }

    fn with_value_queries(self, more: Vec<(String, String)>) -> (r: TriggerDetail)
        ensures
            r@ == self@.with_value_queries(queries_of(more@)),
            r@.kind() == self@.kind(),
    {
        match self {
            TriggerDetail::Event { delay, subscription, value_queries } => {
                let mut value_queries = value_queries;
                let mut more = more;
                proof {
                    lemma_queries_of_add(value_queries@, more@);
                }
                value_queries.append(&mut more);
                TriggerDetail::Event { delay, subscription, value_queries }
            },
            other => other,
        }
    }

    fn with_user_id(self, value: String) -> (r: TriggerDetail)
        ensures
            r@ == self@.with_user_id(value@),
            r@.kind() == self@.kind(),
    {
        match self {
            TriggerDetail::Logon { delay, user_id: _ } => TriggerDetail::Logon {
                delay,
                user_id: Some(value),
            },
            other => other,
        }
    }

    fn with_days_of_month(self, value: u32) -> (r: TriggerDetail)
        ensures
            r@ == self@.with_days_of_month(value),
            r@.kind() == self@.kind(),
    {
        match self {
            TriggerDetail::Monthly { days_of_month: _, months_of_year, random_delay, run_on_last_day } => TriggerDetail::Monthly {
                days_of_month: Some(value),
                months_of_year,
                random_delay,
                run_on_last_day,
            },
            other => other,
        }
    }

    fn with_months_of_year(self, value: u32) -> (r: TriggerDetail)
        ensures
            r@ == self@.with_months_of_year(value),
            r@.kind() == self@.kind(),
    {
        match self {
            TriggerDetail::Monthly { days_of_month, months_of_year: _, random_delay, run_on_last_day } => TriggerDetail::Monthly {
                days_of_month,
                months_of_year: Some(value),
                random_delay,
                run_on_last_day,
            },
            TriggerDetail::MonthlyDOW { days_of_week, months_of_year: _, random_delay, run_on_last_week, weeks_of_month } => TriggerDetail::MonthlyDOW {
                days_of_week,
                months_of_year: Some(value),
                random_delay,
                run_on_last_week,
                weeks_of_month,
            },
            other => other,
        }
    }

    fn with_run_on_last_day(self, value: bool) -> (r: TriggerDetail)
        ensures
            r@ == self@.with_run_on_last_day(value),
            r@.kind() == self@.kind(),
    {
        match self {
            TriggerDetail::Monthly { days_of_month, months_of_year, random_delay, run_on_last_day: _ } => TriggerDetail::Monthly {
                days_of_month,
                months_of_year,
                random_delay,
                run_on_last_day: Some(value),
            },
            other => other,
        }
    }

    fn with_days_of_week(self, value: u32) -> (r: TriggerDetail)
        ensures
            r@ == self@.with_days_of_week(value),
            r@.kind() == self@.kind(),
    {
        match self {
            TriggerDetail::MonthlyDOW { days_of_week: _, months_of_year, random_delay, run_on_last_week, weeks_of_month } => TriggerDetail::MonthlyDOW {
                days_of_week: Some(value),
                months_of_year,
                random_delay,
                run_on_last_week,
                weeks_of_month,
            },
            TriggerDetail::Weekly { days_of_week: _, random_delay, weeks_interval } => TriggerDetail::Weekly {
                days_of_week: Some(value),
                random_delay,
                weeks_interval,
            },
            other => other,
        }
    }

    fn with_run_on_last_week(self, value: bool) -> (r: TriggerDetail)
        ensures
            r@ == self@.with_run_on_last_week(value),
            r@.kind() == self@.kind(),
    {
        match self {
            TriggerDetail::MonthlyDOW { days_of_week, months_of_year, random_delay, run_on_last_week: _, weeks_of_month } => TriggerDetail::MonthlyDOW {
                days_of_week,
                months_of_year,
                random_delay,
                run_on_last_week: Some(value),
                weeks_of_month,
            },
            other => other,
        }
    }

    fn with_weeks_of_month(self, value: u32) -> (r: TriggerDetail)
        ensures
            r@ == self@.with_weeks_of_month(value),
            r@.kind() == self@.kind(),
    {
        match self {
            TriggerDetail::MonthlyDOW { days_of_week, months_of_year, random_delay, run_on_last_week, weeks_of_month: _ } => TriggerDetail::MonthlyDOW {
                days_of_week,
                months_of_year,
                random_delay,
                run_on_last_week,
                weeks_of_month: Some(value),
            },
            other => other,
        }
    }

    fn with_weeks_interval(self, value: i16) -> (r: TriggerDetail)
        ensures
            r@ == self@.with_weeks_interval(value),
            r@.kind() == self@.kind(),
    {
        match self {
            TriggerDetail::Weekly { days_of_week, random_delay, weeks_interval: _ } => TriggerDetail::Weekly {
                days_of_week,
                random_delay,
                weeks_interval: Some(value),
            },
            other => other,
        }
    }
}

/* the builder, as mathematics */

/// What a [`ScheduleBuilder`] has gathered so far.
pub ghost struct BuilderView {
    pub handle: nat,
    pub trigger: Option<TriggerView>,
    pub actions: Seq<ActionView>,
    pub force_start_boundary: bool,
    pub registration_info: RegistrationInfoView,
    pub settings: Settings,
    pub principal: Option<PrincipalSettings>,
}

/// What an operation of the builder gives: the next state, or an error.
pub type Outcome = Result<BuilderView, ErrorView>;

impl TriggerView {
    /// The trigger with the fields of its kind replaced.
    pub open spec fn with_detail(self, detail: TriggerDetailView) -> TriggerView {
        TriggerView { detail, ..self }
    }
}

impl BuilderView {
    /// Whether the builder holds neither a trigger nor anything else.
    pub open spec fn is_empty(self) -> bool {
        &&& self.trigger is None
        &&& self.actions.len() == 0
        &&& !self.force_start_boundary
        &&& self.registration_info.author is None
        &&& self.registration_info.description is None
        &&& self.settings.is_unset()
        &&& self.principal is None
    }

    /// Whether the trigger, if there is one, is of the kind that the marker
    /// of the builder stands for. It holds of every builder.
    pub open spec fn fits(self, choice: Option<TriggerKind>) -> bool {
        match self.trigger {
            None => true,
            Some(t) => choice == Some(t.kind()),
        }
    }

    /// The state after a kind of trigger was chosen: a kind that must name
    /// its start leaves the start boundary owed.
    pub open spec fn select(self, kind: TriggerKind) -> BuilderView {
        if kind.needs_start_boundary() {
            BuilderView { force_start_boundary: true, ..self }
        } else {
            self
        }
    }

    /// The state with `t` as its trigger.
    pub open spec fn with_trigger(self, t: TriggerView) -> BuilderView {
        BuilderView { trigger: Some(t), ..self }
    }

    /// The state with no trigger.
    pub open spec fn without_trigger(self) -> BuilderView {
        BuilderView { trigger: None, ..self }
    }

    /// Creates the trigger. Fails when there is one already, or when `id` is empty.
    pub open spec fn create_trigger(self, kind: TriggerKind, id: Seq<char>, enabled: bool) -> Outcome {
        if self.trigger is Some {
            Err(ErrorView::invalid_operation(trigger_exists_message()))
        } else if id.len() == 0 {
            Err(ErrorView::invalid_operation(empty_id_message()))
        } else {
            Ok(self.with_trigger(TriggerView::fresh(kind, id, enabled)))
        }
    }

    /// The trigger that an operation on any kind of trigger works on.
    pub open spec fn any_trigger(self) -> Result<TriggerView, ErrorView> {
        match self.trigger {
            None => Err(ErrorView::invalid_operation(trigger_uninitialised_message())),
            Some(t) => Ok(t),
        }
    }

    /// The state with `action` added after the actions gathered so far.
    pub open spec fn with_action(self, action: ActionView) -> BuilderView {
        BuilderView { actions: self.actions.push(action), ..self }
    }

    /// The state with the author set.
    pub open spec fn with_author(self, author: Seq<char>) -> BuilderView {
        BuilderView {
            registration_info: RegistrationInfoView {
                author: Some(author),
                ..self.registration_info
            },
            ..self
        }
    }

    /// The state with the description set.
    pub open spec fn with_description(self, description: Seq<char>) -> BuilderView {
        BuilderView {
            registration_info: RegistrationInfoView {
                description: Some(description),
                ..self.registration_info
            },
            ..self
        }
    }

    /// Lays `settings` over the settings gathered so far.
    pub open spec fn with_settings(self, settings: Settings) -> BuilderView {
        BuilderView { settings: self.settings.merged(settings), ..self }
    }

    /// Sets the principal. Fails when the settings name both a group and a user.
    pub open spec fn set_principal(self, settings: PrincipalSettings) -> Outcome {
        if settings.exclusive() {
            Ok(BuilderView { principal: Some(settings), ..self })
        } else {
            Err(ErrorView::invalid_operation(principal_message()))
        }
    }

    /// Sets the start boundary, which is then no longer owed.
    pub open spec fn set_start_boundary(self, start: Seq<char>) -> Outcome {
        match self.any_trigger() {
            Err(e) => Err(e),
            Ok(t) => Ok(
                BuilderView {
                    trigger: Some(TriggerView { start_boundary: Some(start), ..t }),
                    force_start_boundary: false,
                    ..self
                },
            ),
        }
    }

    /// Sets the end boundary of the trigger. Fails when there is no trigger.
    pub open spec fn set_end_boundary(self, end: Seq<char>) -> Outcome {
        match self.any_trigger() {
            Err(e) => Err(e),
            Ok(t) => Ok(self.with_trigger(TriggerView { end_boundary: Some(end), ..t })),
        }
    }

    /// Sets the execution time limit of the trigger. Fails when there is no trigger.
    pub open spec fn set_execution_time_limit(self, limit: Seq<char>) -> Outcome {
        match self.any_trigger() {
            Err(e) => Err(e),
            Ok(t) => Ok(self.with_trigger(TriggerView { execution_time_limit: Some(limit), ..t })),
        }
    }

    /// Sets the repetition of the trigger. Fails when there is no trigger.
    pub open spec fn set_repetition(self, repetition: RepetitionView) -> Outcome {
        match self.any_trigger() {
            Err(e) => Err(e),
            Ok(t) => Ok(self.with_trigger(TriggerView { repetition: Some(repetition), ..t })),
        }
    }

    /// Sets the delay on the trigger. Fails when there is no trigger.
    pub open spec fn set_delay(self, value: Seq<char>) -> Outcome {
        match self.any_trigger() {
            Err(e) => Err(e),
            Ok(t) => Ok(self.with_trigger(t.with_detail(t.detail.with_delay(value)))),
        }
    }

    /// Sets the interval of days on the trigger. Fails when there is no trigger.
    pub open spec fn set_days_interval(self, value: i16) -> Outcome {
        match self.any_trigger() {
            Err(e) => Err(e),
            Ok(t) => Ok(self.with_trigger(t.with_detail(t.detail.with_days_interval(value)))),
        }
    }

    /// Sets the random delay on the trigger. Fails when there is no trigger.
    pub open spec fn set_random_delay(self, value: Seq<char>) -> Outcome {
        match self.any_trigger() {
            Err(e) => Err(e),
            Ok(t) => Ok(self.with_trigger(t.with_detail(t.detail.with_random_delay(value)))),
        }
    }

    /// Sets the subscription on the trigger. Fails when there is no trigger.
    pub open spec fn set_subscription(self, value: Seq<char>) -> Outcome {
        match self.any_trigger() {
            Err(e) => Err(e),
            Ok(t) => Ok(self.with_trigger(t.with_detail(t.detail.with_subscription(value)))),
        }
    }

    /// Appends named values to the trigger. Fails when there is no trigger.
    pub open spec fn add_value_queries(self, more: Seq<(Seq<char>, Seq<char>)>) -> Outcome {
        match self.any_trigger() {
            Err(e) => Err(e),
            Ok(t) => Ok(self.with_trigger(t.with_detail(t.detail.with_value_queries(more)))),
        }
    }

    /// Sets the user on the trigger. Fails when there is no trigger.
    pub open spec fn set_user_id(self, value: Seq<char>) -> Outcome {
        match self.any_trigger() {
            Err(e) => Err(e),
            Ok(t) => Ok(self.with_trigger(t.with_detail(t.detail.with_user_id(value)))),
        }
    }

    /// Sets whether the trigger runs on the last day of the month. Fails when there is no trigger.
    pub open spec fn set_run_on_last_day(self, value: bool) -> Outcome {
        match self.any_trigger() {
            Err(e) => Err(e),
            Ok(t) => Ok(self.with_trigger(t.with_detail(t.detail.with_run_on_last_day(value)))),
        }
    }

    /// Sets whether the trigger runs in the last week of the month. Fails when there is no trigger.
    pub open spec fn set_run_on_last_week(self, value: bool) -> Outcome {
        match self.any_trigger() {
            Err(e) => Err(e),
            Ok(t) => Ok(self.with_trigger(t.with_detail(t.detail.with_run_on_last_week(value)))),
        }
    }

    /// Sets the interval of weeks on the trigger. Fails when there is no trigger.
    pub open spec fn set_weeks_interval(self, value: i16) -> Outcome {
        match self.any_trigger() {
            Err(e) => Err(e),
            Ok(t) => Ok(self.with_trigger(t.with_detail(t.detail.with_weeks_interval(value)))),
        }
    }

    /// Sets the flag word of `items` on the trigger. Fails when there is no
    /// trigger, then when a day lies outside 1 to 31.
    pub open spec fn set_days_of_month(self, items: Seq<DayOfMonth>) -> Outcome {
        match self.any_trigger() {
            Err(e) => Err(e),
            Ok(t) => if all_valid(items) {
                Ok(self.with_trigger(t.with_detail(t.detail.with_days_of_month(encode_spec(items)))))
            } else {
                Err(ErrorView::out_of_range(day_out_of_range_message()))
            },
        }
    }

    /// Sets the flag word of `items` on the trigger. Fails when there is no
    /// trigger.
    pub open spec fn set_days_of_week(self, items: Seq<DayOfWeek>) -> Outcome {
        match self.any_trigger() {
            Err(e) => Err(e),
            Ok(t) => Ok(self.with_trigger(t.with_detail(t.detail.with_days_of_week(encode_spec(items))))),
        }
    }

    /// Sets the flag word of `items` on the trigger. Fails when there is no
    /// trigger.
    pub open spec fn set_months_of_year(self, items: Seq<Month>) -> Outcome {
        match self.any_trigger() {
            Err(e) => Err(e),
            Ok(t) => Ok(self.with_trigger(t.with_detail(t.detail.with_months_of_year(encode_spec(items))))),
        }
    }

    /// Sets the flag word of `items` on the trigger. Fails when there is no
    /// trigger.
    pub open spec fn set_weeks_of_month(self, items: Seq<WeekOfMonth>) -> Outcome {
        match self.any_trigger() {
            Err(e) => Err(e),
            Ok(t) => Ok(self.with_trigger(t.with_detail(t.detail.with_weeks_of_month(encode_spec(items))))),
        }
    }

    /// The finished schedule. Fails when no trigger was created, then when the
    /// start boundary is still owed.
    pub open spec fn build(self) -> Result<ScheduleView, ErrorView> {
        match self.trigger {
            None => Err(ErrorView::invalid_operation(trigger_not_created_message())),
            Some(t) => if self.force_start_boundary {
                Err(ErrorView::required_property(start_boundary_required_message()))
            } else {
                Ok(
                    ScheduleView {
                        handle: self.handle,
                        trigger: t,
                        actions: self.actions,
                        force_start_boundary: false,
                        registration_info: self.registration_info,
                        settings: self.settings,
                        principal: self.principal,
                    },
                )
            },
        }
    }
}

/* the builder */

/// Builds a [`Schedule`] step by step. The type parameter names the kind of
/// trigger that was chosen, and with it the operations that are on offer.
///
/// A builder holds one counted handle to the runtime from the moment it is
/// made. The handle goes over to the schedule that is built, or is given back
/// with [`release`](ScheduleBuilder::release). A builder that is thrown away,
/// as after an operation that failed, keeps its handle counted.
pub struct ScheduleBuilder<Frequency: TriggerChoice = Base> {
    pub(crate) frequency: core::marker::PhantomData<Frequency>,
    pub(crate) com: RuntimeHandle,
    pub(crate) trigger: Option<Trigger>,
    pub(crate) actions: Vec<Action>,
    pub(crate) force_start_boundary: bool,
    pub(crate) registration_info: RegistrationInfo,
    pub(crate) settings: Settings,
    pub(crate) principal: Option<PrincipalSettings>,
}

impl<Frequency: TriggerChoice> View for ScheduleBuilder<Frequency> {
    type V = BuilderView;

    closed spec fn view(&self) -> BuilderView {
        BuilderView {
            handle: self.com.serial(),
            trigger: match self.trigger {
                Some(t) => Some(t@),
                None => None,
            },
            actions: actions_of(self.actions@),
            force_start_boundary: self.force_start_boundary,
            registration_info: self.registration_info@,
            settings: self.settings,
            principal: self.principal,
        }
    }
}

/// Whether what an operation returned is what the model says it gives.
pub open spec fn refines<Frequency: TriggerChoice>(
    r: Result<ScheduleBuilder<Frequency>, ScheduleError>,
    outcome: Outcome,
) -> bool {
    match r {
        Ok(b) => outcome == Ok::<BuilderView, ErrorView>(b@),
        Err(e) => outcome == Err::<BuilderView, ErrorView>(e@),
    }
}

/// Whether the builder before an operation, and the builder that the
/// operation returned, hold no trigger of another kind than the marker of
/// the builder stands for. It holds of every operation: with it, no operation
/// of a builder fails because its trigger is of another kind.
pub open spec fn keeps_kind<Frequency: TriggerChoice>(
    before: BuilderView,
    r: Result<ScheduleBuilder<Frequency>, ScheduleError>,
) -> bool {
    before.fits(Frequency::kind()) && (r matches Ok(b) ==> b@.fits(Frequency::kind()))
}

impl ScheduleBuilder<Base> {
    /// Create a new base builder: no kind of trigger is chosen, nothing is set.
    ///
    /// The builder takes a handle of its own beside `com`: the ledger counts
    /// one handle more, and the runtime is not initialized again. Fails, and
    /// leaves the ledger as it is, when no handle is live on the ledger or
    /// when the count of handles is at its limit.
    pub fn new(com: &RuntimeHandle, ledger: &mut RuntimeLedger) -> (r: Result<Self, ScheduleError>)
        ensures
            match r {
                Ok(b) => {
                    &&& old(ledger)@.share() == Ok::<RuntimeView, ErrorView>(final(ledger)@)
                    &&& b@.handle == old(ledger)@.issued
                    &&& b@.is_empty()
                    &&& b@.fits(None)
                },
                Err(e) => final(ledger)@ == old(ledger)@ && old(ledger)@.share() == Err::<
                    RuntimeView,
                    ErrorView,
                >(e@),
            },
    {
        let shared = match ledger.share(com) {
            Ok(shared) => shared,
            Err(e) => {
                return Err(e);
            },
        };
        let actions: Vec<Action> = Vec::new();
        assert(actions_of(actions@).len() == 0);
        Ok(
            ScheduleBuilder {
                frequency: core::marker::PhantomData,
                com: shared,
                trigger: None,
                actions,
                force_start_boundary: false,
                registration_info: RegistrationInfo { author: None, description: None },
                settings: Settings::new(),
                principal: None,
            },
        )
    }

    /// Moves what was gathered into a builder for a trigger of `kind`.
    fn choose_kind<Chosen: TriggerChoice>(self, kind: TriggerKind) -> (b: ScheduleBuilder<Chosen>)
        requires
            Chosen::kind() == Some(kind),
        ensures
            b@ == self@.select(kind),
            self@.trigger is None,
            b@.fits(Some(kind)),
    {
        proof {
            use_type_invariant(&self);
        }
        ScheduleBuilder {
            frequency: core::marker::PhantomData,
            com: self.com,
            trigger: None,
            actions: self.actions,
            force_start_boundary: self.force_start_boundary || kind.requires_start_boundary(),
            registration_info: self.registration_info,
            settings: self.settings,
            principal: self.principal,
        }
    }

    /// Creates a builder for a boot trigger.
    pub fn create_boot(self) -> (b: ScheduleBuilder<Boot>)
        ensures
            b@ == self@.select(TriggerKind::Boot),
            self@.trigger is None,
            b@.fits(Some(TriggerKind::Boot)),
    {
        self.choose_kind(TriggerKind::Boot)
    }

    /// Creates a builder for a daily trigger.
    pub fn create_daily(self) -> (b: ScheduleBuilder<Daily>)
        ensures
            b@ == self@.select(TriggerKind::Daily),
            self@.trigger is None,
            b@.fits(Some(TriggerKind::Daily)),
    {
        self.choose_kind(TriggerKind::Daily)
    }

    /// Creates a builder for an event trigger.
    pub fn create_event(self) -> (b: ScheduleBuilder<Event>)
        ensures
            b@ == self@.select(TriggerKind::Event),
            self@.trigger is None,
            b@.fits(Some(TriggerKind::Event)),
    {
        self.choose_kind(TriggerKind::Event)
    }

    /// Creates a builder for an idle trigger.
    pub fn create_idle(self) -> (b: ScheduleBuilder<Idle>)
        ensures
            b@ == self@.select(TriggerKind::Idle),
            self@.trigger is None,
            b@.fits(Some(TriggerKind::Idle)),
    {
        self.choose_kind(TriggerKind::Idle)
    }

    /// Creates a builder for a logon trigger.
    pub fn create_logon(self) -> (b: ScheduleBuilder<Logon>)
        ensures
            b@ == self@.select(TriggerKind::Logon),
            self@.trigger is None,
            b@.fits(Some(TriggerKind::Logon)),
    {
        self.choose_kind(TriggerKind::Logon)
    }

    /// Creates a builder for a monthly trigger.
    pub fn create_monthly(self) -> (b: ScheduleBuilder<Monthly>)
        ensures
            b@ == self@.select(TriggerKind::Monthly),
            self@.trigger is None,
            b@.fits(Some(TriggerKind::Monthly)),
    {
        self.choose_kind(TriggerKind::Monthly)
    }

    /// Creates a builder for a monthly day of week trigger.
    pub fn create_monthly_dow(self) -> (b: ScheduleBuilder<MonthlyDOW>)
        ensures
            b@ == self@.select(TriggerKind::MonthlyDOW),
            self@.trigger is None,
            b@.fits(Some(TriggerKind::MonthlyDOW)),
    {
        self.choose_kind(TriggerKind::MonthlyDOW)
    }

    /// Creates a builder for a trigger that starts a task when the task is registered or updated.
    pub fn create_registration(self) -> (b: ScheduleBuilder<Registration>)
        ensures
            b@ == self@.select(TriggerKind::Registration),
            self@.trigger is None,
            b@.fits(Some(TriggerKind::Registration)),
    {
        self.choose_kind(TriggerKind::Registration)
    }

    /// Creates a builder for a time trigger.
    pub fn create_time(self) -> (b: ScheduleBuilder<Time>)
        ensures
            b@ == self@.select(TriggerKind::Time),
            self@.trigger is None,
            b@.fits(Some(TriggerKind::Time)),
    {
        self.choose_kind(TriggerKind::Time)
    }

    /// Creates a builder for a weekly trigger.
    pub fn create_weekly(self) -> (b: ScheduleBuilder<Weekly>)
        ensures
            b@ == self@.select(TriggerKind::Weekly),
            self@.trigger is None,
            b@.fits(Some(TriggerKind::Weekly)),
    {
        self.choose_kind(TriggerKind::Weekly)
    }
}

impl<Frequency: TriggerChoice> ScheduleBuilder<Frequency> {
    /// The trigger, if there is one, is of the kind that the marker stands for.
    #[verifier::type_invariant]
    spec fn well_kinded(self) -> bool {
        self@.fits(Frequency::kind())
    }

    /// Creates the trigger of the schedule.
    fn make_trigger(self, kind: TriggerKind, id: &str, enabled: bool) -> (r: Result<
        Self,
        ScheduleError,
    >)
        requires
            Frequency::kind() == Some(kind),
        ensures
            refines(r, self@.create_trigger(kind, id@, enabled)),
            self@.fits(Some(kind)),
            r matches Ok(b) ==> b@.fits(Some(kind)),
    {
        proof {
            use_type_invariant(&self);
            crate::schedule_builder::lemma_fresh_kind(kind, id@, enabled);
        }
        if self.trigger.is_some() {
            return Err(
                ScheduleError::invalid_operation(
                    "A trigger has already been created. A schedule has one trigger only.",
                ),
            );
        }
        if id.is_empty() {
            return Err(
                ScheduleError::invalid_operation("The identifier of a trigger must not be empty."),
            );
        }
        let mut this = self;
        this.trigger = Some(Trigger::fresh(kind, id, enabled));
        Ok(this)
    }

    /// Takes the trigger out of the builder, whatever its kind.
    fn take_any_trigger(self) -> (r: Result<(Self, Trigger), ScheduleError>)
        ensures
            self@.fits(Frequency::kind()),
            match r {
                Ok((b, t)) => self@.any_trigger() == Ok::<TriggerView, ErrorView>(t@) && b@
                    == self@.without_trigger() && Frequency::kind() == Some(t@.kind()),
                Err(e) => self@.any_trigger() == Err::<TriggerView, ErrorView>(e@),
            },
    {
        proof {
            use_type_invariant(&self);
        }
        let mut this = self;
        match this.trigger {
            None => Err(trigger_uninitialised_error()),
            Some(t) => {
                this.trigger = None;
                Ok((this, t))
            },
        }
    }

    /// Puts a trigger into the builder.
    fn put_trigger(self, t: Trigger) -> (b: Self)
        requires
            Frequency::kind() == Some(t@.kind()),
        ensures
            b@ == self@.with_trigger(t@),
            b@.fits(Frequency::kind()),
    {
        let mut this = self;
        this.trigger = Some(t);
        this
    }

    fn detail_delay(self, value: String) -> (r: Result<Self, ScheduleError>)
        ensures
            refines(r, self@.set_delay(value@)),
            keeps_kind(self@, r),
            r is Err <==> self@.trigger is None,
    {
        match self.take_any_trigger() {
            Err(e) => Err(e),
            Ok((this, t)) => {
                let mut t = t;
                t.detail = t.detail.with_delay(value);
                Ok(this.put_trigger(t))
            },
        }
    }

    fn detail_days_interval(self, value: i16) -> (r: Result<Self, ScheduleError>)
        ensures
            refines(r, self@.set_days_interval(value)),
            keeps_kind(self@, r),
            r is Err <==> self@.trigger is None,
    {
        match self.take_any_trigger() {
            Err(e) => Err(e),
            Ok((this, t)) => {
                let mut t = t;
                t.detail = t.detail.with_days_interval(value);
                Ok(this.put_trigger(t))
            },
        }
    }

    fn detail_random_delay(self, value: String) -> (r: Result<Self, ScheduleError>)
        ensures
            refines(r, self@.set_random_delay(value@)),
            keeps_kind(self@, r),
            r is Err <==> self@.trigger is None,
    {
        match self.take_any_trigger() {
            Err(e) => Err(e),
            Ok((this, t)) => {
                let mut t = t;
                t.detail = t.detail.with_random_delay(value);
                Ok(this.put_trigger(t))
            },
        }
    }

    fn detail_subscription(self, value: String) -> (r: Result<Self, ScheduleError>)
        ensures
            refines(r, self@.set_subscription(value@)),
            keeps_kind(self@, r),
            r is Err <==> self@.trigger is None,
    {
        match self.take_any_trigger() {
            Err(e) => Err(e),
            Ok((this, t)) => {
                let mut t = t;
                t.detail = t.detail.with_subscription(value);
                Ok(this.put_trigger(t))
            },
        }
    }

    fn detail_value_queries(self, more: Vec<(String, String)>) -> (r: Result<
        Self,
        ScheduleError,
    >)
        ensures
            refines(r, self@.add_value_queries(queries_of(more@))),
            keeps_kind(self@, r),
            r is Err <==> self@.trigger is None,
    {
        match self.take_any_trigger() {
            Err(e) => Err(e),
            Ok((this, t)) => {
                let mut t = t;
                t.detail = t.detail.with_value_queries(more);
                Ok(this.put_trigger(t))
            },
        }
    }

    fn detail_user_id(self, value: String) -> (r: Result<Self, ScheduleError>)
        ensures
            refines(r, self@.set_user_id(value@)),
            keeps_kind(self@, r),
            r is Err <==> self@.trigger is None,
    {
        match self.take_any_trigger() {
            Err(e) => Err(e),
            Ok((this, t)) => {
                let mut t = t;
                t.detail = t.detail.with_user_id(value);
                Ok(this.put_trigger(t))
            },
        }
    }

    fn detail_run_on_last_day(self, value: bool) -> (r: Result<Self, ScheduleError>)
        ensures
            refines(r, self@.set_run_on_last_day(value)),
            keeps_kind(self@, r),
            r is Err <==> self@.trigger is None,
    {
        match self.take_any_trigger() {
            Err(e) => Err(e),
            Ok((this, t)) => {
                let mut t = t;
                t.detail = t.detail.with_run_on_last_day(value);
                Ok(this.put_trigger(t))
            },
        }
    }

    fn detail_run_on_last_week(self, value: bool) -> (r: Result<Self, ScheduleError>)
        ensures
            refines(r, self@.set_run_on_last_week(value)),
            keeps_kind(self@, r),
            r is Err <==> self@.trigger is None,
    {
        match self.take_any_trigger() {
            Err(e) => Err(e),
            Ok((this, t)) => {
                let mut t = t;
                t.detail = t.detail.with_run_on_last_week(value);
                Ok(this.put_trigger(t))
            },
        }
    }

    fn detail_weeks_interval(self, value: i16) -> (r: Result<Self, ScheduleError>)
        ensures
            refines(r, self@.set_weeks_interval(value)),
            keeps_kind(self@, r),
            r is Err <==> self@.trigger is None,
    {
        match self.take_any_trigger() {
            Err(e) => Err(e),
            Ok((this, t)) => {
                let mut t = t;
                t.detail = t.detail.with_weeks_interval(value);
                Ok(this.put_trigger(t))
            },
        }
    }

    fn detail_days_of_month(self, items: Vec<DayOfMonth>) -> (r: Result<Self, ScheduleError>)
        ensures
            refines(r, self@.set_days_of_month(items@)),
            keeps_kind(self@, r),
            r is Ok <==> self@.trigger is Some && all_valid(items@),
    {
        match self.take_any_trigger() {
            Err(e) => Err(e),
            Ok((this, t)) => match encode(&items) {
                Err(_) => Err(
                    ScheduleError::out_of_range(
                        "Index out of bounds. Days of month must be between 1 and 31 inclusively.",
                    ),
                ),
                Ok(mask) => {
                    let mut t = t;
                    t.detail = t.detail.with_days_of_month(mask);
                    Ok(this.put_trigger(t))
                },
            },
        }
    }

    fn detail_days_of_week(self, items: Vec<DayOfWeek>) -> (r: Result<Self, ScheduleError>)
        ensures
            refines(r, self@.set_days_of_week(items@)),
            keeps_kind(self@, r),
            r is Err <==> self@.trigger is None,
    {
        match self.take_any_trigger() {
            Err(e) => Err(e),
            Ok((this, t)) => {
                assert(all_valid(items@));
                let mask = encode_valid(&items);
                let mut t = t;
                t.detail = t.detail.with_days_of_week(mask);
                Ok(this.put_trigger(t))
            },
        }
    }

    fn detail_months_of_year(self, items: Vec<Month>) -> (r: Result<Self, ScheduleError>)
        ensures
            refines(r, self@.set_months_of_year(items@)),
            keeps_kind(self@, r),
            r is Err <==> self@.trigger is None,
    {
        match self.take_any_trigger() {
            Err(e) => Err(e),
            Ok((this, t)) => {
                assert(all_valid(items@));
                let mask = encode_valid(&items);
                let mut t = t;
                t.detail = t.detail.with_months_of_year(mask);
                Ok(this.put_trigger(t))
            },
        }
    }

    fn detail_weeks_of_month(self, items: Vec<WeekOfMonth>) -> (r: Result<Self, ScheduleError>)
        ensures
            refines(r, self@.set_weeks_of_month(items@)),
            keeps_kind(self@, r),
            r is Err <==> self@.trigger is None,
    {
        match self.take_any_trigger() {
            Err(e) => Err(e),
            Ok((this, t)) => {
                assert(all_valid(items@));
                let mask = encode_valid(&items);
                let mut t = t;
                t.detail = t.detail.with_weeks_of_month(mask);
                Ok(this.put_trigger(t))
            },
        }
    }

    /// Creates the action to execute when the task is run. Actions run in the
    /// order in which they were added.
    pub fn action(self, action: Action) -> (r: Result<Self, ScheduleError>)
        ensures
            refines(r, Ok::<BuilderView, ErrorView>(self@.with_action(action@))),
            keeps_kind(self@, r),
    {
        proof {
            use_type_invariant(&self);
        }
        let mut this = self;
        let mut actions = this.actions;
        proof {
            assert(actions_of(actions@.push(action)) =~= actions_of(actions@).push(action@));
        }
        actions.push(action);
        this.actions = actions;
        Ok(this)
    }

    /// Sets the author for this schedule.
    /// _optional_
    pub fn author(self, author: &str) -> (r: Result<Self, ScheduleError>)
        ensures
            refines(r, Ok::<BuilderView, ErrorView>(self@.with_author(author@))),
            keeps_kind(self@, r),
    {
        proof {
            use_type_invariant(&self);
        }
        let mut this = self;
        this.registration_info.author = Some(String::from_str(author));
        Ok(this)
    }

    /// Returns the schedule.
    ///
    /// Fails with an invalid-operation error when no trigger was created, and
    /// otherwise with a required-property error when the kind of trigger
    /// must name its start and no start boundary was set.
    ///
    /// The handle of the builder goes over to the schedule.
    pub fn build(self) -> (r: Result<Schedule, ScheduleError>)
        ensures
            self@.fits(Frequency::kind()),
            match r {
                Ok(s) => self@.build() == Ok::<ScheduleView, ErrorView>(s@),
                Err(e) => self@.build() == Err::<ScheduleView, ErrorView>(e@),
            },
    {
        proof {
            use_type_invariant(&self);
        }
        match self.trigger {
            None => Err(ScheduleError::invalid_operation("trigger not created")),
            Some(trigger) => {
                if self.force_start_boundary {
                    Err(ScheduleError::required_property("start boundary required"))
                } else {
                    Ok(
                        Schedule::assemble(
                            trigger,
                            self.actions,
                            self.registration_info,
                            self.settings,
                            self.principal,
                            self.com,
                        ),
                    )
                }
            },
        }
    }

    /// Says whether [`build`](Self::build) would succeed, and with which error it
    /// would fail, without giving up the builder.
    pub fn validate(&self) -> (r: Result<(), ScheduleError>)
        ensures
            self@.fits(Frequency::kind()),
            match r {
                Ok(_) => self@.build() is Ok,
                Err(e) => self@.build() == Err::<ScheduleView, ErrorView>(e@),
            },
    {
        proof {
            use_type_invariant(self);
        }
        if self.trigger.is_none() {
            Err(ScheduleError::invalid_operation("trigger not created"))
        } else if self.force_start_boundary {
            Err(ScheduleError::required_property("start boundary required"))
        } else {
            Ok(())
        }
    }

    /// Sets the description for this schedule.
    /// _optional_
    pub fn description(self, description: &str) -> (r: Result<Self, ScheduleError>)
        ensures
            refines(r, Ok::<BuilderView, ErrorView>(self@.with_description(description@))),
            keeps_kind(self@, r),
    {
        proof {
            use_type_invariant(&self);
        }
        let mut this = self;
        this.registration_info.description = Some(String::from_str(description));
        Ok(this)
    }

    /// The amount of time that is allowed to complete the task.
    pub fn execution_time_limit(self, time_limit: Duration) -> (r: Result<Self, ScheduleError>)
        ensures
            refines(r, self@.set_execution_time_limit(time_limit.text())),
            keeps_kind(self@, r),
            r is Err <==> self@.trigger is None,
    {
        match self.take_any_trigger() {
            Err(e) => Err(e),
            Ok((this, t)) => {
                let mut t = t;
                t.execution_time_limit = Some(time_limit.to_string());
                Ok(this.put_trigger(t))
            },
        }
    }

    /// Specifies the date and time when the trigger is activated. This call is required on
    /// Calendar triggers and Time Triggers.
    /// `start_boundary`'s `start` parameter takes a rfc3339 formatted string (ie: 2007-01-01T08:00:00).
    /// The string is stored as it is.
    ///
    /// ## References
    /// <https://docs.microsoft.com/en-us/windows/win32/taskschd/taskschedulerschema-startboundary-triggerbasetype-element>
    /// <https://datatracker.ietf.org/doc/html/rfc3339>
    pub fn start_boundary(self, start: &str) -> (r: Result<Self, ScheduleError>)
        ensures
            refines(r, self@.set_start_boundary(start@)),
            keeps_kind(self@, r),
            r is Err <==> self@.trigger is None,
    {
        match self.take_any_trigger() {
            Err(e) => Err(e),
            Ok((this, t)) => {
                let mut t = t;
                let mut this = this;
                t.start_boundary = Some(String::from_str(start));
                this.force_start_boundary = false;
                Ok(this.put_trigger(t))
            },
        }
    }

    /// Specifies the date and time when the trigger is deactivated. The trigger cannot start the task after it is deactivated.
    /// `end_boundary`'s `end` parameter takes an rfc3339 formatted string (ie: 2007-01-01T08:00:00)
    ///
    /// ## References
    /// <https://docs.microsoft.com/en-us/windows/win32/taskschd/taskschedulerschema-endboundary-triggerbasetype-element>
    /// <https://datatracker.ietf.org/doc/html/rfc3339>
    pub fn end_boundary(self, end: &str) -> (r: Result<Self, ScheduleError>)
        ensures
            refines(r, self@.set_end_boundary(end@)),
            keeps_kind(self@, r),
            r is Err <==> self@.trigger is None,
    {
        match self.take_any_trigger() {
            Err(e) => Err(e),
            Ok((this, t)) => {
                let mut t = t;
                t.end_boundary = Some(String::from_str(end));
                Ok(this.put_trigger(t))
            },
        }
    }

    /// Sets the repetition duration for a task.
    /// If you specify a repetition duration for a task, you must also specify the repetition interval.
    /// If you register a task that contains a trigger with a repetition interval equal to one minute
    /// and a repetition duration equal to four minutes, the task will be launched five times.
    ///
    /// # Parameters
    /// ## duration
    /// How long the pattern is repeated.
    /// The minimum time allowed for a Windows Scheduled Task is one minute.
    ///
    /// ## interval
    /// The amount of time between each restart of the task.
    ///
    /// ## stop_at_duration_end
    /// A Boolean value that indicates if a running instance of the task is stopped at the end of the repetition
    /// pattern duration.
    ///
    /// See <https://docs.microsoft.com/en-us/windows/win32/taskschd/repetitionpattern>
    pub fn repetition(
        self,
        duration: Duration,
        interval: Duration,
        stop_at_duration_end: bool,
    ) -> (r: Result<Self, ScheduleError>)
        ensures
            refines(
                r,
                self@.set_repetition(
                    RepetitionView {
                        duration: duration.text(),
                        interval: interval.text(),
                        stop_at_duration_end,
                    },
                ),
            ),
            keeps_kind(self@, r),
            r is Err <==> self@.trigger is None,
    {
        match self.take_any_trigger() {
            Err(e) => Err(e),
            Ok((this, t)) => {
                let mut t = t;
                t.repetition = Some(
                    Repetition {
                        duration: duration.to_string(),
                        interval: interval.to_string(),
                        stop_at_duration_end,
                    },
                );
                Ok(this.put_trigger(t))
            },
        }
    }

    /// Sets the task's principal
    /// When specifying an account, remember to properly use the double backslash in code to specify the
    /// domain and user name. For example, use DOMAIN\\UserName to specify a value for the UserId property.
    ///
    /// Fails when both a group and a user are named: the two exclude each other.
    ///
    /// # reference
    /// <https://docs.microsoft.com/en-us/windows/win32/taskschd/principal>
    pub fn principal(self, settings: PrincipalSettings) -> (r: Result<Self, ScheduleError>)
        ensures
            refines(r, self@.set_principal(settings)),
            keeps_kind(self@, r),
    {
        proof {
            use_type_invariant(&self);
        }
        if settings.is_exclusive() {
            let mut this = self;
            this.principal = Some(settings);
            Ok(this)
        } else {
            Err(
                ScheduleError::invalid_operation(
                    "Invalid operation: group_id and user_id are mutually exclusive and cannot both be set.",
                ),
            )
        }
    }

    /// Gives the handle of the builder back to the ledger, and says whether
    /// the runtime has to be torn down. The builder, and what it gathered,
    /// is no more.
    pub fn release(self, ledger: &mut RuntimeLedger) -> (r: Result<RuntimeAction, ScheduleError>)
        ensures
            match r {
                Ok(action) => old(ledger)@.release() == Ok::<
                    (RuntimeView, RuntimeAction),
                    ErrorView,
                >((final(ledger)@, action)),
                Err(e) => final(ledger)@ == old(ledger)@ && old(ledger)@.release() == Err::<
                    (RuntimeView, RuntimeAction),
                    ErrorView,
                >(e@),
            },
    {
        ledger.release(self.com)
    }

    /// Sets the Task's settings: every field that `settings` sets overwrites
    /// what was set before, the others stay.
    pub fn settings(self, settings: Settings) -> (r: Result<Self, ScheduleError>)
        ensures
            refines(r, Ok::<BuilderView, ErrorView>(self@.with_settings(settings))),
            keeps_kind(self@, r),
    {
        proof {
            use_type_invariant(&self);
        }
        let ScheduleBuilder {
            frequency,
            com,
            trigger,
            actions,
            force_start_boundary,
            registration_info,
            settings: gathered,
            principal,
        } = self;
        Ok(
            ScheduleBuilder {
                frequency,
                com,
                trigger,
                actions,
                force_start_boundary,
                registration_info,
                settings: gathered.merge(settings),
                principal,
            },
        )
    }
}

/// Copies a list of named values into owned strings.
fn own_queries(queries: &Vec<(&str, &str)>) -> (owned: Vec<(String, String)>)
    ensures
        queries_of(owned@) == pairs_of(queries@),
{
    let mut owned: Vec<(String, String)> = Vec::new();
    let mut i: usize = 0;
    while i < queries.len()
        invariant
            i <= queries.len(),
            owned@.len() == i,
            forall|k: int|
                0 <= k < i ==> (#[trigger] owned@[k]).0@ == queries@[k].0@ && owned@[k].1@
                    == queries@[k].1@,
        decreases queries.len() - i,
    {
        let name = String::from_str(queries[i].0);
        let value = String::from_str(queries[i].1);
        owned.push((name, value));
        i = i + 1;
    }
    assert(queries_of(owned@) =~= pairs_of(queries@));
    owned
}

impl ScheduleBuilder<Boot> {
    /// Create a task that is started when the operating system is booted,
    /// and boot trigger tasks are set to start when the Task Scheduler service starts.
    /// Only a member of the Administrators group can create a task with a boot trigger.
    ///
    /// See <https://docs.microsoft.com/en-us/windows/win32/taskschd/boottrigger>
    ///
    /// Fails when the builder has a trigger already, or when `id` is empty.
    pub fn trigger(self, id: &str, enabled: bool) -> (r: Result<Self, ScheduleError>)
        ensures
            refines(r, self@.create_trigger(TriggerKind::Boot, id@, enabled)),
            keeps_kind(self@, r),
            r is Ok <==> self@.trigger is None && id@.len() > 0,
    {
        self.make_trigger(TriggerKind::Boot, id, enabled)
    }

    /// Specifies the amount of time between the event and the start of the task.
    ///
    /// Fails when the trigger has not been created yet.
    pub fn delay(self, delay: Duration) -> (r: Result<Self, ScheduleError>)
        ensures
            refines(r, self@.set_delay(delay.text())),
            keeps_kind(self@, r),
            r is Err <==> self@.trigger is None,
    {
        self.detail_delay(delay.to_string())
    }
}

impl ScheduleBuilder<Daily> {
    /// Creates a daily trigger
    /// The time of day that the task is started is set by the start_boundary method.
    /// An interval of 1 produces a daily schedule. An interval of 2 produces an every other day schedule and so on.
    ///
    /// Fails when the builder has a trigger already, or when `id` is empty.
    pub fn trigger(self, id: &str, enabled: bool) -> (r: Result<Self, ScheduleError>)
        ensures
            refines(r, self@.create_trigger(TriggerKind::Daily, id@, enabled)),
            keeps_kind(self@, r),
            r is Ok <==> self@.trigger is None && id@.len() > 0,
    {
        self.make_trigger(TriggerKind::Daily, id, enabled)
    }

    /// Sets the interval between the days in the schedule.
    ///
    /// Fails when the trigger has not been created yet.
    pub fn days_interval(self, days: i16) -> (r: Result<Self, ScheduleError>)
        ensures
            refines(r, self@.set_days_interval(days)),
            keeps_kind(self@, r),
            r is Err <==> self@.trigger is None,
    {
        self.detail_days_interval(days)
    }

    /// Specifies a delay time that is randomly added to the start time of the trigger.
    ///
    /// Fails when the trigger has not been created yet.
    pub fn random_delay(self, delay: Duration) -> (r: Result<Self, ScheduleError>)
        ensures
            refines(r, self@.set_random_delay(delay.text())),
            keeps_kind(self@, r),
            r is Err <==> self@.trigger is None,
    {
        self.detail_random_delay(delay.to_string())
    }
}

impl ScheduleBuilder<Event> {
    /// Creates an event trigger.
    ///
    /// Fails when the builder has a trigger already, or when `id` is empty.
    pub fn trigger(self, id: &str, enabled: bool) -> (r: Result<Self, ScheduleError>)
        ensures
            refines(r, self@.create_trigger(TriggerKind::Event, id@, enabled)),
            keeps_kind(self@, r),
            r is Ok <==> self@.trigger is None && id@.len() > 0,
    {
        self.make_trigger(TriggerKind::Event, id, enabled)
    }

    /// Specifies the amount of time between the event and the start of the task.
    ///
    /// Fails when the trigger has not been created yet.
    pub fn delay(self, delay: Duration) -> (r: Result<Self, ScheduleError>)
        ensures
            refines(r, self@.set_delay(delay.text())),
            keeps_kind(self@, r),
            r is Err <==> self@.trigger is None,
    {
        self.detail_delay(delay.to_string())
    }

    /// Sets the query that identifies the event that fires the trigger.
    ///
    /// Fails when the trigger has not been created yet.
    pub fn subscription(self, query: &str) -> (r: Result<Self, ScheduleError>)
        ensures
            refines(r, self@.set_subscription(query@)),
            keeps_kind(self@, r),
            r is Err <==> self@.trigger is None,
    {
        self.detail_subscription(String::from_str(query))
    }

    /// Adds named values: each a name and a query into the event that fired.
    ///
    /// Fails when the trigger has not been created yet.
    pub fn value_queries(self, queries: Vec<(&str, &str)>) -> (r: Result<Self, ScheduleError>)
        ensures
            refines(r, self@.add_value_queries(pairs_of(queries@))),
            keeps_kind(self@, r),
            r is Err <==> self@.trigger is None,
    {
        self.detail_value_queries(own_queries(&queries))
    }
}

impl ScheduleBuilder<Idle> {
    /// Creates an idle trigger.
    /// An idle trigger will only trigger a task action if the computer goes into an idle state after the start boundary of the trigger.
    ///
    /// Fails when the builder has a trigger already, or when `id` is empty.
    pub fn trigger(self, id: &str, enabled: bool) -> (r: Result<Self, ScheduleError>)
        ensures
            refines(r, self@.create_trigger(TriggerKind::Idle, id@, enabled)),
            keeps_kind(self@, r),
            r is Ok <==> self@.trigger is None && id@.len() > 0,
    {
        self.make_trigger(TriggerKind::Idle, id, enabled)
    }
}

impl ScheduleBuilder<Logon> {
    /// Creates a logon trigger.
    ///
    /// Fails when the builder has a trigger already, or when `id` is empty.
    pub fn trigger(self, id: &str, enabled: bool) -> (r: Result<Self, ScheduleError>)
        ensures
            refines(r, self@.create_trigger(TriggerKind::Logon, id@, enabled)),
            keeps_kind(self@, r),
            r is Ok <==> self@.trigger is None && id@.len() > 0,
    {
        self.make_trigger(TriggerKind::Logon, id, enabled)
    }

    /// Specifies the amount of time between the event and the start of the task.
    ///
    /// Fails when the trigger has not been created yet.
    pub fn delay(self, delay: Duration) -> (r: Result<Self, ScheduleError>)
        ensures
            refines(r, self@.set_delay(delay.text())),
            keeps_kind(self@, r),
            r is Err <==> self@.trigger is None,
    {
        self.detail_delay(delay.to_string())
    }

    /// Sets the identifier of the user whose logon fires the trigger.
    ///
    /// Fails when the trigger has not been created yet.
    pub fn user_id(self, id: &str) -> (r: Result<Self, ScheduleError>)
        ensures
            refines(r, self@.set_user_id(id@)),
            keeps_kind(self@, r),
            r is Err <==> self@.trigger is None,
    {
        self.detail_user_id(String::from_str(id))
    }
}

impl ScheduleBuilder<Monthly> {
    /// Creates a monthly trigger.
    ///
    /// Fails when the builder has a trigger already, or when `id` is empty.
    pub fn trigger(self, id: &str, enabled: bool) -> (r: Result<Self, ScheduleError>)
        ensures
            refines(r, self@.create_trigger(TriggerKind::Monthly, id@, enabled)),
            keeps_kind(self@, r),
            r is Ok <==> self@.trigger is None && id@.len() > 0,
    {
        self.make_trigger(TriggerKind::Monthly, id, enabled)
    }

    /// Sets the days of the month during which the task runs.
    ///
    /// Fails with an out-of-range error when a day lies outside 1 to 31.
    /// Fails, before that, when the trigger has not been created yet.
    pub fn days_of_month(self, days: Vec<DayOfMonth>) -> (r: Result<Self, ScheduleError>)
        ensures
            refines(r, self@.set_days_of_month(days@)),
            keeps_kind(self@, r),
            r is Ok <==> self@.trigger is Some && all_valid(days@),
    {
        self.detail_days_of_month(days)
    }

    /// Sets the months of the year during which the task runs.
    ///
    /// Fails when the trigger has not been created yet.
    pub fn months_of_year(self, months: Vec<Month>) -> (r: Result<Self, ScheduleError>)
        ensures
            refines(r, self@.set_months_of_year(months@)),
            keeps_kind(self@, r),
            r is Err <==> self@.trigger is None,
    {
        self.detail_months_of_year(months)
    }

    /// Specifies a delay time that is randomly added to the start time of the trigger.
    ///
    /// Fails when the trigger has not been created yet.
    pub fn random_delay(self, delay: Duration) -> (r: Result<Self, ScheduleError>)
        ensures
            refines(r, self@.set_random_delay(delay.text())),
            keeps_kind(self@, r),
            r is Err <==> self@.trigger is None,
    {
        self.detail_random_delay(delay.to_string())
    }

    /// Sets whether the task runs on the last day of the month.
    ///
    /// Fails when the trigger has not been created yet.
    pub fn run_on_last_day(self, is_run: bool) -> (r: Result<Self, ScheduleError>)
        ensures
            refines(r, self@.set_run_on_last_day(is_run)),
            keeps_kind(self@, r),
            r is Err <==> self@.trigger is None,
    {
        self.detail_run_on_last_day(is_run)
    }
}

impl ScheduleBuilder<MonthlyDOW> {
    /// Creates a monthly day of week trigger.
    ///
    /// Fails when the builder has a trigger already, or when `id` is empty.
    pub fn trigger(self, id: &str, enabled: bool) -> (r: Result<Self, ScheduleError>)
        ensures
            refines(r, self@.create_trigger(TriggerKind::MonthlyDOW, id@, enabled)),
            keeps_kind(self@, r),
            r is Ok <==> self@.trigger is None && id@.len() > 0,
    {
        self.make_trigger(TriggerKind::MonthlyDOW, id, enabled)
    }

    /// Sets the days of the week on which the task runs.
    ///
    /// Fails when the trigger has not been created yet.
    pub fn days_of_week(self, days: Vec<DayOfWeek>) -> (r: Result<Self, ScheduleError>)
        ensures
            refines(r, self@.set_days_of_week(days@)),
            keeps_kind(self@, r),
            r is Err <==> self@.trigger is None,
    {
        self.detail_days_of_week(days)
    }

    /// Sets the months of the year during which the task runs.
    ///
    /// Fails when the trigger has not been created yet.
    pub fn months_of_year(self, months: Vec<Month>) -> (r: Result<Self, ScheduleError>)
        ensures
            refines(r, self@.set_months_of_year(months@)),
            keeps_kind(self@, r),
            r is Err <==> self@.trigger is None,
    {
        self.detail_months_of_year(months)
    }

    /// Specifies a delay time that is randomly added to the start time of the trigger.
    ///
    /// Fails when the trigger has not been created yet.
    pub fn random_delay(self, delay: Duration) -> (r: Result<Self, ScheduleError>)
        ensures
            refines(r, self@.set_random_delay(delay.text())),
            keeps_kind(self@, r),
            r is Err <==> self@.trigger is None,
    {
        self.detail_random_delay(delay.to_string())
    }

    /// Sets whether the task runs in the last week of the month.
    ///
    /// Fails when the trigger has not been created yet.
    pub fn run_on_last_week(self, is_run: bool) -> (r: Result<Self, ScheduleError>)
        ensures
            refines(r, self@.set_run_on_last_week(is_run)),
            keeps_kind(self@, r),
            r is Err <==> self@.trigger is None,
    {
        self.detail_run_on_last_week(is_run)
    }

    /// Sets the weeks of the month during which the task runs.
    ///
    /// Fails when the trigger has not been created yet.
    pub fn weeks_of_month(self, weeks: Vec<WeekOfMonth>) -> (r: Result<Self, ScheduleError>)
        ensures
            refines(r, self@.set_weeks_of_month(weeks@)),
            keeps_kind(self@, r),
            r is Err <==> self@.trigger is None,
    {
        self.detail_weeks_of_month(weeks)
    }
}

impl ScheduleBuilder<Registration> {
    /// Creates a registration trigger.
    ///
    /// Fails when the builder has a trigger already, or when `id` is empty.
    pub fn trigger(self, id: &str, enabled: bool) -> (r: Result<Self, ScheduleError>)
        ensures
            refines(r, self@.create_trigger(TriggerKind::Registration, id@, enabled)),
            keeps_kind(self@, r),
            r is Ok <==> self@.trigger is None && id@.len() > 0,
    {
        self.make_trigger(TriggerKind::Registration, id, enabled)
    }

    /// Specifies the amount of time between the event and the start of the task.
    ///
    /// Fails when the trigger has not been created yet.
    pub fn delay(self, delay: Duration) -> (r: Result<Self, ScheduleError>)
        ensures
            refines(r, self@.set_delay(delay.text())),
            keeps_kind(self@, r),
            r is Err <==> self@.trigger is None,
    {
        self.detail_delay(delay.to_string())
    }
}

impl ScheduleBuilder<Time> {
    /// Creates a time trigger.
    ///
    /// Fails when the builder has a trigger already, or when `id` is empty.
    pub fn trigger(self, id: &str, enabled: bool) -> (r: Result<Self, ScheduleError>)
        ensures
            refines(r, self@.create_trigger(TriggerKind::Time, id@, enabled)),
            keeps_kind(self@, r),
            r is Ok <==> self@.trigger is None && id@.len() > 0,
    {
        self.make_trigger(TriggerKind::Time, id, enabled)
    }

    /// Specifies a delay time that is randomly added to the start time of the trigger.
    ///
    /// Fails when the trigger has not been created yet.
    pub fn random_delay(self, delay: Duration) -> (r: Result<Self, ScheduleError>)
        ensures
            refines(r, self@.set_random_delay(delay.text())),
            keeps_kind(self@, r),
            r is Err <==> self@.trigger is None,
    {
        self.detail_random_delay(delay.to_string())
    }
}

impl ScheduleBuilder<Weekly> {
    /// Creates a weekly trigger.
    ///
    /// Fails when the builder has a trigger already, or when `id` is empty.
    pub fn trigger(self, id: &str, enabled: bool) -> (r: Result<Self, ScheduleError>)
        ensures
            refines(r, self@.create_trigger(TriggerKind::Weekly, id@, enabled)),
            keeps_kind(self@, r),
            r is Ok <==> self@.trigger is None && id@.len() > 0,
    {
        self.make_trigger(TriggerKind::Weekly, id, enabled)
    }

    /// Sets the days of the week on which the task runs.
    ///
    /// Fails when the trigger has not been created yet.
    pub fn days_of_week(self, days: Vec<DayOfWeek>) -> (r: Result<Self, ScheduleError>)
        ensures
            refines(r, self@.set_days_of_week(days@)),
            keeps_kind(self@, r),
            r is Err <==> self@.trigger is None,
    {
        self.detail_days_of_week(days)
    }

    /// Specifies a delay time that is randomly added to the start time of the trigger.
    ///
    /// Fails when the trigger has not been created yet.
    pub fn random_delay(self, delay: Duration) -> (r: Result<Self, ScheduleError>)
        ensures
            refines(r, self@.set_random_delay(delay.text())),
            keeps_kind(self@, r),
            r is Err <==> self@.trigger is None,
    {
        self.detail_random_delay(delay.to_string())
    }

    /// Sets the interval between the weeks in the schedule.
    ///
    /// Fails when the trigger has not been created yet.
    pub fn weeks_interval(self, weeks: i16) -> (r: Result<Self, ScheduleError>)
        ensures
            refines(r, self@.set_weeks_interval(weeks)),
            keeps_kind(self@, r),
            r is Err <==> self@.trigger is None,
    {
        self.detail_weeks_interval(weeks)
    }
}

/* what holds of the builder */

/// A newly created trigger is of the kind it was created for.
pub proof fn lemma_fresh_kind(kind: TriggerKind, id: Seq<char>, enabled: bool)
    ensures
        TriggerView::fresh(kind, id, enabled).kind() == kind,
{
}

/// A schedule has one trigger: on a builder without a trigger, creating one
/// with a non-empty identifier succeeds, and creating a second one then fails
/// with an invalid-operation error.
pub proof fn law_one_trigger(
    b: BuilderView,
    kind: TriggerKind,
    id: Seq<char>,
    enabled: bool,
    kind2: TriggerKind,
    id2: Seq<char>,
    enabled2: bool,
)
    requires
        b.trigger is None,
        id.len() > 0,
    ensures
        b.create_trigger(kind, id, enabled) matches Ok(b1) && b1.trigger == Some(
            TriggerView::fresh(kind, id, enabled),
        ) && b1.create_trigger(kind2, id2, enabled2) == Err::<BuilderView, ErrorView>(
            ErrorView::invalid_operation(trigger_exists_message()),
        ),
{
}

/// Before the trigger is created, every operation that sets a field of the
/// trigger fails with an invalid-operation error.
pub proof fn law_setters_need_trigger(
    b: BuilderView,
    text: Seq<char>,
    number: i16,
    flag: bool,
    queries: Seq<(Seq<char>, Seq<char>)>,
    repetition: RepetitionView,
    days_of_month: Seq<DayOfMonth>,
    days_of_week: Seq<DayOfWeek>,
    months: Seq<Month>,
    weeks: Seq<WeekOfMonth>,
)
    requires
        b.trigger is None,
    ensures
        ({
            let failure = Err::<BuilderView, ErrorView>(
                ErrorView::invalid_operation(trigger_uninitialised_message()),
            );
            &&& b.set_start_boundary(text) == failure
            &&& b.set_end_boundary(text) == failure
            &&& b.set_execution_time_limit(text) == failure
            &&& b.set_repetition(repetition) == failure
            &&& b.set_delay(text) == failure
            &&& b.set_random_delay(text) == failure
            &&& b.set_days_interval(number) == failure
            &&& b.set_weeks_interval(number) == failure
            &&& b.set_subscription(text) == failure
            &&& b.add_value_queries(queries) == failure
            &&& b.set_user_id(text) == failure
            &&& b.set_run_on_last_day(flag) == failure
            &&& b.set_run_on_last_week(flag) == failure
            &&& b.set_days_of_month(days_of_month) == failure
            &&& b.set_days_of_week(days_of_week) == failure
            &&& b.set_months_of_year(months) == failure
            &&& b.set_weeks_of_month(weeks) == failure
        }),
{
}

/// Once the trigger is created, every operation that sets a field of a
/// trigger of that kind succeeds; the days of a month must lie in 1 to 31.
pub proof fn law_setters_after_trigger(
    b: BuilderView,
    kind: TriggerKind,
    id: Seq<char>,
    enabled: bool,
    text: Seq<char>,
    number: i16,
    flag: bool,
    queries: Seq<(Seq<char>, Seq<char>)>,
    repetition: RepetitionView,
    days_of_month: Seq<DayOfMonth>,
    days_of_week: Seq<DayOfWeek>,
    months: Seq<Month>,
    weeks: Seq<WeekOfMonth>,
)
    requires
        b.create_trigger(kind, id, enabled) is Ok,
    ensures
        ({
            let b1 = b.create_trigger(kind, id, enabled)->Ok_0;
            &&& b1.set_start_boundary(text) is Ok
            &&& b1.set_end_boundary(text) is Ok
            &&& b1.set_execution_time_limit(text) is Ok
            &&& b1.set_repetition(repetition) is Ok
            &&& b1.set_delay(text) is Ok
            &&& b1.set_random_delay(text) is Ok
            &&& b1.set_days_interval(number) is Ok
            &&& b1.set_weeks_interval(number) is Ok
            &&& b1.set_subscription(text) is Ok
            &&& b1.add_value_queries(queries) is Ok
            &&& b1.set_user_id(text) is Ok
            &&& b1.set_run_on_last_day(flag) is Ok
            &&& b1.set_run_on_last_week(flag) is Ok
            &&& b1.set_days_of_month(days_of_month) is Ok <==> all_valid(days_of_month)
            &&& b1.set_days_of_week(days_of_week) is Ok
            &&& b1.set_months_of_year(months) is Ok
            &&& b1.set_weeks_of_month(weeks) is Ok
        }),
{
    lemma_fresh_kind(kind, id, enabled);
}

/// For a kind of trigger that must name its start, a builder with a trigger
/// and an action does not build until the start boundary is set: it fails
/// with a required-property error before, and gives the schedule after.
pub proof fn law_start_boundary_owed(
    b: BuilderView,
    kind: TriggerKind,
    id: Seq<char>,
    enabled: bool,
    action: ActionView,
    start: Seq<char>,
)
    requires
        b.trigger is None,
        id.len() > 0,
        kind.needs_start_boundary(),
    ensures
        ({
            let created = b.select(kind).create_trigger(kind, id, enabled);
            &&& created matches Ok(b1)
            &&& b1.with_action(action).build() == Err::<ScheduleView, ErrorView>(
                ErrorView::required_property(start_boundary_required_message()),
            )
            &&& b1.with_action(action).set_start_boundary(start) matches Ok(b2)
            &&& b2.build() matches Ok(schedule)
            &&& schedule.trigger.start_boundary == Some(start)
            &&& schedule.trigger.kind() == kind
            &&& schedule.actions == b.actions.push(action)
        }),
{
    lemma_fresh_kind(kind, id, enabled);
}

/// For a kind of trigger that need not name its start, a builder on which
/// no start boundary is owed builds as soon as the trigger is created.
pub proof fn law_start_boundary_free(b: BuilderView, kind: TriggerKind, id: Seq<char>, enabled: bool)
    requires
        b.trigger is None,
        id.len() > 0,
        !kind.needs_start_boundary(),
        !b.force_start_boundary,
    ensures
        b.select(kind).create_trigger(kind, id, enabled) matches Ok(b1) && b1.build() is Ok,
{
}

/// The handle of the builder goes over to the schedule that is built, and an
/// operation of the builder never changes it.
pub proof fn law_handle_kept(
    b: BuilderView,
    kind: TriggerKind,
    id: Seq<char>,
    enabled: bool,
    text: Seq<char>,
    action: ActionView,
    settings: Settings,
)
    ensures
        b.select(kind).handle == b.handle,
        b.with_action(action).handle == b.handle,
        b.with_author(text).handle == b.handle,
        b.with_description(text).handle == b.handle,
        b.with_settings(settings).handle == b.handle,
        b.create_trigger(kind, id, enabled) matches Ok(next) ==> next.handle == b.handle,
        b.set_start_boundary(text) matches Ok(next) ==> next.handle == b.handle,
        b.set_delay(text) matches Ok(next) ==> next.handle == b.handle,
        b.build() matches Ok(schedule) ==> schedule.handle == b.handle,
{
}

/// A setter fails exactly when the trigger has not been created yet.
pub proof fn law_setters_fail_without_trigger_only(
    b: BuilderView,
    text: Seq<char>,
    number: i16,
    flag: bool,
    queries: Seq<(Seq<char>, Seq<char>)>,
    repetition: RepetitionView,
    days_of_month: Seq<DayOfMonth>,
    days_of_week: Seq<DayOfWeek>,
    months: Seq<Month>,
    weeks: Seq<WeekOfMonth>,
)
    ensures
        b.set_start_boundary(text) is Err <==> b.trigger is None,
        b.set_end_boundary(text) is Err <==> b.trigger is None,
        b.set_execution_time_limit(text) is Err <==> b.trigger is None,
        b.set_repetition(repetition) is Err <==> b.trigger is None,
        b.set_delay(text) is Err <==> b.trigger is None,
        b.set_random_delay(text) is Err <==> b.trigger is None,
        b.set_days_interval(number) is Err <==> b.trigger is None,
        b.set_weeks_interval(number) is Err <==> b.trigger is None,
        b.set_subscription(text) is Err <==> b.trigger is None,
        b.add_value_queries(queries) is Err <==> b.trigger is None,
        b.set_user_id(text) is Err <==> b.trigger is None,
        b.set_run_on_last_day(flag) is Err <==> b.trigger is None,
        b.set_run_on_last_week(flag) is Err <==> b.trigger is None,
        b.set_days_of_week(days_of_week) is Err <==> b.trigger is None,
        b.set_months_of_year(months) is Err <==> b.trigger is None,
        b.set_weeks_of_month(weeks) is Err <==> b.trigger is None,
        b.set_days_of_month(days_of_month) is Err <==> b.trigger is None || !all_valid(
            days_of_month,
        ),
{
}

/// Whether `next` is `b` with nothing changed but the fields of the kind of
/// its trigger: the kind and the identifier of the trigger, the actions and
/// what is owed stay.
pub open spec fn only_detail_changed(b: BuilderView, next: BuilderView) -> bool {
    &&& b.trigger is Some
    &&& next.trigger is Some
    &&& next == b.with_trigger(next.trigger->Some_0)
    &&& next.trigger->Some_0 == b.trigger->Some_0.with_detail(next.trigger->Some_0.detail)
    &&& next.trigger->Some_0.kind() == b.trigger->Some_0.kind()
}

/// A setter of a field of one kind of trigger changes nothing else.
pub proof fn law_setters_keep_the_rest(
    b: BuilderView,
    text: Seq<char>,
    number: i16,
    flag: bool,
    queries: Seq<(Seq<char>, Seq<char>)>,
    days_of_month: Seq<DayOfMonth>,
    days_of_week: Seq<DayOfWeek>,
    months: Seq<Month>,
    weeks: Seq<WeekOfMonth>,
)
    ensures
        b.set_delay(text) matches Ok(next) ==> only_detail_changed(b, next),
        b.set_random_delay(text) matches Ok(next) ==> only_detail_changed(b, next),
        b.set_days_interval(number) matches Ok(next) ==> only_detail_changed(b, next),
        b.set_weeks_interval(number) matches Ok(next) ==> only_detail_changed(b, next),
        b.set_subscription(text) matches Ok(next) ==> only_detail_changed(b, next),
        b.add_value_queries(queries) matches Ok(next) ==> only_detail_changed(b, next),
        b.set_user_id(text) matches Ok(next) ==> only_detail_changed(b, next),
        b.set_run_on_last_day(flag) matches Ok(next) ==> only_detail_changed(b, next),
        b.set_run_on_last_week(flag) matches Ok(next) ==> only_detail_changed(b, next),
        b.set_days_of_month(days_of_month) matches Ok(next) ==> only_detail_changed(b, next),
        b.set_days_of_week(days_of_week) matches Ok(next) ==> only_detail_changed(b, next),
        b.set_months_of_year(months) matches Ok(next) ==> only_detail_changed(b, next),
        b.set_weeks_of_month(weeks) matches Ok(next) ==> only_detail_changed(b, next),
{
}

/// On a weekly trigger the interval of weeks is the one set last, and on a
/// daily trigger the interval of days; the other fields of the kind stay.
pub proof fn law_interval_set(b: BuilderView, number: i16)
    requires
        b.trigger is Some,
    ensures
        b.fits(Some(TriggerKind::Weekly)) ==> (b.set_weeks_interval(number) matches Ok(next)
            && next.fits(Some(TriggerKind::Weekly)) && (next.trigger->Some_0.detail
            matches TriggerDetailView::Weekly { days_of_week, random_delay, weeks_interval }
            && weeks_interval == Some(number) && (b.trigger->Some_0.detail
            matches TriggerDetailView::Weekly {
            days_of_week: days_before,
            random_delay: delay_before,
            ..
        } && days_before == days_of_week && delay_before == random_delay))),
        b.fits(Some(TriggerKind::Daily)) ==> (b.set_days_interval(number) matches Ok(next)
            && next.fits(Some(TriggerKind::Daily)) && (next.trigger->Some_0.detail
            matches TriggerDetailView::Daily { days_interval, random_delay } && days_interval
            == Some(number) && (b.trigger->Some_0.detail matches TriggerDetailView::Daily {
            random_delay: delay_before,
            ..
        } && delay_before == random_delay))),
{
}

/// Without a trigger nothing is built: the failure is an invalid-operation
/// error, whether or not the start boundary is owed.
pub proof fn law_build_needs_trigger(b: BuilderView)
    requires
        b.trigger is None,
    ensures
        b.build() == Err::<ScheduleView, ErrorView>(
            ErrorView::invalid_operation(trigger_not_created_message()),
        ),
{
}

/// The principal is refused, with an invalid-operation error, exactly when
/// it names both a group and a user; otherwise it replaces the one set before.
pub proof fn law_principal_exclusive(b: BuilderView, settings: PrincipalSettings)
    ensures
        b.set_principal(settings) is Err <==> (settings.group_id is Some && settings.user_id
            is Some),
        b.set_principal(settings) matches Err(e) ==> e == ErrorView::invalid_operation(
            principal_message(),
        ),
        b.set_principal(settings) matches Ok(b1) ==> b1 == (BuilderView {
            principal: Some(settings),
            ..b
        }),
{
}

} // verus!
