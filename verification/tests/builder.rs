use planif::com::{RuntimeAction, RuntimeLedger};
use planif::enums::{DayOfMonth, DayOfWeek, Month, WeekOfMonth};
use planif::error::{ErrorKind, ScheduleError};
use planif::schedule::{Repetition, Schedule, Trigger, TriggerDetail, TriggerKind};
use planif::schedule_builder::{
    trigger_uninitialised_error, Action, Base, Boot, Daily, Event, Idle, Logon, Monthly, MonthlyDOW,
    Registration, ScheduleBuilder, Time, Weekly,
};
use planif::settings::{
    Compatibility, Duration, IdleSettings, InstancesPolicy, LogonType, NetworkSettings,
    PrincipalSettings, RunLevel, Settings,
};
use planif::task_scheduler::split_task_path;

const UNINITIALISED: &str =
    "Trigger has not been created yet. Consider calling ScheduleBuilder.Trigger()";

fn assert_uninitialised<T>(r: Result<T, ScheduleError>) {
    let e = r.err().unwrap();
    assert_eq!(e.kind(), ErrorKind::InvalidOperation);
    assert_eq!(e.message(), UNINITIALISED);
}

fn builder() -> ScheduleBuilder<Base> {
    let mut ledger = RuntimeLedger::new();
    let (com, _) = ledger.acquire().unwrap();
    ScheduleBuilder::new(&com, &mut ledger).unwrap()
}

fn minutes(n: usize) -> Duration {
    let mut d = Duration::new();
    d.minutes = Some(n);
    d
}

fn principal(group_id: Option<&str>, user_id: Option<&str>) -> PrincipalSettings {
    PrincipalSettings {
        display_name: "Planif".to_string(),
        group_id: group_id.map(|s| s.to_string()),
        id: "MyPrincipalId".to_string(),
        logon_type: LogonType::ServiceAccount,
        run_level: RunLevel::LUA,
        user_id: user_id.map(|s| s.to_string()),
    }
}

#[test]
fn it_works() -> Result<(), ScheduleError> {
    let schedule = builder()
        .create_time()
        .author("Test dummy")?
        .description("Test Time Trigger")?
        .trigger("test_time_trigger", true)?
        .action(Action::new("test_time_action", "notepad.exe", "", ""))?
        .start_boundary("2024-05-01T08:00:10+00:00")?
        .build()?;

    assert_eq!(schedule.registration_info().author.as_deref(), Some("Test dummy"));
    assert_eq!(
        schedule.registration_info().description.as_deref(),
        Some("Test Time Trigger")
    );
    assert_eq!(schedule.trigger().id, "test_time_trigger");
    assert!(schedule.trigger().enabled);
    assert_eq!(schedule.trigger().kind(), TriggerKind::Time);
    assert_eq!(
        schedule.trigger().start_boundary.as_deref(),
        Some("2024-05-01T08:00:10+00:00")
    );
    assert_eq!(
        *schedule.actions(),
        vec![Action::new("test_time_action", "notepad.exe", "", "")]
    );

    assert_eq!(
        split_task_path("\\Test folder\\TimeTaskName"),
        ("\\Test folder", "TimeTaskName")
    );
    Ok(())
}

#[test]
fn new_builder_is_empty_and_does_not_build() {
    let base: ScheduleBuilder<Base> = builder();
    let e = base.build().err().unwrap();
    assert_eq!(e.kind(), ErrorKind::InvalidOperation);
    assert_eq!(e.message(), "trigger not created");
    assert_eq!(e.to_string(), "Invalid Operation Error: trigger not created");
}

#[test]
fn build_without_trigger_fails_before_the_start_boundary_is_asked_for() {
    let e = builder().create_daily().build().err().unwrap();
    assert_eq!(e.kind(), ErrorKind::InvalidOperation);
    assert_eq!(e.message(), "trigger not created");
}

#[test]
fn setter_before_trigger_fails_and_after_succeeds() {
    assert_uninitialised(builder().create_daily().days_interval(1));
    let b = builder()
        .create_daily()
        .trigger("daily", true)
        .unwrap()
        .days_interval(3)
        .unwrap();
    let s = b.start_boundary("2007-01-01T08:00:00").unwrap().build().unwrap();
    assert_eq!(
        s.trigger().detail,
        TriggerDetail::Daily { days_interval: Some(3), random_delay: None }
    );
}

#[test]
fn every_setter_needs_the_trigger() {
    let d = minutes(5);
    assert_uninitialised(builder().create_boot().delay(d));
    assert_uninitialised(builder().create_daily().random_delay(d));
    assert_uninitialised(builder().create_event().delay(d));
    assert_uninitialised(builder().create_event().subscription("q"));
    assert_uninitialised(builder().create_event().value_queries(vec![("a", "b")]));
    assert_uninitialised(builder().create_logon().delay(d));
    assert_uninitialised(builder().create_logon().user_id("u"));
    assert_uninitialised(
        builder().create_monthly().days_of_month(vec![DayOfMonth::Day(1)]),
    );
    assert_uninitialised(
        builder().create_monthly().days_of_month(vec![DayOfMonth::Day(0)]),
    );
    assert_uninitialised(
        builder().create_monthly().months_of_year(vec![Month::May]),
    );
    assert_uninitialised(builder().create_monthly().random_delay(d));
    assert_uninitialised(builder().create_monthly().run_on_last_day(true));
    assert_uninitialised(
        builder().create_monthly_dow().days_of_week(vec![DayOfWeek::Monday]),
    );
    assert_uninitialised(
        builder().create_monthly_dow().months_of_year(vec![Month::May]),
    );
    assert_uninitialised(builder().create_monthly_dow().random_delay(d));
    assert_uninitialised(builder().create_monthly_dow().run_on_last_week(true));
    assert_uninitialised(
        builder().create_monthly_dow().weeks_of_month(vec![WeekOfMonth::First]),
    );
    assert_uninitialised(builder().create_registration().delay(d));
    assert_uninitialised(builder().create_time().random_delay(d));
    assert_uninitialised(
        builder().create_weekly().days_of_week(vec![DayOfWeek::Monday]),
    );
    assert_uninitialised(builder().create_weekly().weeks_interval(2));
    assert_uninitialised(builder().create_weekly().random_delay(d));
    assert_uninitialised(builder().create_idle().start_boundary("x"));
    assert_uninitialised(builder().create_idle().end_boundary("x"));
    assert_uninitialised(builder().create_idle().execution_time_limit(d));
    assert_uninitialised(builder().create_idle().repetition(d, d, true));
    assert_uninitialised(builder().start_boundary("x"));
}

#[test]
fn trigger_uninitialised_error_text() {
    let e = trigger_uninitialised_error();
    assert_eq!(e.kind(), ErrorKind::InvalidOperation);
    assert_eq!(e.message(), UNINITIALISED);
    assert_eq!(e.to_string(), format!("Invalid Operation Error: {}", UNINITIALISED));
    match e {
        ScheduleError::InvalidOperation(inner) => {
            assert_eq!(inner.message, UNINITIALISED);
            assert_eq!(inner.to_string(), format!("Invalid Operation Error: {}", UNINITIALISED));
        }
        _ => panic!("another kind of error"),
    }
}

#[test]
fn daily_needs_a_start_boundary() {
    let b = builder()
        .create_daily()
        .trigger("daily", true)
        .unwrap()
        .action(Action::new("test", "notepad.exe", "", ""))
        .unwrap();
    let e = b.build().err().unwrap();
    assert_eq!(e.kind(), ErrorKind::RequiredProperty);
    assert_eq!(e.message(), "start boundary required");
    assert_eq!(e.to_string(), "Required Property Error: start boundary required");

    let s = builder()
        .create_daily()
        .trigger("daily", true)
        .unwrap()
        .action(Action::new("test", "notepad.exe", "", ""))
        .unwrap()
        .start_boundary("2007-01-01T08:00:00")
        .unwrap()
        .build()
        .unwrap();
    assert!(!s.force_start_boundary());
    assert_eq!(s.trigger().start_boundary.as_deref(), Some("2007-01-01T08:00:00"));
}

#[test]
fn kinds_that_owe_a_start_boundary() {
    fn owed(r: Result<Schedule, ScheduleError>) -> bool {
        match r {
            Ok(_) => false,
            Err(e) => {
                assert_eq!(e.kind(), ErrorKind::RequiredProperty);
                true
            }
        }
    }
    let b = builder;
    assert!(!owed(b().create_boot().trigger("t", true).unwrap().build()));
    assert!(owed(b().create_daily().trigger("t", true).unwrap().build()));
    assert!(owed(b().create_event().trigger("t", true).unwrap().build()));
    assert!(!owed(b().create_idle().trigger("t", true).unwrap().build()));
    assert!(!owed(b().create_logon().trigger("t", true).unwrap().build()));
    assert!(owed(b().create_monthly().trigger("t", true).unwrap().build()));
    assert!(owed(b().create_monthly_dow().trigger("t", true).unwrap().build()));
    assert!(!owed(b().create_registration().trigger("t", true).unwrap().build()));
    assert!(owed(b().create_time().trigger("t", true).unwrap().build()));
    assert!(!owed(b().create_weekly().trigger("t", true).unwrap().build()));
}

#[test]
fn start_boundary_is_stored_verbatim() {
    let s = builder()
        .create_weekly()
        .trigger("w", false)
        .unwrap()
        .start_boundary("  not a time, kept as it is +02:00 ")
        .unwrap()
        .start_boundary("2007-01-01T08:00:00-05:00")
        .unwrap()
        .build()
        .unwrap();
    assert_eq!(s.trigger().start_boundary.as_deref(), Some("2007-01-01T08:00:00-05:00"));
    assert!(!s.trigger().enabled);
}

#[test]
fn only_one_trigger() {
    let b = builder().create_boot().trigger("first", true).unwrap();
    let e = b.trigger("second", true).err().unwrap();
    assert_eq!(e.kind(), ErrorKind::InvalidOperation);
    assert_eq!(
        e.message(),
        "A trigger has already been created. A schedule has one trigger only."
    );
}

#[test]
fn trigger_needs_an_identifier() {
    let e = builder().create_boot().trigger("", true).err().unwrap();
    assert_eq!(e.kind(), ErrorKind::InvalidOperation);
    assert_eq!(e.message(), "The identifier of a trigger must not be empty.");
}

#[test]
fn principal_excludes_group_and_user_together() {
    let e = builder()
        .create_boot()
        .principal(principal(Some("group"), Some("user")))
        .err()
        .unwrap();
    assert_eq!(e.kind(), ErrorKind::InvalidOperation);
    assert_eq!(
        e.message(),
        "Invalid operation: group_id and user_id are mutually exclusive and cannot both be set."
    );

    for (g, u) in [(Some("group"), None), (None, Some("user")), (None, None)] {
        let s = builder()
            .create_boot()
            .principal(principal(g, u))
            .unwrap()
            .trigger("t", true)
            .unwrap()
            .build()
            .unwrap();
        assert_eq!(*s.principal(), Some(principal(g, u)));
    }
}

#[test]
fn principal_last_write_wins() {
    let s = builder()
        .create_idle()
        .principal(principal(Some("group"), None))
        .unwrap()
        .principal(principal(None, Some("user")))
        .unwrap()
        .trigger("t", true)
        .unwrap()
        .build()
        .unwrap();
    assert_eq!(*s.principal(), Some(principal(None, Some("user"))));
}

#[test]
fn actions_keep_their_order() {
    let s = builder()
        .create_boot()
        .action(Action::new("one", "a.exe", "C:\\", "-x"))
        .unwrap()
        .trigger("t", true)
        .unwrap()
        .action(Action::new("two", "b.exe", "", ""))
        .unwrap()
        .action(Action::new("one", "a.exe", "C:\\", "-x"))
        .unwrap()
        .build()
        .unwrap();
    assert_eq!(s.actions().len(), 3);
    assert_eq!(s.actions()[0].id, "one");
    assert_eq!(s.actions()[0].path, "a.exe");
    assert_eq!(s.actions()[0].working_dir, "C:\\");
    assert_eq!(s.actions()[0].args, "-x");
    assert_eq!(s.actions()[1].id, "two");
    assert_eq!(s.actions()[2], s.actions()[0]);
}

#[test]
fn boot_schedule() {
    let mut delay = Duration::new();
    delay.seconds = Some(2);
    delay.days = Some(5);
    let s = builder()
        .create_boot()
        .trigger("MyTrigger", true)
        .unwrap()
        .delay(delay)
        .unwrap()
        .build()
        .unwrap();
    let _typed: ScheduleBuilder<Boot> = builder().create_boot();
    assert_eq!(
        *s.trigger(),
        Trigger {
            id: "MyTrigger".to_string(),
            enabled: true,
            start_boundary: None,
            end_boundary: None,
            execution_time_limit: None,
            repetition: None,
            detail: TriggerDetail::Boot { delay: Some("P5DT2S".to_string()) },
        }
    );
    assert!(s.actions().is_empty());
    assert_eq!(*s.settings(), Settings::new());
    assert_eq!(*s.principal(), None);
    assert_eq!(s.registration_info().author, None);
}

#[test]
fn daily_schedule() {
    let mut limit = Duration::new();
    limit.hours = Some(1);
    let b: ScheduleBuilder<Daily> = builder().create_daily();
    let s = b
        .trigger("d", true)
        .unwrap()
        .days_interval(1)
        .unwrap()
        .days_interval(2)
        .unwrap()
        .random_delay(minutes(30))
        .unwrap()
        .end_boundary("2030-01-01T00:00:00")
        .unwrap()
        .execution_time_limit(limit)
        .unwrap()
        .repetition(minutes(5), limit, true)
        .unwrap()
        .start_boundary("2007-01-01T08:00:00")
        .unwrap()
        .build()
        .unwrap();
    assert_eq!(
        s.trigger().detail,
        TriggerDetail::Daily { days_interval: Some(2), random_delay: Some("PT30M".to_string()) }
    );
    assert_eq!(s.trigger().end_boundary.as_deref(), Some("2030-01-01T00:00:00"));
    assert_eq!(s.trigger().execution_time_limit.as_deref(), Some("PT1H"));
    assert_eq!(
        s.trigger().repetition,
        Some(Repetition {
            duration: "PT5M".to_string(),
            interval: "PT1H".to_string(),
            stop_at_duration_end: true,
        })
    );
}

#[test]
fn event_schedule() {
    let b: ScheduleBuilder<Event> = builder().create_event();
    let s = b
        .trigger("e", true)
        .unwrap()
        .subscription("<QueryList/>")
        .unwrap()
        .value_queries(vec![("name", "Event/System/Name"), ("id", "Event/System/Id")])
        .unwrap()
        .value_queries(vec![])
        .unwrap()
        .value_queries(vec![("level", "Event/System/Level")])
        .unwrap()
        .delay(minutes(1))
        .unwrap()
        .start_boundary("2007-01-01T08:00:00")
        .unwrap()
        .build()
        .unwrap();
    assert_eq!(
        s.trigger().detail,
        TriggerDetail::Event {
            delay: Some("PT1M".to_string()),
            subscription: Some("<QueryList/>".to_string()),
            value_queries: vec![
                ("name".to_string(), "Event/System/Name".to_string()),
                ("id".to_string(), "Event/System/Id".to_string()),
                ("level".to_string(), "Event/System/Level".to_string()),
            ],
        }
    );
}

#[test]
fn idle_and_registration_and_time_schedules() {
    let idle: ScheduleBuilder<Idle> = builder().create_idle();
    let s = idle.trigger("i", true).unwrap().build().unwrap();
    assert_eq!(s.trigger().detail, TriggerDetail::Idle);
    assert_eq!(s.trigger().kind(), TriggerKind::Idle);

    let registration: ScheduleBuilder<Registration> = builder().create_registration();
    let s = registration
        .trigger("r", true)
        .unwrap()
        .delay(minutes(2))
        .unwrap()
        .build()
        .unwrap();
    assert_eq!(s.trigger().detail, TriggerDetail::Registration { delay: Some("PT2M".to_string()) });

    let time: ScheduleBuilder<Time> = builder().create_time();
    let s = time
        .trigger("t", true)
        .unwrap()
        .random_delay(minutes(3))
        .unwrap()
        .start_boundary("2007-01-01T08:00:00")
        .unwrap()
        .build()
        .unwrap();
    assert_eq!(s.trigger().detail, TriggerDetail::Time { random_delay: Some("PT3M".to_string()) });
}

#[test]
fn logon_schedule() {
    let b: ScheduleBuilder<Logon> = builder().create_logon();
    let s = b
        .trigger("l", true)
        .unwrap()
        .user_id("DOMAIN\\UserName")
        .unwrap()
        .delay(minutes(4))
        .unwrap()
        .build()
        .unwrap();
    assert_eq!(
        s.trigger().detail,
        TriggerDetail::Logon {
            delay: Some("PT4M".to_string()),
            user_id: Some("DOMAIN\\UserName".to_string()),
        }
    );
}

#[test]
fn monthly_schedule() {
    let b: ScheduleBuilder<Monthly> = builder().create_monthly();
    let s = b
        .trigger("MyTrigger", true)
        .unwrap()
        .days_of_month(vec![DayOfMonth::Day(1), DayOfMonth::Day(15)])
        .unwrap()
        .months_of_year(vec![Month::December])
        .unwrap()
        .run_on_last_day(true)
        .unwrap()
        .random_delay(minutes(1))
        .unwrap()
        .start_boundary("2007-01-01T08:00:00")
        .unwrap()
        .build()
        .unwrap();
    assert_eq!(
        s.trigger().detail,
        TriggerDetail::Monthly {
            days_of_month: Some(0x4001),
            months_of_year: Some(0x800),
            random_delay: Some("PT1M".to_string()),
            run_on_last_day: Some(true),
        }
    );
}

#[test]
fn monthly_days_with_last_and_duplicates() {
    let s = builder()
        .create_monthly()
        .trigger("m", true)
        .unwrap()
        .days_of_month(vec![
            DayOfMonth::Day(31),
            DayOfMonth::Last,
            DayOfMonth::Day(31),
            DayOfMonth::Day(1),
        ])
        .unwrap()
        .start_boundary("2007-01-01T08:00:00")
        .unwrap()
        .build()
        .unwrap();
    match &s.trigger().detail {
        TriggerDetail::Monthly { days_of_month, .. } => {
            assert_eq!(*days_of_month, Some(0x8000_0000 | 0x4000_0000 | 1));
        }
        _ => panic!("another kind of trigger"),
    }
}

#[test]
fn monthly_days_out_of_range() {
    for bad in [0, 32, -5] {
        let e = builder()
            .create_monthly()
            .trigger("m", true)
            .unwrap()
            .days_of_month(vec![DayOfMonth::Day(1), DayOfMonth::Day(bad)])
            .err()
            .unwrap();
        assert_eq!(e.kind(), ErrorKind::OutOfRange);
        assert_eq!(
            e.message(),
            "Index out of bounds. Days of month must be between 1 and 31 inclusively."
        );
    }
}

#[test]
fn monthly_dow_schedule() {
    let b: ScheduleBuilder<MonthlyDOW> = builder().create_monthly_dow();
    let s = b
        .trigger("m", true)
        .unwrap()
        .days_of_week(vec![DayOfWeek::Sunday, DayOfWeek::Thursday])
        .unwrap()
        .months_of_year(vec![Month::January, Month::February])
        .unwrap()
        .weeks_of_month(vec![WeekOfMonth::First, WeekOfMonth::Third])
        .unwrap()
        .run_on_last_week(false)
        .unwrap()
        .random_delay(minutes(9))
        .unwrap()
        .start_boundary("2007-01-01T08:00:00")
        .unwrap()
        .build()
        .unwrap();
    assert_eq!(
        s.trigger().detail,
        TriggerDetail::MonthlyDOW {
            days_of_week: Some(0x11),
            months_of_year: Some(0x3),
            random_delay: Some("PT9M".to_string()),
            run_on_last_week: Some(false),
            weeks_of_month: Some(0x5),
        }
    );
}

#[test]
fn weekly_schedule() {
    let b: ScheduleBuilder<Weekly> = builder().create_weekly();
    let s = b
        .trigger("w", true)
        .unwrap()
        .days_of_week(vec![DayOfWeek::Monday, DayOfWeek::Wednesday, DayOfWeek::Friday])
        .unwrap()
        .weeks_interval(2)
        .unwrap()
        .random_delay(minutes(7))
        .unwrap()
        .build()
        .unwrap();
    assert_eq!(
        s.trigger().detail,
        TriggerDetail::Weekly {
            days_of_week: Some(0x2a),
            random_delay: Some("PT7M".to_string()),
            weeks_interval: Some(2),
        }
    );
}

#[test]
fn empty_calendar_set_is_zero() {
    let s = builder()
        .create_weekly()
        .trigger("w", true)
        .unwrap()
        .days_of_week(vec![DayOfWeek::Monday])
        .unwrap()
        .days_of_week(vec![])
        .unwrap()
        .build()
        .unwrap();
    match &s.trigger().detail {
        TriggerDetail::Weekly { days_of_week, .. } => assert_eq!(*days_of_week, Some(0)),
        _ => panic!("another kind of trigger"),
    }
}

#[test]
fn settings_are_laid_over_each_other() {
    let mut first = Settings::new();
    first.run_only_if_idle = Some(true);
    first.priority = Some(4);
    first.execution_time_limit = Some("PT1H".to_string());
    first.compatibility = Some(Compatibility::V1);
    let mut idle = IdleSettings::new();
    idle.restart_on_idle = Some(true);
    idle.idle_duration = Some("PT10M".to_string());
    first.idle_settings = Some(idle);
    first.network_settings =
        Some(NetworkSettings { id: "id-1".to_string(), name: "first".to_string() });

    let mut second = Settings::new();
    second.priority = Some(7);
    second.hidden = Some(false);
    second.multiple_instances_policy = Some(InstancesPolicy::Queue);
    let mut idle = IdleSettings::new();
    idle.restart_on_idle = Some(false);
    idle.stop_on_idle_end = Some(true);
    second.idle_settings = Some(idle);
    second.network_settings =
        Some(NetworkSettings { id: "id-2".to_string(), name: "second".to_string() });

    let s = builder()
        .create_boot()
        .settings(first)
        .unwrap()
        .trigger("t", true)
        .unwrap()
        .settings(second)
        .unwrap()
        .settings(Settings::new())
        .unwrap()
        .build()
        .unwrap();

    let mut expected = Settings::new();
    expected.run_only_if_idle = Some(true);
    expected.priority = Some(7);
    expected.execution_time_limit = Some("PT1H".to_string());
    expected.compatibility = Some(Compatibility::V1);
    expected.hidden = Some(false);
    expected.multiple_instances_policy = Some(InstancesPolicy::Queue);
    expected.idle_settings = Some(IdleSettings {
        idle_duration: Some("PT10M".to_string()),
        restart_on_idle: Some(false),
        stop_on_idle_end: Some(true),
        wait_timeout: None,
    });
    expected.network_settings =
        Some(NetworkSettings { id: "id-2".to_string(), name: "second".to_string() });
    assert_eq!(*s.settings(), expected);
}

#[test]
fn author_and_description_last_write_wins() {
    let s = builder()
        .author("Alice")
        .unwrap()
        .create_idle()
        .description("first")
        .unwrap()
        .trigger("t", true)
        .unwrap()
        .author("Bob")
        .unwrap()
        .description("This is my trigger")
        .unwrap()
        .build()
        .unwrap();
    assert_eq!(s.registration_info().author.as_deref(), Some("Bob"));
    assert_eq!(s.registration_info().description.as_deref(), Some("This is my trigger"));
}

#[test]
fn registered_schedule_keeps_what_it_holds() {
    let s = builder()
        .create_boot()
        .trigger("t", true)
        .unwrap()
        .action(Action::new("a", "b", "c", "d"))
        .unwrap()
        .build()
        .unwrap();
    let trigger = s.trigger().clone();
    let r = s.registered();
    assert_eq!(*r.trigger(), trigger);
    assert_eq!(*r.actions(), vec![Action::new("a", "b", "c", "d")]);
    assert!(!r.force_start_boundary());
}

#[test]
fn setting_values() {
    assert_eq!(Compatibility::AT.value(), 0);
    assert_eq!(Compatibility::V1.value(), 1);
    assert_eq!(Compatibility::V2.value(), 2);
    assert_eq!(InstancesPolicy::Parallel.value(), 0);
    assert_eq!(InstancesPolicy::Queue.value(), 1);
    assert_eq!(InstancesPolicy::IgnoreNew.value(), 2);
    assert_eq!(InstancesPolicy::StopExisting.value(), 3);
    assert_eq!(LogonType::Unspecified.value(), 0);
    assert_eq!(LogonType::Password.value(), 1);
    assert_eq!(LogonType::S4U.value(), 2);
    assert_eq!(LogonType::InteractiveToken.value(), 3);
    assert_eq!(LogonType::Group.value(), 4);
    assert_eq!(LogonType::ServiceAccount.value(), 5);
    assert_eq!(LogonType::InteractiveTokenOrPassword.value(), 6);
    assert_eq!(RunLevel::LUA.value(), 0);
    assert_eq!(RunLevel::Highest.value(), 1);
}

#[test]
fn new_settings_are_unset() {
    let s = Settings::new();
    assert!(s.allow_demand_start.is_none());
    assert!(s.idle_settings.is_none());
    assert!(s.xml_text.is_none());
    let i = IdleSettings::new();
    assert_eq!(
        i,
        IdleSettings {
            idle_duration: None,
            restart_on_idle: None,
            stop_on_idle_end: None,
            wait_timeout: None,
        }
    );
    assert!(principal(None, None).is_exclusive());
    assert!(!principal(Some("g"), Some("u")).is_exclusive());
}

#[test]
fn validate_says_what_build_would_do() {
    let b = builder().create_time();
    let e = b.validate().err().unwrap();
    assert_eq!(e.kind(), ErrorKind::InvalidOperation);
    assert_eq!(e.message(), "trigger not created");

    let b = b.trigger("t", true).unwrap();
    let e = b.validate().err().unwrap();
    assert_eq!(e.kind(), ErrorKind::RequiredProperty);
    assert_eq!(e.message(), "start boundary required");

    let b = b.start_boundary("2007-01-01T08:00:00").unwrap();
    assert!(b.validate().is_ok());
    assert!(b.build().is_ok());
}

#[test]
fn a_builder_holds_a_handle_of_its_own() {
    let mut ledger = RuntimeLedger::new();
    let (com, action) = ledger.acquire().unwrap();
    assert_eq!(action, RuntimeAction::Initialize);
    assert_eq!(ledger.handles(), 1);

    let first = ScheduleBuilder::new(&com, &mut ledger).unwrap();
    assert_eq!(ledger.handles(), 2);
    let second = ScheduleBuilder::new(&com, &mut ledger).unwrap();
    assert_eq!(ledger.handles(), 3);

    assert_eq!(second.release(&mut ledger).unwrap(), RuntimeAction::Nothing);
    assert_eq!(ledger.handles(), 2);

    let schedule = first.create_boot().trigger("t", true).unwrap().build().unwrap();
    assert_eq!(ledger.handles(), 2);
    let registered = schedule.registered();
    assert_eq!(ledger.handles(), 2);
    assert_eq!(registered.release(&mut ledger).unwrap(), RuntimeAction::Nothing);
    assert_eq!(ledger.handles(), 1);
    assert!(ledger.is_live());

    assert_eq!(ledger.release(com).unwrap(), RuntimeAction::Teardown);
    assert!(!ledger.is_live());
}

#[test]
fn the_last_handle_may_be_that_of_a_schedule() {
    let mut ledger = RuntimeLedger::new();
    let (com, _) = ledger.acquire().unwrap();
    let b = ScheduleBuilder::new(&com, &mut ledger).unwrap();
    assert_eq!(ledger.release(com).unwrap(), RuntimeAction::Nothing);
    assert!(ledger.is_live());
    let schedule = b.create_idle().trigger("t", true).unwrap().build().unwrap();
    assert_eq!(schedule.release(&mut ledger).unwrap(), RuntimeAction::Teardown);
    assert!(!ledger.is_live());
}

#[test]
fn no_builder_without_a_live_runtime() {
    let mut ledger = RuntimeLedger::new();
    let (com, _) = ledger.acquire().unwrap();
    let mut other = RuntimeLedger::new();
    let e = ScheduleBuilder::new(&com, &mut other).err().unwrap();
    assert_eq!(e.kind(), ErrorKind::InvalidOperation);
    assert_eq!(e.message(), "No handle to the runtime is live.");
    assert_eq!(other.handles(), 0);
    assert_eq!(ledger.handles(), 1);
}
