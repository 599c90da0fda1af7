use crate::bitmask::{flag_bit, CalendarFlag};
use crate::error::{ErrorView, ScheduleError};
use vstd::prelude::*;

verus! {

/// Represents the day of the month.
#[derive(Debug, Clone, Copy, PartialEq, Eq, Structural)]
pub enum DayOfMonth {
    /// Day of the month, between 1 and 31 inclusive.
    Day(i32),
    /// Represents the last day of the month.
    Last,
}

/// The message of the error for a day of the month outside 1 to 31.
pub open spec fn day_out_of_range_message() -> Seq<char> {
    "Index out of bounds. Days of month must be between 1 and 31 inclusively."@
}

impl CalendarFlag for DayOfMonth {
    open spec fn width() -> nat {
        32
    }

    open spec fn valid(&self) -> bool {
        match self {
            DayOfMonth::Day(n) => 1 <= *n <= 31,
            DayOfMonth::Last => true,
        }
    }

    /// Day `n` owns bit `n - 1`; the last day of the month owns the highest bit.
    open spec fn index(&self) -> nat {
        match self {
            DayOfMonth::Day(n) => (*n - 1) as nat,
            DayOfMonth::Last => 31,
        }
    }

    open spec fn from_index(i: nat) -> Self {
        if i < 31 {
            DayOfMonth::Day((i + 1) as i32)
        } else {
            DayOfMonth::Last
        }
    }

    proof fn lemma_width() {
    }

    proof fn lemma_index(x: Self) {
    }

    proof fn lemma_from_index(i: nat) {
    }

    fn flag_width() -> (w: u32) {
        32
    }

    fn bit_index(&self) -> (i: Option<u32>) {
        match self {
            DayOfMonth::Day(n) => {
                if 1 <= *n && *n <= 31 {
                    Some((*n - 1) as u32)
                } else {
                    None
                }
            },
            DayOfMonth::Last => Some(31),
        }
    }

    fn flag_at(i: u32) -> (x: Self) {
        if i < 31 {
            DayOfMonth::Day((i + 1) as i32)
        } else {
            DayOfMonth::Last
        }
    }
}

impl DayOfMonth {
    /// The flag word of one day of the month.
    ///
    /// Day 1 gives bit 0, day 31 gives bit 30, the last day of the month gives
    /// bit 31. Fails with an out-of-range error for a day outside 1 to 31.
    pub fn encode(self) -> (r: Result<u32, ScheduleError>)
        ensures
            match r {
                Ok(mask) => self.valid() && mask == flag_bit(self.index()),
                Err(e) => !self.valid() && e@ == ErrorView::out_of_range(
                    day_out_of_range_message(),
                ),
            },
    {
        match self.bit_index() {
            Some(i) => Ok(1u32 << i),
            None => Err(
                ScheduleError::out_of_range(
                    "Index out of bounds. Days of month must be between 1 and 31 inclusively.",
                ),
            ),
        }
    }
}

/// The bit of the last day of the month is the bit of no numbered day.
pub proof fn law_last_day_disjoint(n: i32)
    requires
        1 <= n <= 31,
    ensures
        flag_bit(DayOfMonth::Last.index()) & flag_bit(DayOfMonth::Day(n).index()) == 0,
        flag_bit(DayOfMonth::Last.index()) == 0x8000_0000u32,
{
    let i: u32 = (n - 1) as u32;
    assert((1u32 << 31u32) & (1u32 << i) == 0 && (1u32 << 31u32) == 0x8000_0000u32)
        by (bit_vector)
        requires
            i < 31,
    ;
}

/// The bits of the first and of the thirty-first day of the month.
pub proof fn law_day_bits()
    ensures
        flag_bit(DayOfMonth::Day(1).index()) == 1,
        flag_bit(DayOfMonth::Day(31).index()) == 0x4000_0000u32,
        !DayOfMonth::Day(0).valid(),
        !DayOfMonth::Day(32).valid(),
{
    assert((1u32 << 0u32) == 1 && (1u32 << 30u32) == 0x4000_0000u32) by (bit_vector);
}

/// The signed 32-bit integer with the same bit pattern as `mask`.
///
/// A task store takes the days of a month as a signed integer, in which the
/// bit of the last day is the sign bit.
pub fn signed_pattern(mask: u32) -> (r: i32)
    ensures
        r == mask as i32,
        mask < 0x8000_0000u32 ==> r == mask,
        mask >= 0x8000_0000u32 ==> r == mask - 0x1_0000_0000,
{
    assert(mask < 0x8000_0000u32 ==> mask as i32 == mask) by (bit_vector);
    assert(mask >= 0x8000_0000u32 ==> mask as i32 == mask - 0x1_0000_0000) by (bit_vector);
    if mask >= 0x8000_0000u32 {
        let low: i32 = (mask - 0x8000_0000u32) as i32;
        low + i32::MIN
    } else {
        mask as i32
    }
}

/// The message of the error for a flag word that does not fit 16 bits.
pub open spec fn short_word_message() -> Seq<char> {
    "The bit mask does not fit the 16 bits of the task store."@
}

/// The signed 16-bit integer with the value of `mask`.
///
/// A task store takes days of the week, weeks of the month and months of the
/// year as signed 16-bit integers. Fails with an out-of-range error when the
/// mask sets a bit above bit 14.
pub fn short_word(mask: u32) -> (r: Result<i16, ScheduleError>)
    ensures
        match r {
            Ok(word) => mask <= 0x7fff && word == mask,
            Err(e) => mask > 0x7fff && e@ == ErrorView::out_of_range(short_word_message()),
        },
{
    if mask <= 0x7fff {
        Ok(mask as i16)
    } else {
        Err(ScheduleError::out_of_range("The bit mask does not fit the 16 bits of the task store."))
    }
}

/// Day of the week.
#[derive(Debug, Clone, Copy, PartialEq, Eq, Structural)]
pub enum DayOfWeek {
    /// Sunday (0x01)
    Sunday,
    /// Monday (0x02)
    Monday,
    /// Tuesday (0x04)
    Tuesday,
    /// Wednesday (0x08)
    Wednesday,
    /// Thursday (0x10)
    Thursday,
    /// Friday (0x20)
    Friday,
    /// Saturday (0x40)
    Saturday,
}

impl CalendarFlag for DayOfWeek {
    open spec fn width() -> nat {
        7
    }

    open spec fn valid(&self) -> bool {
        true
    }

    open spec fn index(&self) -> nat {
        match self {
            DayOfWeek::Sunday => 0,
            DayOfWeek::Monday => 1,
            DayOfWeek::Tuesday => 2,
            DayOfWeek::Wednesday => 3,
            DayOfWeek::Thursday => 4,
            DayOfWeek::Friday => 5,
            DayOfWeek::Saturday => 6,
        }
    }

    open spec fn from_index(i: nat) -> Self {
        if i == 0 {
            DayOfWeek::Sunday
        }         else if i == 1 {
            DayOfWeek::Monday
        }         else if i == 2 {
            DayOfWeek::Tuesday
        }         else if i == 3 {
            DayOfWeek::Wednesday
        }         else if i == 4 {
            DayOfWeek::Thursday
        }         else if i == 5 {
            DayOfWeek::Friday
        } else {
            DayOfWeek::Saturday
        }
    }

    proof fn lemma_width() {
    }

    proof fn lemma_index(x: Self) {
    }

    proof fn lemma_from_index(i: nat) {
    }

    fn flag_width() -> (w: u32) {
        7
    }

    fn bit_index(&self) -> (i: Option<u32>) {
        Some(
            match self {
                DayOfWeek::Sunday => 0,
                DayOfWeek::Monday => 1,
                DayOfWeek::Tuesday => 2,
                DayOfWeek::Wednesday => 3,
                DayOfWeek::Thursday => 4,
                DayOfWeek::Friday => 5,
                DayOfWeek::Saturday => 6,
            },
        )
    }

    fn flag_at(i: u32) -> (x: Self) {
        if i == 0 {
            DayOfWeek::Sunday
        }         else if i == 1 {
            DayOfWeek::Monday
        }         else if i == 2 {
            DayOfWeek::Tuesday
        }         else if i == 3 {
            DayOfWeek::Wednesday
        }         else if i == 4 {
            DayOfWeek::Thursday
        }         else if i == 5 {
            DayOfWeek::Friday
        } else {
            DayOfWeek::Saturday
        }
    }
}

/// Month of the year.
#[derive(Debug, Clone, Copy, PartialEq, Eq, Structural)]
pub enum Month {
    /// January (0x01)
    January,
    /// February (0x02)
    February,
    /// March (0x04)
    March,
    /// April (0x08)
    April,
    /// May (0x10)
    May,
    /// June (0x20)
    June,
    /// July (0x40)
    July,
    /// August (0x80)
    August,
    /// September (0x100)
    September,
    /// October (0x200)
    October,
    /// November (0x400)
    November,
    /// December (0x800)
    December,
}

impl CalendarFlag for Month {
    open spec fn width() -> nat {
        12
    }

    open spec fn valid(&self) -> bool {
        true
    }

    open spec fn index(&self) -> nat {
        match self {
            Month::January => 0,
            Month::February => 1,
            Month::March => 2,
            Month::April => 3,
            Month::May => 4,
            Month::June => 5,
            Month::July => 6,
            Month::August => 7,
            Month::September => 8,
            Month::October => 9,
            Month::November => 10,
            Month::December => 11,
        }
    }

    open spec fn from_index(i: nat) -> Self {
        if i == 0 {
            Month::January
        }         else if i == 1 {
            Month::February
        }         else if i == 2 {
            Month::March
        }         else if i == 3 {
            Month::April
        }         else if i == 4 {
            Month::May
        }         else if i == 5 {
            Month::June
        }         else if i == 6 {
            Month::July
        }         else if i == 7 {
            Month::August
        }         else if i == 8 {
            Month::September
        }         else if i == 9 {
            Month::October
        }         else if i == 10 {
            Month::November
        } else {
            Month::December
        }
    }

    proof fn lemma_width() {
    }

    proof fn lemma_index(x: Self) {
    }

    proof fn lemma_from_index(i: nat) {
    }

    fn flag_width() -> (w: u32) {
        12
    }

    fn bit_index(&self) -> (i: Option<u32>) {
        Some(
            match self {
                Month::January => 0,
                Month::February => 1,
                Month::March => 2,
                Month::April => 3,
                Month::May => 4,
                Month::June => 5,
                Month::July => 6,
                Month::August => 7,
                Month::September => 8,
                Month::October => 9,
                Month::November => 10,
                Month::December => 11,
            },
        )
    }

    fn flag_at(i: u32) -> (x: Self) {
        if i == 0 {
            Month::January
        }         else if i == 1 {
            Month::February
        }         else if i == 2 {
            Month::March
        }         else if i == 3 {
            Month::April
        }         else if i == 4 {
            Month::May
        }         else if i == 5 {
            Month::June
        }         else if i == 6 {
            Month::July
        }         else if i == 7 {
            Month::August
        }         else if i == 8 {
            Month::September
        }         else if i == 9 {
            Month::October
        }         else if i == 10 {
            Month::November
        } else {
            Month::December
        }
    }
}

/// The week of the month
#[derive(Debug, Clone, Copy, PartialEq, Eq, Structural)]
pub enum WeekOfMonth {
    /// First (0x01)
    First,
    /// Second (0x02)
    Second,
    /// Third (0x04)
    Third,
    /// Fourth (0x08)
    Fourth,
}

impl CalendarFlag for WeekOfMonth {
    open spec fn width() -> nat {
        4
    }

    open spec fn valid(&self) -> bool {
        true
    }

    open spec fn index(&self) -> nat {
        match self {
            WeekOfMonth::First => 0,
            WeekOfMonth::Second => 1,
            WeekOfMonth::Third => 2,
            WeekOfMonth::Fourth => 3,
        }
    }

    open spec fn from_index(i: nat) -> Self {
        if i == 0 {
            WeekOfMonth::First
        }         else if i == 1 {
            WeekOfMonth::Second
        }         else if i == 2 {
            WeekOfMonth::Third
        } else {
            WeekOfMonth::Fourth
        }
    }

    proof fn lemma_width() {
    }

    proof fn lemma_index(x: Self) {
    }

    proof fn lemma_from_index(i: nat) {
    }

    fn flag_width() -> (w: u32) {
        4
    }

    fn bit_index(&self) -> (i: Option<u32>) {
        Some(
            match self {
                WeekOfMonth::First => 0,
                WeekOfMonth::Second => 1,
                WeekOfMonth::Third => 2,
                WeekOfMonth::Fourth => 3,
            },
        )
    }

    fn flag_at(i: u32) -> (x: Self) {
        if i == 0 {
            WeekOfMonth::First
        }         else if i == 1 {
            WeekOfMonth::Second
        }         else if i == 2 {
            WeekOfMonth::Third
        } else {
            WeekOfMonth::Fourth
        }
    }
}

/// Task Creation constants
/// see <https://docs.microsoft.com/en-us/windows/win32/api/taskschd/ne-taskschd-task_creation>
#[derive(Debug, Clone, Copy, PartialEq, Eq, Structural)]
pub enum TaskCreationFlags {
    /// The Task Scheduler service registers the task as a new task.
    Create,
    /// The Task Scheduler service either registers the task as a new task or as an updated version
    /// if the task already exists. Equivalent to `TaskCreationFlags.Create | TaskCreationFlags.Update`
    CreateOrUpdate,
    /// The Task Scheduler service registers the disabled task. A disabled task cannot run until it is enabled.
    Disable,
    /// The Task Scheduler service is prevented from adding the allow access-control entry (ACE)
    /// for the context principal. When a schedule is registered with this flag to
    /// update a task, the Task Scheduler service does not add the ACE for the new context principal
    /// and does not remove the ACE from the old context principal.
    DontAddPrincipalAce,
    /// The Task Scheduler service creates the task, but ignores the registration triggers in the task.
    /// By ignoring the registration triggers, the task will not execute when it is registered
    /// unless a time-based trigger causes it to execute on registration.
    IgnoreRegistrationTriggers,
    /// The Task Scheduler service registers the task as an updated version of an existing task.
    /// When a task with a registration trigger is updated, the task will execute after the update occurs.
    Update,
    /// The Task Scheduler service checks the syntax of the XML that describes the task but does not
    /// register the task. This constant cannot be combined with the [Create](TaskCreationFlags::Create),
    /// [Update](TaskCreationFlags::Update), or [CreateOrUpdate](TaskCreationFlags::CreateOrUpdate) values.
    ValidateOnly,
}

impl TaskCreationFlags {
    /// The number that a task store knows the flag by.
    pub open spec fn spec_value(self) -> i32 {
        match self {
            TaskCreationFlags::Create => 2,
            TaskCreationFlags::CreateOrUpdate => 6,
            TaskCreationFlags::Disable => 8,
            TaskCreationFlags::DontAddPrincipalAce => 0x10,
            TaskCreationFlags::IgnoreRegistrationTriggers => 0x20,
            TaskCreationFlags::Update => 4,
            TaskCreationFlags::ValidateOnly => 1,
        }
    }

    /// The number that a task store knows the flag by.
    pub fn value(self) -> (v: i32)
        ensures
            v == self.spec_value(),
    {
        match self {
            TaskCreationFlags::Create => 2,
            TaskCreationFlags::CreateOrUpdate => 6,
            TaskCreationFlags::Disable => 8,
            TaskCreationFlags::DontAddPrincipalAce => 0x10,
            TaskCreationFlags::IgnoreRegistrationTriggers => 0x20,
            TaskCreationFlags::Update => 4,
            TaskCreationFlags::ValidateOnly => 1,
        }
    }
}

impl TaskCreationFlags {
    /// Whether the flag is one of the six that stand for one bit each. The
    /// seventh, `CreateOrUpdate`, is made of two of them.
    pub open spec fn single(self) -> bool {
        self != TaskCreationFlags::CreateOrUpdate
    }
}

/// Each flag but `CreateOrUpdate` has a bit of its own, so the flags can be
/// chosen one by one and combined by bitwise OR; `CreateOrUpdate` is `Create`
/// and `Update` together.
pub proof fn law_flags_disjoint(a: TaskCreationFlags, b: TaskCreationFlags)
    requires
        a.single(),
        b.single(),
        a != b,
    ensures
        a.spec_value() & b.spec_value() == 0,
        a.spec_value() | a.spec_value() == a.spec_value(),
        TaskCreationFlags::CreateOrUpdate.spec_value() == TaskCreationFlags::Create.spec_value()
            | TaskCreationFlags::Update.spec_value(),
{
    let x = a.spec_value();
    let y = b.spec_value();
    assert(x & y == 0 && x | x == x && 6i32 == 2i32 | 4i32) by (bit_vector)
        requires
            x == 1 || x == 2 || x == 4 || x == 8 || x == 0x10 || x == 0x20,
            y == 1 || y == 2 || y == 4 || y == 8 || y == 0x10 || y == 0x20,
            x != y,
    ;
}

/// The bitwise OR of the numbers of a selection of flags, zero when empty.
pub open spec fn combined_flags(flags: Seq<TaskCreationFlags>) -> i32
    decreases flags.len(),
{
    if flags.len() == 0 {
        0
    } else {
        combined_flags(flags.drop_last()) | flags.last().spec_value()
    }
}

/// Combines a selection of creation flags by bitwise OR.
pub fn combine_flags(flags: &Vec<TaskCreationFlags>) -> (v: i32)
    ensures
        v == combined_flags(flags@),
{
    let mut v: i32 = 0;
    let mut k: usize = 0;
    while k < flags.len()
        invariant
            k <= flags.len(),
            v == combined_flags(flags@.take(k as int)),
        decreases flags.len() - k,
    {
        proof {
            assert(flags@.take(k as int + 1).drop_last() =~= flags@.take(k as int));
        }
        v = v | flags[k].value();
        k = k + 1;
    }
    assert(flags@.take(k as int) =~= flags@);
    v
}

} // verus!
