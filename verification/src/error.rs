//! What can be wrong with a configuration.

use vstd::prelude::*;
use vstd::string::*;

verus! {

/// The two parts of a clock time.
#[derive(Clone, Copy, Debug, PartialEq, Eq, Structural)]
pub enum UnitTime {
    Hour,
    Minute,
}

impl UnitTime {
    /// The first value that is too large for this part.
    pub open spec fn spec_limit(self) -> u32 {
        match self {
            UnitTime::Hour => 24,
            UnitTime::Minute => 60,
        }
    }

    /// The first value that is too large for this part.
    #[verifier::when_used_as_spec(spec_limit)]
    pub fn limit(self) -> (r: u32)
        ensures
            r == self.spec_limit(),
    {
        match self {
            UnitTime::Hour => 24,
            UnitTime::Minute => 60,
        }
    }
}

/// The settings that a configuration source provides.
#[derive(Clone, Copy, Debug, PartialEq, Eq, Structural)]
pub enum Field {
    Keyword,
    Email,
    Time,
    Weekday,
    Id,
    Password,
}

/// The ways in which a clock time can be malformed.
#[derive(Clone, Copy, Debug, PartialEq, Eq, Structural)]
pub enum TimeFault {
    /// There is no `:` between hour and minute.
    MissingSplicer,
    /// The part is not an unsigned number.
    NotANumber(UnitTime),
    /// The part is a number outside its range.
    OutOfRange(UnitTime),
}

/// A clock time that is not of the form `HH:MM` with `HH` below 24 and `MM`
/// below 60.
#[derive(Debug)]
pub struct TimeFormatException {
    pub fault: TimeFault,
    /// The offending text: the whole time where the `:` is missing, the part
    /// where it is no number, the number itself where it is out of range.
    pub value: String,
}

/// The mathematical content of a `TimeFormatException`.
pub struct TimeFormatView {
    pub fault: TimeFault,
    pub value: Seq<char>,
}

impl View for TimeFormatException {
    type V = TimeFormatView;

    open spec fn view(&self) -> TimeFormatView {
        TimeFormatView { fault: self.fault, value: self.value@ }
    }
}

/// A weekday that is none of `Mon`, `Tue`, `Wed`, `Thu`, `Fri`, `Sat`, `Sun`.
#[derive(Debug)]
pub struct WeekdayException {
    pub value: String,
}

impl View for WeekdayException {
    type V = Seq<char>;

    open spec fn view(&self) -> Seq<char> {
        self.value@
    }
}

/// The sender's credentials that are missing.
#[derive(Clone, Copy, Debug, PartialEq, Eq, Structural)]
pub struct ProfileException {
    pub id_empty: bool,
    pub password_empty: bool,
}

/// Why a configuration was turned down.
#[derive(Debug)]
pub enum SettingsError {
    /// The source does not provide the setting in the expected shape.
    Unreadable(Field),
    TimeFormat(TimeFormatException),
    Weekday(WeekdayException),
    Profile(ProfileException),
}

/// The mathematical content of a `SettingsError`.
pub enum SettingsErrorView {
    Unreadable(Field),
    TimeFormat(TimeFormatView),
    Weekday(Seq<char>),
    Profile(ProfileException),
}

impl View for SettingsError {
    type V = SettingsErrorView;

    open spec fn view(&self) -> SettingsErrorView {
        match self {
            SettingsError::Unreadable(f) => SettingsErrorView::Unreadable(*f),
            SettingsError::TimeFormat(e) => SettingsErrorView::TimeFormat(e@),
            SettingsError::Weekday(e) => SettingsErrorView::Weekday(e@),
            SettingsError::Profile(e) => SettingsErrorView::Profile(*e),
        }
    }
}

/// What a fault of a clock time asks the reader to do.
pub open spec fn fault_text(fault: TimeFault) -> Seq<char> {
    match fault {
        TimeFault::MissingSplicer => "Missing splicer ':' in the time format."@,
        TimeFault::NotANumber(UnitTime::Hour) => "Set 'HH' to an unsigned number"@,
        TimeFault::NotANumber(UnitTime::Minute) => "Set 'MM' to an unsigned number"@,
        TimeFault::OutOfRange(UnitTime::Hour) => "Set hour between 0 <= 'HH' < 24"@,
        TimeFault::OutOfRange(UnitTime::Minute) => "Set minute between 0 <= 'MM' < 60"@,
    }
}

/// The report of a malformed clock time.
pub open spec fn time_message(e: TimeFormatView) -> Seq<char> {
    "\n\t"@ + fault_text(e.fault) + "\n\ttime = "@ + e.value
        + " is not a valid time format.\n\ttime = 'HH:MM' is the valid format."@
}

/// The report of an unknown weekday.
pub open spec fn weekday_message(value: Seq<char>) -> Seq<char> {
    "\n\tweekday = '"@ + value
        + "' is not a valid weekday format.\nChoose from\n\t'Mon'\n\t'Tue'\n\t'Wed'\n\t'Thu'\n\t'Fri'\n\t'Sat'\n\t'Sun'\n"@
}

/// The report of missing credentials.
pub open spec fn profile_message() -> Seq<char> {
    "\n\tEmail ID / Password field is empty."@
}

/// The report of a setting that the source does not provide.
pub open spec fn unreadable_message(field: Field) -> Seq<char> {
    match field {
        Field::Keyword => "\n\tdefault.keyword is missing or is no list of strings."@,
        Field::Email => "\n\tdefault.email is missing or is no string."@,
        Field::Time => "\n\tdefault.time is missing or is no string."@,
        Field::Weekday => "\n\tdefault.weekday is missing or is no string."@,
        Field::Id => "\n\tprofile.id is missing or is no string."@,
        Field::Password => "\n\tprofile.password is missing or is no string."@,
    }
}

/// The report of a configuration that was turned down.
pub open spec fn settings_message(e: SettingsErrorView) -> Seq<char> {
    match e {
        SettingsErrorView::Unreadable(f) => unreadable_message(f),
        SettingsErrorView::TimeFormat(t) => time_message(t),
        SettingsErrorView::Weekday(w) => weekday_message(w),
        SettingsErrorView::Profile(_) => profile_message(),
    }
}

impl TimeFormatException {
    /// The report for the reader of the log.
    pub fn message(&self) -> (r: String)
        ensures
            r@ == time_message(self@),
    {
        let text = match self.fault {
            TimeFault::MissingSplicer => "Missing splicer ':' in the time format.",
            TimeFault::NotANumber(UnitTime::Hour) => "Set 'HH' to an unsigned number",
            TimeFault::NotANumber(UnitTime::Minute) => "Set 'MM' to an unsigned number",
            TimeFault::OutOfRange(UnitTime::Hour) => "Set hour between 0 <= 'HH' < 24",
            TimeFault::OutOfRange(UnitTime::Minute) => "Set minute between 0 <= 'MM' < 60",
        };
        let mut r = String::from_str("\n\t");
        r.append(text);
        r.append("\n\ttime = ");
        r.append(self.value.as_str());
        r.append(" is not a valid time format.\n\ttime = 'HH:MM' is the valid format.");
        r
    }
}

impl WeekdayException {
    /// The report for the reader of the log.
    pub fn message(&self) -> (r: String)
        ensures
            r@ == weekday_message(self@),
    {
        let mut r = String::from_str("\n\tweekday = '");
        r.append(self.value.as_str());
        r.append(
            "' is not a valid weekday format.\nChoose from\n\t'Mon'\n\t'Tue'\n\t'Wed'\n\t'Thu'\n\t'Fri'\n\t'Sat'\n\t'Sun'\n",
        );
        r
    }
}

impl ProfileException {
    /// The report for the reader of the log.
    pub fn message(&self) -> (r: String)
        ensures
            r@ == profile_message(),
    {
        String::from_str("\n\tEmail ID / Password field is empty.")
    }
}

impl SettingsError {
    /// The report for the reader of the log.
    pub fn message(&self) -> (r: String)
        ensures
            r@ == settings_message(self@),
    {
        match self {
            SettingsError::Unreadable(f) => String::from_str(
                match f {
                    Field::Keyword => "\n\tdefault.keyword is missing or is no list of strings.",
                    Field::Email => "\n\tdefault.email is missing or is no string.",
                    Field::Time => "\n\tdefault.time is missing or is no string.",
                    Field::Weekday => "\n\tdefault.weekday is missing or is no string.",
                    Field::Id => "\n\tprofile.id is missing or is no string.",
                    Field::Password => "\n\tprofile.password is missing or is no string.",
                },
            ),
            SettingsError::TimeFormat(e) => e.message(),
            SettingsError::Weekday(e) => e.message(),
            SettingsError::Profile(e) => e.message(),
        }
    }
}

} // verus!
