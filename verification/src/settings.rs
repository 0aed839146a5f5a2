//! The schedule configuration and the rules that a new one must pass.

use vstd::prelude::*;
use vstd::string::*;
use crate::clock::{Moment, Weekday};
use crate::decimal::{decimal_text, numeral_u32, parse_u32, render_decimal};
use crate::error::{
    Field, ProfileException, SettingsError, SettingsErrorView, TimeFault, TimeFormatException,
    TimeFormatView, UnitTime, WeekdayException,
};
use crate::source::{provided, read_settings};
use config::Config;
use crate::text::{distinct, distinct_texts, find_char, first_index, lemma_distinct};

verus! {

/// The weekday that a three-letter name stands for.
pub open spec fn weekday_of(s: Seq<char>) -> Option<Weekday> {
    if s == "Mon"@ {
        Some(Weekday::Mon)
    } else if s == "Tue"@ {
        Some(Weekday::Tue)
    } else if s == "Wed"@ {
        Some(Weekday::Wed)
    } else if s == "Thu"@ {
        Some(Weekday::Thu)
    } else if s == "Fri"@ {
        Some(Weekday::Fri)
    } else if s == "Sat"@ {
        Some(Weekday::Sat)
    } else if s == "Sun"@ {
        Some(Weekday::Sun)
    } else {
        None
    }
}

/// One part of a clock time: a number below the part's limit.
pub open spec fn unit_of(s: Seq<char>, ut: UnitTime) -> Result<u32, TimeFormatView> {
    match numeral_u32(s) {
        None => Err(TimeFormatView { fault: TimeFault::NotANumber(ut), value: s }),
        Some(v) => if v >= ut.spec_limit() {
            Err(TimeFormatView { fault: TimeFault::OutOfRange(ut), value: decimal_text(v as nat) })
        } else {
            Ok(v)
        },
    }
}

/// A clock time `HH:MM`, cut at the first `:`; the hour is judged before the
/// minute.
pub open spec fn clock_of(s: Seq<char>) -> Result<(u32, u32), TimeFormatView> {
    match first_index(s, ':') {
        None => Err(TimeFormatView { fault: TimeFault::MissingSplicer, value: s }),
        Some(i) => match unit_of(s.subrange(0, i), UnitTime::Hour) {
            Err(e) => Err(e),
            Ok(h) => match unit_of(s.subrange(i + 1, s.len() as int), UnitTime::Minute) {
                Err(e) => Err(e),
                Ok(m) => Ok((h, m)),
            },
        },
    }
}

/// Reads a three-letter weekday name.
pub fn parse_weekday(s: &str) -> (r: Result<Weekday, WeekdayException>)
    ensures
        match r {
            Ok(w) => weekday_of(s@) == Some(w),
            Err(e) => weekday_of(s@) is None && e@ == s@,
        },
{
    if *s == *"Mon" {
        Ok(Weekday::Mon)
    } else if *s == *"Tue" {
        Ok(Weekday::Tue)
    } else if *s == *"Wed" {
        Ok(Weekday::Wed)
    } else if *s == *"Thu" {
        Ok(Weekday::Thu)
    } else if *s == *"Fri" {
        Ok(Weekday::Fri)
    } else if *s == *"Sat" {
        Ok(Weekday::Sat)
    } else if *s == *"Sun" {
        Ok(Weekday::Sun)
    } else {
        Err(WeekdayException { value: String::from_str(s) })
    }
}

/// Reads one part of a clock time.
pub fn parse_time(time_str: &str, ut: UnitTime) -> (r: Result<u32, TimeFormatException>)
    ensures
        match r {
            Ok(v) => unit_of(time_str@, ut) == Ok::<u32, TimeFormatView>(v),
            Err(e) => unit_of(time_str@, ut) == Err::<u32, TimeFormatView>(e@),
        },
{
    match parse_u32(time_str) {
        None => Err(
            TimeFormatException {
                fault: TimeFault::NotANumber(ut),
                value: String::from_str(time_str),
            },
        ),
        Some(v) => {
            if v >= ut.limit() {
                Err(
                    TimeFormatException {
                        fault: TimeFault::OutOfRange(ut),
                        value: render_decimal(v as u64),
                    },
                )
            } else {
                Ok(v)
            }
        },
    }
}

/// Reads a clock time `HH:MM`.
pub fn parse_clock(time: &str) -> (r: Result<(u32, u32), TimeFormatException>)
    ensures
        match r {
            Ok(hm) => clock_of(time@) == Ok::<(u32, u32), TimeFormatView>(hm),
            Err(e) => clock_of(time@) == Err::<(u32, u32), TimeFormatView>(e@),
        },
{
    match find_char(time, ':') {
        None => Err(
            TimeFormatException { fault: TimeFault::MissingSplicer, value: String::from_str(time) },
        ),
        Some(i) => {
            proof {
                crate::text::lemma_first_index(time@, ':');
            }
            let n = time.unicode_len();
            let hh = time.substring_char(0, i);
            let mm = time.substring_char(i + 1, n);
            match parse_time(hh, UnitTime::Hour) {
                Err(e) => Err(e),
                Ok(h) => match parse_time(mm, UnitTime::Minute) {
                    Err(e) => Err(e),
                    Ok(m) => Ok((h, m)),
                },
            }
        },
    }
}

/// What a configuration source provides, before any of it is judged. A
/// setting that the source lacks, or holds in another shape, is `None`.
#[derive(Debug)]
pub struct RawSettings {
    pub keyword: Option<Vec<String>>,
    pub email: Option<String>,
    pub time: Option<String>,
    pub weekday: Option<String>,
    pub id: Option<String>,
    pub password: Option<String>,
}

/// The mathematical content of a `RawSettings`.
pub struct RawSettingsView {
    pub keyword: Option<Seq<Seq<char>>>,
    pub email: Option<Seq<char>>,
    pub time: Option<Seq<char>>,
    pub weekday: Option<Seq<char>>,
    pub id: Option<Seq<char>>,
    pub password: Option<Seq<char>>,
}

impl View for RawSettings {
    type V = RawSettingsView;

    open spec fn view(&self) -> RawSettingsView {
        RawSettingsView {
            keyword: self.keyword.deep_view(),
            email: self.email.deep_view(),
            time: self.time.deep_view(),
            weekday: self.weekday.deep_view(),
            id: self.id.deep_view(),
            password: self.password.deep_view(),
        }
    }
}

/// The mathematical content of a `Settings`.
pub struct SettingsView {
    /// The search terms, each once, in the order in which they were given.
    pub keyword: Seq<Seq<char>>,
    pub email: Seq<char>,
    pub hour: u32,
    pub minute: u32,
    pub weekday: Weekday,
    pub id: Seq<char>,
    pub password: Seq<char>,
}

impl SettingsView {
    /// The settings that hold before any configuration was accepted:
    /// Wednesday 08:00, nothing to search for, nobody to write to.
    pub open spec fn initial() -> SettingsView {
        SettingsView {
            keyword: Seq::empty(),
            email: Seq::empty(),
            hour: 8,
            minute: 0,
            weekday: Weekday::Wed,
            id: Seq::empty(),
            password: Seq::empty(),
        }
    }

    /// The minute of the week at which a cycle is due.
    pub open spec fn target(self) -> Moment {
        Moment { weekday: self.weekday, hour: self.hour, minute: self.minute }
    }

    /// The time names a minute of a day, and no search term is repeated.
    pub open spec fn wf(self) -> bool {
        self.hour < 24 && self.minute < 60 && self.keyword.no_duplicates()
    }
}

/// The settings that `raw` amounts to, or the first thing wrong with it. The
/// settings are judged in this order: search terms, recipient, time, weekday,
/// credentials.
pub open spec fn checked(raw: RawSettingsView) -> Result<SettingsView, SettingsErrorView> {
    if raw.keyword is None {
        Err(SettingsErrorView::Unreadable(Field::Keyword))
    } else if raw.email is None {
        Err(SettingsErrorView::Unreadable(Field::Email))
    } else if raw.time is None {
        Err(SettingsErrorView::Unreadable(Field::Time))
    } else if clock_of(raw.time->0) is Err {
        Err(SettingsErrorView::TimeFormat(clock_of(raw.time->0)->Err_0))
    } else if raw.weekday is None {
        Err(SettingsErrorView::Unreadable(Field::Weekday))
    } else if weekday_of(raw.weekday->0) is None {
        Err(SettingsErrorView::Weekday(raw.weekday->0))
    } else if raw.id is None {
        Err(SettingsErrorView::Unreadable(Field::Id))
    } else if raw.password is None {
        Err(SettingsErrorView::Unreadable(Field::Password))
    } else if raw.id->0.len() == 0 || raw.password->0.len() == 0 {
        Err(
            SettingsErrorView::Profile(
                ProfileException {
                    id_empty: raw.id->0.len() == 0,
                    password_empty: raw.password->0.len() == 0,
                },
            ),
        )
    } else {
        Ok(
            SettingsView {
                keyword: distinct(raw.keyword->0),
                email: raw.email->0,
                hour: clock_of(raw.time->0)->Ok_0.0,
                minute: clock_of(raw.time->0)->Ok_0.1,
                weekday: weekday_of(raw.weekday->0)->0,
                id: raw.id->0,
                password: raw.password->0,
            },
        )
    }
}

/// Every accepted configuration is well formed and has both credentials.
pub proof fn lemma_checked_wf(raw: RawSettingsView)
    ensures
        checked(raw) matches Ok(s) ==> s.wf() && s.id.len() > 0 && s.password.len() > 0,
{
    if raw.keyword is Some {
        lemma_distinct(raw.keyword->0);
    }
}

/// The result of a step that changes the settings, with the error by its
/// content.
pub open spec fn step_view(r: Result<(), SettingsError>) -> Result<(), SettingsErrorView> {
    match r {
        Ok(()) => Ok(()),
        Err(e) => Err(e@),
    }
}

/// A notification, ready to be handed to a mail transport.
#[derive(Debug)]
pub struct Mail {
    /// The sender's mailbox.
    pub from: String,
    /// The recipient's mailbox.
    pub to: String,
    pub subject: String,
    /// The host that relays the mail.
    pub relay: String,
    /// The account and password to present to the relay.
    pub user: String,
    pub password: String,
    /// Name, media type and bytes of the attached table.
    pub file_name: String,
    pub content_type: String,
    pub body: Vec<u8>,
}

/// The mailbox of the account `id`.
pub open spec fn sender_of(id: Seq<char>) -> Seq<char> {
    "Crawler <"@ + id + "@naver.com>"@
}

/// The schedule configuration: when to run, what to search for, whom to
/// write to and as whom.
#[derive(Debug)]
pub struct Settings {
    keyword: Vec<String>,
    email: String,
    hour: u32,
    minute: u32,
    weekday: Weekday,
    id: String,
    password: String,
}

impl View for Settings {
    type V = SettingsView;

    closed spec fn view(&self) -> SettingsView {
        SettingsView {
            keyword: self.keyword.deep_view(),
            email: self.email@,
            hour: self.hour,
            minute: self.minute,
            weekday: self.weekday,
            id: self.id@,
            password: self.password@,
        }
    }
}

impl Default for Settings {
    fn default() -> (r: Settings)
        ensures
            r@ == SettingsView::initial(),
    {
        let r = Settings {
            keyword: Vec::new(),
            email: String::new(),
            hour: 8,
            minute: 0,
            weekday: Weekday::Wed,
            id: String::new(),
            password: String::new(),
        };
        assert(r.keyword.deep_view() =~= Seq::<Seq<char>>::empty());
        r
    }
}

impl Settings {
    #[verifier::type_invariant]
    spec fn inv(self) -> bool {
        self@.wf()
    }

    /// The settings that `config` provides, if all of them pass.
    pub fn new(config: &Config) -> (r: Result<Settings, SettingsError>)
        ensures
            match checked(provided(*config)) {
                Ok(s) => r is Ok && r->Ok_0@ == s,
                Err(e) => r is Err && r->Err_0@ == e,
            },
    {
        let raw = read_settings(config);
        Settings::from_raw(&raw)
    }

    /// Takes over what `config` provides if all of it passes, and leaves the
    /// settings untouched if anything in it fails.
    pub fn update_settings(&mut self, config: &Config) -> (r: Result<(), SettingsError>)
        ensures
            match checked(provided(*config)) {
                Ok(s) => r is Ok && final(self)@ == s,
                Err(e) => step_view(r) == Err::<(), SettingsErrorView>(e) && final(self)@ == old(
                    self,
                )@,
            },
    {
        let raw = read_settings(config);
        self.apply(&raw)
    }

    /// Replaces the settings by those of `raw` if all of `raw` passes, and
    /// leaves them untouched if anything in it fails.
    pub fn apply(&mut self, raw: &RawSettings) -> (r: Result<(), SettingsError>)
        ensures
            match checked(raw@) {
                Ok(s) => r is Ok && final(self)@ == s,
                Err(e) => step_view(r) == Err::<(), SettingsErrorView>(e) && final(self)@ == old(
                    self,
                )@,
            },
    {
        let mut next = Settings::default();
        match next.update_keyword(raw) {
            Err(e) => {
                return Err(e);
            },
            Ok(()) => {},
        }
        match next.update_email(raw) {
            Err(e) => {
                return Err(e);
            },
            Ok(()) => {},
        }
        match next.update_time(raw) {
            Err(e) => {
                return Err(e);
            },
            Ok(()) => {},
        }
        match next.update_weekday(raw) {
            Err(e) => {
                return Err(e);
            },
            Ok(()) => {},
        }
        match next.update_profile(raw) {
            Err(e) => {
                return Err(e);
            },
            Ok(()) => {},
        }
        *self = next;
        Ok(())
    }

    /// The settings that `raw` amounts to, if all of it passes.
    pub fn from_raw(raw: &RawSettings) -> (r: Result<Settings, SettingsError>)
        ensures
            match checked(raw@) {
                Ok(s) => r is Ok && r->Ok_0@ == s,
                Err(e) => r is Err && r->Err_0@ == e,
            },
    {
        let mut me = Settings::default();
        match me.apply(raw) {
            Err(e) => Err(e),
            Ok(()) => Ok(me),
        }
    }

    /// The search terms, each once.
    pub fn keyword(&self) -> (r: &Vec<String>)
        ensures
            r.deep_view() == self@.keyword,
            r.deep_view().no_duplicates(),
    {
        proof {
            use_type_invariant(self);
        }
        &self.keyword
    }

    /// The recipient's address.
    pub fn email(&self) -> (r: &str)
        ensures
            r@ == self@.email,
    {
        self.email.as_str()
    }

    /// The sender's account.
    pub fn id(&self) -> (r: &str)
        ensures
            r@ == self@.id,
    {
        self.id.as_str()
    }

    /// The sender's password.
    pub fn password(&self) -> (r: &str)
        ensures
            r@ == self@.password,
    {
        self.password.as_str()
    }

    /// The minute of the week at which a cycle is due.
    pub fn target(&self) -> (r: Moment)
        ensures
            r == self@.target(),
            r.wf(),
    {
        proof {
            use_type_invariant(self);
        }
        Moment { weekday: self.weekday, hour: self.hour, minute: self.minute }
    }

    /// Whether both credentials are set.
    pub fn has_profile(&self) -> (r: bool)
        ensures
            r == (self@.id.len() > 0 && self@.password.len() > 0),
    {
        !self.id.as_str().is_empty() && !self.password.as_str().is_empty()
    }

    /// Composes the notification that carries `attachment` as the table of
    /// new papers.
    pub fn send_email(&self, attachment: Vec<u8>) -> (r: Mail)
        ensures
            r.from@ == sender_of(self@.id),
            r.to@ == self@.email,
            r.subject@ == "SMTP Test"@,
            r.relay@ == "smtp.naver.com"@,
            r.user@ == self@.id,
            r.password@ == self@.password,
            r.file_name@ == "Papers.csv"@,
            r.content_type@ == "text/csv"@,
            r.body@ == attachment@,
    {
        let mut from = String::from_str("Crawler <");
        from.append(self.id.as_str());
        from.append("@naver.com>");
        Mail {
            from,
            to: self.email.clone(),
            subject: String::from_str("SMTP Test"),
            relay: String::from_str("smtp.naver.com"),
            user: self.id.clone(),
            password: self.password.clone(),
            file_name: String::from_str("Papers.csv"),
            content_type: String::from_str("text/csv"),
            body: attachment,
        }
    }

    /// Takes the search terms of `raw`, each once.
    fn update_keyword(&mut self, raw: &RawSettings) -> (r: Result<(), SettingsError>)
        ensures
            match raw@.keyword {
                None => step_view(r) == Err::<(), SettingsErrorView>(
                    SettingsErrorView::Unreadable(Field::Keyword),
                ) && final(self)@ == old(self)@,
                Some(k) => r is Ok && final(self)@ == (SettingsView {
                    keyword: distinct(k),
                    ..old(self)@
                }),
            },
    {
        match &raw.keyword {
            None => Err(SettingsError::Unreadable(Field::Keyword)),
            Some(k) => {
                proof {
                    use_type_invariant(&*self);
                    lemma_distinct(k.deep_view());
                }
                self.keyword = distinct_texts(k);
                Ok(())
            },
        }
    }

    /// Takes the recipient of `raw`.
    fn update_email(&mut self, raw: &RawSettings) -> (r: Result<(), SettingsError>)
        ensures
            match raw@.email {
                None => step_view(r) == Err::<(), SettingsErrorView>(
                    SettingsErrorView::Unreadable(Field::Email),
                ) && final(self)@ == old(self)@,
                Some(e) => r is Ok && final(self)@ == (SettingsView { email: e, ..old(self)@ }),
            },
    {
        match &raw.email {
            None => Err(SettingsError::Unreadable(Field::Email)),
            Some(e) => {
                proof {
                    use_type_invariant(&*self);
                }
                self.email = e.clone();
                Ok(())
            },
        }
    }

    /// Takes the time of `raw`, hour and minute together or neither.
    fn update_time(&mut self, raw: &RawSettings) -> (r: Result<(), SettingsError>)
        ensures
            match raw@.time {
                None => step_view(r) == Err::<(), SettingsErrorView>(
                    SettingsErrorView::Unreadable(Field::Time),
                ) && final(self)@ == old(self)@,
                Some(t) => match clock_of(t) {
                    Err(e) => step_view(r) == Err::<(), SettingsErrorView>(
                        SettingsErrorView::TimeFormat(e),
                    ) && final(self)@ == old(self)@,
                    Ok(hm) => r is Ok && final(self)@ == (SettingsView {
                        hour: hm.0,
                        minute: hm.1,
                        ..old(self)@
                    }),
                },
            },
    {
        match &raw.time {
            None => Err(SettingsError::Unreadable(Field::Time)),
            Some(t) => match parse_clock(t.as_str()) {
                Err(e) => Err(SettingsError::TimeFormat(e)),
                Ok((h, m)) => {
                    proof {
                        use_type_invariant(&*self);
                    }
                    self.hour = h;
                    self.minute = m;
                    Ok(())
                },
            },
        }
    }

    /// Takes the weekday of `raw`.
    fn update_weekday(&mut self, raw: &RawSettings) -> (r: Result<(), SettingsError>)
        ensures
            match raw@.weekday {
                None => step_view(r) == Err::<(), SettingsErrorView>(
                    SettingsErrorView::Unreadable(Field::Weekday),
                ) && final(self)@ == old(self)@,
                Some(d) => match weekday_of(d) {
                    None => step_view(r) == Err::<(), SettingsErrorView>(
                        SettingsErrorView::Weekday(d),
                    ) && final(self)@ == old(self)@,
                    Some(w) => r is Ok && final(self)@ == (SettingsView {
                        weekday: w,
                        ..old(self)@
                    }),
                },
            },
    {
        match &raw.weekday {
            None => Err(SettingsError::Unreadable(Field::Weekday)),
            Some(d) => match parse_weekday(d.as_str()) {
                Err(e) => Err(SettingsError::Weekday(e)),
                Ok(w) => {
                    proof {
                        use_type_invariant(&*self);
                    }
                    self.weekday = w;
                    Ok(())
                },
            },
        }
    }

    /// Takes the credentials of `raw`, both or neither.
    fn update_profile(&mut self, raw: &RawSettings) -> (r: Result<(), SettingsError>)
        ensures
            match (raw@.id, raw@.password) {
                (None, _) => step_view(r) == Err::<(), SettingsErrorView>(
                    SettingsErrorView::Unreadable(Field::Id),
                ) && final(self)@ == old(self)@,
                (Some(_), None) => step_view(r) == Err::<(), SettingsErrorView>(
                    SettingsErrorView::Unreadable(Field::Password),
                ) && final(self)@ == old(self)@,
                (Some(id), Some(password)) => if id.len() == 0 || password.len() == 0 {
                    step_view(r) == Err::<(), SettingsErrorView>(
                        SettingsErrorView::Profile(
                            ProfileException {
                                id_empty: id.len() == 0,
                                password_empty: password.len() == 0,
                            },
                        ),
                    ) && final(self)@ == old(self)@
                } else {
                    r is Ok && final(self)@ == (SettingsView { id, password, ..old(self)@ })
                },
            },
    {
        match (&raw.id, &raw.password) {
            (None, _) => Err(SettingsError::Unreadable(Field::Id)),
            (Some(_), None) => Err(SettingsError::Unreadable(Field::Password)),
            (Some(id), Some(password)) => {
                let id_empty = id.as_str().is_empty();
                let password_empty = password.as_str().is_empty();
                if id_empty || password_empty {
                    Err(SettingsError::Profile(ProfileException { id_empty, password_empty }))
                } else {
                    proof {
                        use_type_invariant(&*self);
                    }
                    self.id = id.clone();
                    self.password = password.clone();
                    Ok(())
                }
            },
        }
    }
}

} // verus!
