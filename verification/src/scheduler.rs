//! The scheduler: the settings in force, the trigger with its latch, and a
//! table of new papers.

use vstd::prelude::*;
use config::Config;
use crate::clock::{local_now, Moment};
use crate::error::{SettingsError, SettingsErrorView};
use crate::log::{chunk_for, LogError, LogView, PaperLog};
use crate::paper::Paper;
use crate::settings::{
    checked, sender_of, step_view, Mail, RawSettings, Settings, SettingsView,
};
use crate::source::provided;
use crate::trigger::{Action, Outcome, RotationPermit, TriggerState};

verus! {

/// The mathematical content of a `Scheduler`.
pub struct SchedulerView {
    pub settings: SettingsView,
    pub state: TriggerState,
    pub log: LogView,
}

/// Decides when a cycle runs and when the notification is sent.
#[derive(Debug)]
pub struct Scheduler {
    settings: Settings,
    state: TriggerState,
    buffer: PaperLog,
}

impl View for Scheduler {
    type V = SchedulerView;

    closed spec fn view(&self) -> SchedulerView {
        SchedulerView { settings: self.settings@, state: self.state, log: self.buffer@ }
    }
}

impl Default for Scheduler {
    fn default() -> (r: Scheduler)
        ensures
            r@ == (SchedulerView {
                settings: SettingsView::initial(),
                state: TriggerState::initial(),
                log: LogView::empty(),
            }),
    {
        Scheduler {
            settings: Settings::default(),
            state: TriggerState::new(),
            buffer: PaperLog::new(),
        }
    }
}

impl Scheduler {
    /// Takes over what `config` provides if all of it passes, and leaves the
    /// settings untouched if anything in it fails. The trigger's memory is
    /// not touched either way: new settings govern from the next poll on.
    pub fn update_scheduler(&mut self, config: &Config) -> (r: Result<(), SettingsError>)
        ensures
            match checked(provided(*config)) {
                Ok(s) => r is Ok && final(self)@ == (SchedulerView { settings: s, ..old(self)@ }),
                Err(e) => step_view(r) == Err::<(), SettingsErrorView>(e) && final(self)@ == old(
                    self,
                )@,
            },
    {
        self.settings.update_settings(config)
    }

    /// As `update_scheduler`, for settings that were collected already.
    pub fn configure(&mut self, raw: &RawSettings) -> (r: Result<(), SettingsError>)
        ensures
            match checked(raw@) {
                Ok(s) => r is Ok && final(self)@ == (SchedulerView { settings: s, ..old(self)@ }),
                Err(e) => step_view(r) == Err::<(), SettingsErrorView>(e) && final(self)@ == old(
                    self,
                )@,
            },
    {
        self.settings.apply(raw)
    }

    /// The terms to search for.
    pub fn keyword(&self) -> (r: &Vec<String>)
        ensures
            r.deep_view() == self@.settings.keyword,
            r.deep_view().no_duplicates(),
    {
        self.settings.keyword()
    }

    /// The minute of the week at which a cycle is due.
    pub fn target(&self) -> (r: Moment)
        ensures
            r == self@.settings.target(),
            r.wf(),
    {
        self.settings.target()
    }

    /// The trigger's memory.
    pub fn state(&self) -> (r: TriggerState)
        ensures
            r == self@.state,
    {
        self.state
    }

    /// Whether `now` is the minute at which a cycle is due.
    pub fn is_now(&self, now: &Moment) -> (r: bool)
        ensures
            r == (*now == self@.settings.target()),
    {
        now.same_minute(&self.settings.target())
    }

    /// One poll at the reading `now`.
    pub fn poll(&mut self, now: Moment) -> (r: Action)
        ensures
            r == old(self)@.state.step(now, old(self)@.settings.target()).1,
            final(self)@ == (SchedulerView {
                state: old(self)@.state.step(now, old(self)@.settings.target()).0,
                ..old(self)@
            }),
    {
        let (next, action) = self.state.poll(now, self.settings.target());
        self.state = next;
        action
    }

    /// One poll at the reading of the local clock. Returns what to do and the
    /// reading that decided it.
    pub fn tick(&mut self) -> (r: (Action, Moment))
        ensures
            r.1.wf(),
            r.0 == old(self)@.state.step(r.1, old(self)@.settings.target()).1,
            final(self)@ == (SchedulerView {
                state: old(self)@.state.step(r.1, old(self)@.settings.target()).0,
                ..old(self)@
            }),
    {
        let now = local_now();
        let action = self.poll(now);
        (action, now)
    }

    /// Appends `paper` to the table of new papers and returns the bytes to
    /// write at the end of the durable copy. Where the row, or the header it
    /// needs, cannot be encoded, nothing changes.
    pub fn write(&mut self, paper: &Paper) -> (r: Result<Vec<u8>, LogError>)
        ensures
            final(self)@ == (SchedulerView { log: old(self)@.log.append(paper@), ..old(self)@ }),
            match chunk_for(old(self)@.log.started, paper@) {
                Ok(c) => r is Ok && r->Ok_0@ == c,
                Err(e) => r == Err::<Vec<u8>, LogError>(e),
            },
    {
        self.buffer.append(paper)
    }

    /// Starts a new, empty table of new papers. The permit shows that the
    /// notification which carried the old table went through.
    pub fn new_buffer(&mut self, permit: RotationPermit)
        ensures
            final(self)@ == (SchedulerView { log: LogView::empty(), ..old(self)@ }),
    {
        self.buffer.rotate(permit);
    }

    /// The notification to send, with the table of new papers attached, or
    /// `None` where no send is wanted: no activation is open, or its
    /// notification went through already.
    pub fn send_email(&self) -> (r: Option<Mail>)
        ensures
            r is Some <==> self@.state.wants_send(),
            r matches Some(m) ==> {
                &&& m.from@ == sender_of(self@.settings.id)
                &&& m.to@ == self@.settings.email
                &&& m.subject@ == "SMTP Test"@
                &&& m.relay@ == "smtp.naver.com"@
                &&& m.user@ == self@.settings.id
                &&& m.password@ == self@.settings.password
                &&& m.file_name@ == "Papers.csv"@
                &&& m.content_type@ == "text/csv"@
                &&& m.body@ == self@.log.content
            },
    {
        if self.state.send_wanted() {
            Some(self.settings.send_email(self.buffer.snapshot()))
        } else {
            None
        }
    }

    /// Takes the report of a send. A send that went through while one was
    /// wanted marks the activation as notified and yields the permit to
    /// start a new table; anything else changes nothing.
    pub fn maybe_notify(&mut self, delivered: bool) -> (r: Outcome)
        ensures
            final(self)@ == (SchedulerView {
                state: old(self)@.state.settled(delivered),
                ..old(self)@
            }),
            old(self)@.state.last_fired is None <==> r is NotDue,
            old(self)@.state.last_fired is Some && old(self)@.state.sent <==> r is AlreadySent,
            old(self)@.state.wants_send() && !delivered <==> r is Failed,
            old(self)@.state.wants_send() && delivered <==> r is Delivered,
    {
        self.state.maybe_notify(delivered)
    }
}

} // verus!
