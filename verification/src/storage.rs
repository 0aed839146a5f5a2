//! The store that tells new papers from known ones.
//!
//! Two generations are kept. `committed` holds every paper accepted up to
//! the last commit and decides what is new; `staging` gathers what the
//! cycle under way has found. A commit moves staging into committed.

use vstd::prelude::*;
use vstd::hash_map::StringHashMap;
use config::Config;
use crate::clock::Weekday;
use crate::error::{SettingsError, SettingsErrorView};
use crate::log::{
    chunk_for, extend_bytes, lemma_table_layout, table_of, LogError, LogView, PaperLog,
};
use crate::paper::{Paper, PaperView};
use crate::settings::{checked, sender_of, step_view, Mail, Settings, SettingsView};
use crate::source::provided;
use crate::text::{clone_texts, contains_text, distinct, distinct_texts};
use crate::trigger::RotationPermit;

verus! {

/// What happens to a store: a paper is offered, or a cycle is committed
/// with the terms that it searched for.
pub enum StoreEvent {
    Offer(PaperView),
    Commit(Seq<Seq<char>>),
}

/// The mathematical content of a `Storage`.
pub struct StorageView {
    /// The papers accepted up to the last commit, by `href`.
    pub committed: Map<Seq<char>, PaperView>,
    /// The papers found in the cycle under way, by `href`.
    pub staging: Map<Seq<char>, PaperView>,
    /// The terms that the last committed cycle searched for.
    pub keyword: Seq<Seq<char>>,
    /// Whether only papers under a term that the last cycle did not search
    /// for count as new.
    pub keyword_scoped: bool,
    pub settings: SettingsView,
    pub log: LogView,
}

impl StorageView {
    /// Whether a paper with this `href`, found under `keyword`, is new: it is
    /// not among the committed papers and, where novelty is scoped by term,
    /// the last cycle did not search for `keyword`.
    pub open spec fn is_novel(self, keyword: Seq<char>, href: Seq<char>) -> bool {
        !self.committed.contains_key(href) && (self.keyword_scoped ==> !self.keyword.contains(
            keyword,
        ))
    }

    /// The store after `paper` was offered under `href`.
    pub open spec fn offer(self, href: Seq<char>, paper: PaperView) -> StorageView {
        StorageView { staging: self.staging.insert(href, paper), ..self }
    }

    /// The store after `paper` was offered and, where it is new and can be
    /// encoded, appended to the table.
    pub open spec fn accept(self, paper: PaperView) -> StorageView {
        let offered = self.offer(paper.href, paper);
        if self.is_novel(paper.keyword, paper.href) {
            StorageView { log: self.log.append(paper), ..offered }
        } else {
            offered
        }
    }

    /// The store after each of `papers` was accepted in turn.
    pub open spec fn accept_all(self, papers: Seq<PaperView>) -> StorageView
        decreases papers.len(),
    {
        if papers.len() == 0 {
            self
        } else {
            self.accept_all(papers.drop_last()).accept(papers.last())
        }
    }

    /// Those of `papers` that are new to this store, in their order.
    pub open spec fn novel_among(self, papers: Seq<PaperView>) -> Seq<PaperView>
        decreases papers.len(),
    {
        if papers.len() == 0 {
            Seq::empty()
        } else {
            let front = self.novel_among(papers.drop_last());
            if self.is_novel(papers.last().keyword, papers.last().href) {
                front.push(papers.last())
            } else {
                front
            }
        }
    }

    /// The store after one event.
    pub open spec fn apply(self, event: StoreEvent) -> StorageView {
        match event {
            StoreEvent::Offer(paper) => self.accept(paper),
            StoreEvent::Commit(searched) => self.commit(searched),
        }
    }

    /// The store after each of `events` in turn.
    pub open spec fn after(self, events: Seq<StoreEvent>) -> StorageView
        decreases events.len(),
    {
        if events.len() == 0 {
            self
        } else {
            self.after(events.drop_last()).apply(events.last())
        }
    }

    /// The store after a commit at the end of a cycle that searched for
    /// `searched`.
    pub open spec fn commit(self, searched: Seq<Seq<char>>) -> StorageView {
        StorageView {
            committed: self.committed.union_prefer_right(self.staging),
            staging: Map::empty(),
            keyword: distinct(searched),
            ..self
        }
    }
}

/// The papers of a list by their content.
pub open spec fn paper_views(papers: Seq<Paper>) -> Seq<PaperView> {
    papers.map_values(|p: Paper| p@)
}

/// The papers of a generation by their content.
pub open spec fn contents(m: Map<Seq<char>, Paper>) -> Map<Seq<char>, PaperView> {
    m.map_values(|p: Paper| p@)
}

/// The store of papers, with the settings in force and the table of new
/// papers.
pub struct Storage {
    keyword: Vec<String>,
    storage: StringHashMap<Paper>,
    up_storage: StringHashMap<Paper>,
    keyword_scoped: bool,
    settings: Settings,
    file_handle: PaperLog,
}

impl View for Storage {
    type V = StorageView;

    closed spec fn view(&self) -> StorageView {
        StorageView {
            committed: contents(self.storage@),
            staging: contents(self.up_storage@),
            keyword: self.keyword.deep_view(),
            keyword_scoped: self.keyword_scoped,
            settings: self.settings@,
            log: self.file_handle@,
        }
    }
}

impl Storage {
    /// An empty store with the initial settings and an empty table. A paper
    /// is new when its `href` is not committed, under whatever term it came.
    pub fn new() -> (r: Storage)
        ensures
            r@ == (StorageView {
                committed: Map::empty(),
                staging: Map::empty(),
                keyword: Seq::empty(),
                keyword_scoped: false,
                settings: SettingsView::initial(),
                log: LogView::empty(),
            }),
    {
        let r = Storage {
            keyword: Vec::new(),
            storage: StringHashMap::new(),
            up_storage: StringHashMap::new(),
            keyword_scoped: false,
            settings: Settings::default(),
            file_handle: PaperLog::new(),
        };
        assert(contents(r.storage@) =~= Map::empty());
        assert(contents(r.up_storage@) =~= Map::empty());
        assert(r.keyword.deep_view() =~= Seq::<Seq<char>>::empty());
        r
    }

    /// Chooses whether novelty is scoped by search term.
    pub fn with_keyword_scoped_novelty(self, scoped: bool) -> (r: Storage)
        ensures
            r@ == (StorageView { keyword_scoped: scoped, ..self@ }),
    {
        let mut r = self;
        r.keyword_scoped = scoped;
        r
    }

    /// Whether a paper with the `href` `key` is committed.
    pub fn contains_key(&self, key: &str) -> (r: bool)
        ensures
            r == self@.committed.contains_key(key@),
    {
        self.storage.contains_key(key)
    }

    /// Offers the paper `value`, found under the term `key.0` at the `href`
    /// `key.1`. The paper goes into staging, over any paper offered under
    /// the same `href` before; the answer says whether it is new. Committed
    /// papers stay as they are, so the answer for an `href` does not change
    /// within a cycle.
    pub fn insert(&mut self, key: (String, String), value: Paper) -> (novel: bool)
        ensures
            novel == old(self)@.is_novel(key.0@, key.1@),
            final(self)@ == old(self)@.offer(key.1@, value@),
    {
        let (keyword, href) = key;
        let known = self.storage.contains_key(href.as_str());
        let repeated = self.keyword_scoped && contains_text(&self.keyword, keyword.as_str());
        let ghost before = self.up_storage@;
        self.up_storage.insert(href, value);
        assert(contents(before.insert(href@, value)) =~= contents(before).insert(href@, value@));
        !known && !repeated
    }

    /// Offers `paper` under its own term and `href` and, where it is new,
    /// appends it to the table. Returns the bytes to write at the end of the
    /// durable copy, `None` for a paper that is not new. A new paper that
    /// cannot be encoded is staged all the same, and the table stays as it
    /// was.
    pub fn accept(&mut self, paper: Paper) -> (r: Result<Option<Vec<u8>>, LogError>)
        ensures
            final(self)@ == old(self)@.accept(paper@),
            if old(self)@.is_novel(paper@.keyword, paper@.href) {
                match chunk_for(old(self)@.log.started, paper@) {
                    Ok(c) => r is Ok && r->Ok_0 is Some && r->Ok_0->0@ == c,
                    Err(e) => r == Err::<Option<Vec<u8>>, LogError>(e),
                }
            } else {
                r == Ok::<Option<Vec<u8>>, LogError>(None)
            },
    {
        let key = (paper.keyword.clone(), paper.href.clone());
        let copy = paper.clone();
        if self.insert(key, paper) {
            match self.write_to_file(&copy) {
                Ok(bytes) => Ok(Some(bytes)),
                Err(e) => Err(e),
            }
        } else {
            Ok(None)
        }
    }

    /// Accepts the papers of one result page in their order and returns the
    /// bytes to write at the end of the durable copy: the rows of those that
    /// are new.
    pub fn accept_all(&mut self, papers: &Vec<Paper>) -> (added: Vec<u8>)
        ensures
            final(self)@ == old(self)@.accept_all(paper_views(papers@)),
            final(self)@.log.content == old(self)@.log.content + added@,
    {
        let mut added: Vec<u8> = Vec::new();
        let mut i: usize = 0;
        let ghost views = paper_views(papers@);
        assert(views.take(0) =~= Seq::<PaperView>::empty());
        assert(self@.log.content + added@ =~= self@.log.content);
        while i < papers.len()
            invariant
                i <= papers.len(),
                views == paper_views(papers@),
                self@ == old(self)@.accept_all(views.take(i as int)),
                self@.log.content == old(self)@.log.content + added@,
            decreases papers.len() - i,
        {
            assert(views.take(i + 1).drop_last() =~= views.take(i as int));
            assert(views.take(i + 1).last() == papers@[i as int]@);
            match self.accept(papers[i].clone()) {
                Ok(Some(bytes)) => {
                    extend_bytes(&mut added, &bytes);
                    assert(self@.log.content =~= old(self)@.log.content + added@);
                },
                Ok(None) => {},
                Err(_) => {},
            }
            i += 1;
        }
        assert(views.take(papers.len() as int) =~= views);
        added
    }

    /// Commits the cycle under way: every staged paper becomes a committed
    /// paper, staging is emptied, and `new_keyword` is remembered as the
    /// terms searched for.
    pub fn update(&mut self, new_keyword: Vec<String>)
        ensures
            final(self)@ == old(self)@.commit(new_keyword.deep_view()),
    {
        self.keyword = distinct_texts(&new_keyword);
        let mut staged: StringHashMap<Paper> = StringHashMap::new();
        std::mem::swap(&mut self.up_storage, &mut staged);
        let ghost committed = self.storage@;
        self.storage.union_prefer_right(staged);
        assert(contents(committed.union_prefer_right(staged@)) =~= contents(
            committed,
        ).union_prefer_right(contents(staged@)));
        assert(contents(self.up_storage@) =~= Map::empty());
    }

    /// Takes over what `config` provides if all of it passes, and leaves the
    /// settings untouched if anything in it fails.
    pub fn update_settings(&mut self, config: &Config) -> (r: Result<(), SettingsError>)
        ensures
            match checked(provided(*config)) {
                Ok(s) => r is Ok && final(self)@ == (StorageView { settings: s, ..old(self)@ }),
                Err(e) => step_view(r) == Err::<(), SettingsErrorView>(e) && final(self)@ == old(
                    self,
                )@,
            },
    {
        self.settings.update_settings(config)
    }

    /// The terms to search for.
    pub fn keyword_from_settings(&self) -> (r: Vec<String>)
        ensures
            r.deep_view() == self@.settings.keyword,
            r.deep_view().no_duplicates(),
    {
        clone_texts(self.settings.keyword())
    }

    /// Hour, minute and weekday at which a cycle is due.
    pub fn time_from_settings(&self) -> (r: (u32, u32, Weekday))
        ensures
            r == (self@.settings.hour, self@.settings.minute, self@.settings.weekday),
            r.0 < 24,
            r.1 < 60,
    {
        let target = self.settings.target();
        (target.hour, target.minute, target.weekday)
    }

    /// Appends `paper` to the table of new papers and returns the bytes to
    /// write at the end of the durable copy. Where the row, or the header it
    /// needs, cannot be encoded, nothing changes.
    pub fn write_to_file(&mut self, paper: &Paper) -> (r: Result<Vec<u8>, LogError>)
        ensures
            final(self)@ == (StorageView { log: old(self)@.log.append(paper@), ..old(self)@ }),
            match chunk_for(old(self)@.log.started, paper@) {
                Ok(c) => r is Ok && r->Ok_0@ == c,
                Err(e) => r == Err::<Vec<u8>, LogError>(e),
            },
    {
        self.file_handle.append(paper)
    }

    /// Starts a new, empty table of new papers. The permit shows that the
    /// notification which carried the old table went through.
    pub fn new_file_handle(&mut self, permit: RotationPermit)
        ensures
            final(self)@ == (StorageView { log: LogView::empty(), ..old(self)@ }),
    {
        self.file_handle.rotate(permit);
    }

    /// Composes the notification with the table of new papers attached.
    pub fn send_email(&self) -> (r: Mail)
        ensures
            r.from@ == sender_of(self@.settings.id),
            r.to@ == self@.settings.email,
            r.subject@ == "SMTP Test"@,
            r.relay@ == "smtp.naver.com"@,
            r.user@ == self@.settings.id,
            r.password@ == self@.settings.password,
            r.file_name@ == "Papers.csv"@,
            r.content_type@ == "text/csv"@,
            r.body@ == self@.log.content,
    {
        self.settings.send_email(self.file_handle.snapshot())
    }
}

/// Offers change no answer: whatever is offered, what was new before is new
/// after, and what was not is not. Only a commit changes what is new.
pub proof fn lemma_offers_keep_answers(s: StorageView, offered: PaperView, keyword: Seq<char>, href: Seq<char>)
    ensures
        s.accept(offered).is_novel(keyword, href) == s.is_novel(keyword, href),
        s.offer(offered.href, offered).is_novel(keyword, href) == s.is_novel(keyword, href),
        s.accept(offered).staging.contains_key(offered.href),
{
}

/// A committed paper stays committed, whatever is offered and committed
/// afterwards.
pub proof fn lemma_committed_stays(s: StorageView, events: Seq<StoreEvent>, href: Seq<char>)
    requires
        s.committed.contains_key(href),
    ensures
        s.after(events).committed.contains_key(href),
    decreases events.len(),
{
    if events.len() > 0 {
        lemma_committed_stays(s, events.drop_last(), href);
    }
}

/// Once a paper was offered and its cycle committed, no later offer of its
/// `href` is answered with "new": not in the next cycle nor in any after it,
/// under whatever term the paper turns up again, scoped novelty or not.
pub proof fn lemma_never_new_again(
    s: StorageView,
    paper: PaperView,
    rest_of_cycle: Seq<StoreEvent>,
    searched: Seq<Seq<char>>,
    later: Seq<StoreEvent>,
    keyword: Seq<char>,
)
    requires
        forall|i: int| 0 <= i < rest_of_cycle.len() ==> rest_of_cycle[i] is Offer,
    ensures
        !s.accept(paper).after(rest_of_cycle).commit(searched).after(later).is_novel(
            keyword,
            paper.href,
        ),
{
    let offered = s.accept(paper);
    lemma_staged_stays(offered, rest_of_cycle, paper.href);
    let committed = offered.after(rest_of_cycle).commit(searched);
    assert(committed.committed.contains_key(paper.href));
    lemma_committed_stays(committed, later, paper.href);
}

/// A staged paper stays staged until the commit.
proof fn lemma_staged_stays(s: StorageView, offers: Seq<StoreEvent>, href: Seq<char>)
    requires
        s.staging.contains_key(href),
        forall|i: int| 0 <= i < offers.len() ==> offers[i] is Offer,
    ensures
        s.after(offers).staging.contains_key(href),
    decreases offers.len(),
{
    if offers.len() > 0 {
        let front = offers.drop_last();
        assert forall|i: int| 0 <= i < front.len() implies front[i] is Offer by {
            assert(front[i] == offers[i]);
        }
        lemma_staged_stays(s, front, href);
        assert(offers[offers.len() - 1] is Offer);
    }
}

/// A run of offers leaves the answers as they were and adds to the table
/// exactly the papers that were answered with "new".
pub proof fn lemma_accepted_are_logged(s: StorageView, papers: Seq<PaperView>)
    ensures
        s.accept_all(papers).log == s.log.append_all(s.novel_among(papers)),
        s.accept_all(papers).committed == s.committed,
        s.accept_all(papers).keyword == s.keyword,
        s.accept_all(papers).keyword_scoped == s.keyword_scoped,
    decreases papers.len(),
{
    if papers.len() > 0 {
        let front = papers.drop_last();
        lemma_accepted_are_logged(s, front);
        let mid = s.accept_all(front);
        let last = papers.last();
        assert(mid.is_novel(last.keyword, last.href) == s.is_novel(last.keyword, last.href));
        if s.is_novel(last.keyword, last.href) {
            let novel = s.novel_among(papers);
            assert(novel.drop_last() =~= s.novel_among(front));
            assert(novel.last() == last);
        }
    }
}

/// Round trip: offer a run of papers to a store whose table is empty. The
/// table then holds the header row followed by one row for each paper that
/// was answered with "new", each once and in the order of the offers.
pub proof fn lemma_round_trip(s: StorageView, papers: Seq<PaperView>)
    requires
        s.log == LogView::empty(),
    ensures
        s.accept_all(papers).log == table_of(s.novel_among(papers)),
{
    lemma_accepted_are_logged(s, papers);
    lemma_table_layout(s.novel_among(papers));
}

} // verus!
