//! The course of a bulk analysis as a machine: each step takes what the
//! last task gave and names the milestones to tell and the task to do next.
//!
//! The machine never talks to the network. Whoever runs it resolves,
//! fetches and queries as the tasks say, and hands back what came of it.

use crate::analysis::{
    absorb, analysis_subject, analyze_user_posts, fetch_failure, labels_of, post_uris,
    resolution_failure, stops, subject_text, Subject,
};
use crate::batching::{batches, is_batching, BATCH_SIZE};
use crate::display::{enrich, text_or_empty, PostWithLabels};
use crate::engagement::{found_or_none, UserInfo};
use crate::error::Error;
use crate::labeler::{default_labeler, optional_header, LabelerClient};
use crate::media::{embedded_images, embedded_video, extract_media_urls, optional_view, views};
use crate::posts::ANALYSIS_LIMIT;
use crate::progress::{reports_after, should_report, Milestone};
use crate::ranking::is_stable_sort;
use crate::selection::{
    active_on, labelled_posts_are_shown, labels_for, select_for_display, selected_upto,
};
use crate::stats::{is_stats_of, BulkAnalysisStats};
use crate::text::has_prefix;
use crate::types::{duplicate_labels, AtRecord, Did, Handle, Label, LabelCollection};
use vstd::prelude::*;

verus! {

/// Where an analysis stands.
#[derive(Debug, Clone, Copy, PartialEq, Eq, Structural)]
pub enum Stage {
    /// Nothing was done yet.
    Start,
    /// The handle is being resolved.
    Resolving,
    /// The posts are being fetched.
    Fetching,
    /// The labels on the account are being asked for.
    AskingAccount,
    /// The labels on a batch of posts are being asked for.
    AskingBatch,
    /// What a shown post embeds and who engaged with it is being found.
    Showing,
    /// The analysis is over.
    Done,
}

/// What is to be done next.
#[derive(Debug)]
pub enum Task {
    /// Resolve the handle to an identifier.
    Resolve { handle: Handle },
    /// Fetch up to `max_posts` posts of the account.
    FetchPosts { did: Did, max_posts: usize },
    /// Ask the service of `labeler` for the labels on `subjects`.
    QueryLabels { labeler: LabelerClient, subjects: Vec<String> },
    /// Find the data host of the account and the likes and reposts of the
    /// post `uri`.
    Enrich { did: Did, uri: String },
    /// Nothing: the analysis gave this.
    Finished { outcome: Result<(BulkAnalysisStats, Vec<PostWithLabels>), String> },
}

/// What a task gave.
#[derive(Debug)]
#[allow(inconsistent_fields)]
pub enum Event {
    /// The analysis is to begin.
    Begin,
    /// The handle was resolved, or not.
    Resolved { outcome: Result<Did, Error> },
    /// The posts were fetched, or not.
    Posts { outcome: Result<Vec<AtRecord>, Error> },
    /// The labels were found, or not.
    Labels { outcome: Result<LabelCollection, Error> },
    /// The data host of the account, where it was found, and what was
    /// found of the likes and reposts of the post.
    Enriched {
        endpoint: Option<String>,
        likes: Result<(usize, Vec<UserInfo>), String>,
        reposts: Result<(usize, Vec<UserInfo>), String>,
    },
}

/// One step of an analysis: the milestones to tell, in order, and then the
/// task to do.
#[derive(Debug)]
pub struct Step {
    pub told: Vec<Milestone>,
    pub task: Task,
}

/// An analysis under way.
#[derive(Debug)]
pub struct Analysis {
    pub stage: Stage,
    /// Whose posts are analysed, as the reader named them.
    pub subject: Subject,
    /// The token that is shown to the label service, if any.
    pub auth_token: Option<String>,
    /// The identifier of the account, once it is known.
    pub did: Option<Did>,
    /// The posts that were fetched.
    pub posts: Vec<AtRecord>,
    /// The labels on the account.
    pub account: Vec<Label>,
    /// All labels found so far: those on the account, then those of each
    /// batch in order.
    pub combined: Vec<Label>,
    /// The batches of post URIs.
    pub batches: Vec<Vec<String>>,
    /// How many batches were answered.
    pub asked: usize,
    /// The places of the posts that are shown.
    pub chosen: Vec<usize>,
    /// How many of the shown posts are done.
    pub next: usize,
    /// How many posts were looked at.
    pub looked: usize,
    /// The shown posts that are done.
    pub shown: Vec<PostWithLabels>,
}

/// Whether `parts` are the batches of the URIs of `posts`.
pub open spec fn batches_posts(posts: Seq<AtRecord>, parts: Seq<Vec<String>>) -> bool {
    exists|uris: Seq<String>|
        uris.len() == posts.len() && (forall|i: int|
            0 <= i < uris.len() ==> #[trigger] uris[i] == posts[i].uri) && is_batching(
            uris,
            BATCH_SIZE as int,
            parts,
        )
}

/// What is said when a step is handed what its stage did not ask for.
pub open spec fn out_of_turn() -> Seq<char> {
    "Unexpected event for this stage of the analysis"@
}

/// The milestones that the looking at the posts from place `from` up to,
/// not including, place `to` tells, of `total` posts.
pub open spec fn reports(from: int, to: int, total: usize) -> Seq<Milestone>
    decreases to - from,
{
    if to <= from {
        Seq::empty()
    } else if reports_after((to as usize), total) {
        reports(from, to - 1, total).push(Milestone::Processing { done: to as usize, total })
    } else {
        reports(from, to - 1, total)
    }
}

/// Whether `labeler` is the client of the default service that shows
/// `token`.
pub open spec fn is_labeler_for(labeler: LabelerClient, token: Option<String>) -> bool {
    labeler.labeler_url@ == default_labeler() && optional_header(labeler.auth_token)
        == optional_header(token)
}

/// Whether `step` ends an analysis with the words `why`.
pub open spec fn fails_with(step: Step, why: Seq<char>) -> bool {
    step.task matches Task::Finished { outcome: Err(said) } && said@ == why
}

/// Whether `step` asks for the posts of `did` after telling `told`.
pub open spec fn asks_posts(step: Step, told: Seq<Milestone>, did: Did) -> bool {
    step.told@ == told && (step.task matches Task::FetchPosts { did: asked, max_posts } && asked
        == did && max_posts == ANALYSIS_LIMIT)
}

/// Whether `step` asks for the labels on `subjects` with `token`.
pub open spec fn asks_labels(step: Step, subjects: Seq<String>, token: Option<String>) -> bool {
    step.task matches Task::QueryLabels { labeler, subjects: asked } && asked@ == subjects
        && is_labeler_for(labeler, token)
}

impl Analysis {
    /// Whether the account is known and has posts.
    pub open spec fn has_posts(&self) -> bool {
        self.did is Some && 0 < self.posts@.len()
    }

    /// Whether the posts to show are chosen by what was found.
    pub open spec fn has_chosen(&self) -> bool {
        &&& self.chosen@.len() == self.selection().len()
        &&& forall|k: int| 0 <= k < self.chosen@.len() ==> #[trigger] self.chosen@[k] == self.selection()[k]
    }

    /// Whether every chosen place is that of a post.
    pub open spec fn chosen_in_range(&self) -> bool {
        forall|k: int| 0 <= k < self.chosen@.len() ==> #[trigger] self.chosen@[k] < self.posts@.len()
    }

    /// The places of the posts to show.
    pub open spec fn selection(&self) -> Seq<int> {
        selected_upto(
            self.posts@,
            self.combined@,
            self.account@.len() > 0,
            self.posts@.len() as int,
        )
    }

    /// What holds of an analysis at each stage.
    pub open spec fn well_formed(&self) -> bool {
        match self.stage {
            Stage::Start => !(self.subject is Post),
            Stage::Resolving => self.subject is Named,
            Stage::Fetching => self.did is Some,
            Stage::AskingAccount => self.has_posts() && self.asked == 0,
            Stage::AskingBatch => self.has_posts() && self.asked < self.batches@.len(),
            Stage::Showing => self.has_posts() && self.chosen_in_range() && self.next
                < self.chosen@.len() && self.shown@.len() == self.next && self.looked
                <= self.posts@.len(),
            Stage::Done => true,
        }
    }

    /// An analysis of the posts of the account that `input` names, showing
    /// `auth_token` to the label service. Nothing is done yet.
    pub fn new(input: &str, auth_token: Option<String>) -> (a: Self)
        ensures
            a.stage == Stage::Start,
            a.well_formed(),
            a.auth_token == auth_token,
            a.did is None,
            match a.subject {
                Subject::Account(did) => did.0@ == subject_text(input@) && has_prefix(
                    did.0@,
                    "did:"@,
                ),
                Subject::Named(handle) => handle.0@ == subject_text(input@) && !has_prefix(
                    handle.0@,
                    "did:"@,
                ),
                Subject::Post(_) => false,
            },
    {
        Analysis {
            stage: Stage::Start,
            subject: analysis_subject(input),
            auth_token,
            did: None,
            posts: Vec::new(),
            account: Vec::new(),
            combined: Vec::new(),
            batches: Vec::new(),
            asked: 0,
            chosen: Vec::new(),
            next: 0,
            looked: 0,
            shown: Vec::new(),
        }
    }

    fn labeler(&self) -> (l: LabelerClient)
        ensures
            is_labeler_for(l, self.auth_token),
    {
        LabelerClient::for_token(&self.auth_token)
    }

    fn finish(self, told: Vec<Milestone>, outcome: Result<(BulkAnalysisStats, Vec<PostWithLabels>), String>) -> (r:
        (Analysis, Step))
        ensures
            r.0.stage == Stage::Done,
            r.0.well_formed(),
            r.1.told == told,
            r.1.task == (Task::Finished { outcome }),
    {
        let mut a = self;
        a.stage = Stage::Done;
        (a, Step { told, task: Task::Finished { outcome } })
    }

    fn fetch(self, told: Vec<Milestone>, did: Did) -> (r: (Analysis, Step))
        ensures
            r.0.stage == Stage::Fetching,
            r.0.well_formed(),
            r.0.did == Some(did),
            r.0.auth_token == self.auth_token,
            asks_posts(r.1, told@.push(Milestone::FetchingPosts), did),
    {
        let mut a = self;
        let mut told = told;
        told.push(Milestone::FetchingPosts);
        a.stage = Stage::Fetching;
        a.did = Some(did.duplicate());
        (a, Step { told, task: Task::FetchPosts { did, max_posts: ANALYSIS_LIMIT } })
    }

    /// The first step: for a handle, its resolution; for an identifier, the
    /// fetching of the posts.
    fn begin(self) -> (r: (Analysis, Step))
        requires
            self.stage == Stage::Start,
            self.well_formed(),
        ensures
            begins(self, r.0, r.1),
    {
        let mut a = self;
        match &a.subject {
            Subject::Account(did) => {
                let did = did.duplicate();
                assert(Seq::<Milestone>::empty().push(Milestone::FetchingPosts) =~= seq![
                    Milestone::FetchingPosts,
                ]);
                a.fetch(Vec::new(), did)
            },
            Subject::Named(handle) => {
                let handle = Handle::new(handle.0.clone());
                a.stage = Stage::Resolving;
                let mut told: Vec<Milestone> = Vec::new();
                told.push(Milestone::ResolvingHandle);
                assert(told@ =~= seq![Milestone::ResolvingHandle]);
                (a, Step { told, task: Task::Resolve { handle } })
            },
            Subject::Post(_) => a.finish(Vec::new(), Err(String::new())),
        }
    }

    /// The step after the resolution: the fetching of the posts, or the end
    /// where the handle gave no identifier.
    fn resolved(self, outcome: Result<Did, Error>) -> (r: (Analysis, Step))
        requires
            self.stage == Stage::Resolving,
        ensures
            after_resolution(self, outcome, r.0, r.1),
    {
        match outcome {
            Ok(did) => {
                assert(Seq::<Milestone>::empty().push(Milestone::FetchingPosts) =~= seq![
                    Milestone::FetchingPosts,
                ]);
                self.fetch(Vec::new(), did)
            },
            Err(e) => {
                let why = resolution_failure(&e);
                self.finish(Vec::new(), Err(why))
            },
        }
    }

    /// The step after the fetching: the query for the labels on the
    /// account, or the end where there is no post or the fetching failed.
    fn fetched(self, outcome: Result<Vec<AtRecord>, Error>) -> (r: (Analysis, Step))
        requires
            self.stage == Stage::Fetching,
            self.well_formed(),
        ensures
            after_posts(self, outcome, r.0, r.1),
    {
        match outcome {
            Err(e) => {
                let why = fetch_failure(&e);
                self.finish(Vec::new(), Err(why))
            },
            Ok(posts) => {
                let mut told: Vec<Milestone> = Vec::new();
                told.push(Milestone::PostsFetched { count: posts.len() });
                assert(told@ =~= seq![Milestone::PostsFetched { count: posts.len() }]);
                if posts.len() == 0 {
                    let none: Vec<Label> = Vec::new();
                    let nothing = analyze_user_posts(&posts, &none, &none, Vec::new());
                    return self.finish(told, Ok(nothing));
                }
                told.push(Milestone::AccountLabels);
                assert(told@ =~= seq![
                    Milestone::PostsFetched { count: posts.len() },
                    Milestone::AccountLabels,
                ]);
                let mut a = self;
                let uris = post_uris(&posts);
                a.batches = batches(&uris, BATCH_SIZE);
                a.posts = posts;
                a.asked = 0;
                a.stage = Stage::AskingAccount;
                let labeler = a.labeler();
                let mut subjects: Vec<String> = Vec::new();
                let did = match &a.did {
                    Some(did) => did.0.clone(),
                    None => String::new(),
                };
                subjects.push(did);
                assert(subjects@ =~= seq![subjects@[0]]);
                assert(batches_posts(a.posts@, a.batches@)) by {
                    assert(is_batching(uris@, BATCH_SIZE as int, a.batches@));
                }
                (a, Step { told, task: Task::QueryLabels { labeler, subjects } })
            },
        }
    }

    /// The step once all labels before batch `self.asked` are in: the query
    /// for that batch, or, where there is none left, the choice of the posts
    /// to show and the first of them.
    fn ask_or_show(self) -> (r: (Analysis, Step))
        requires
            self.has_posts(),
            self.asked <= self.batches@.len(),
            self.stage == Stage::AskingAccount || self.stage == Stage::AskingBatch,
        ensures
            asks_or_shows(self, r.0, r.1),
    {
        let mut a = self;
        if a.asked < a.batches.len() {
            let mut told: Vec<Milestone> = Vec::new();
            told.push(Milestone::Batch { index: a.asked, total: a.batches.len() });
            assert(told@ =~= seq![Milestone::Batch { index: a.asked, total: a.batches.len() }]);
            let mut subjects: Vec<String> = Vec::new();
            let batch = &a.batches[a.asked];
            let mut i: usize = 0;
            while i < batch.len()
                invariant
                    i <= batch.len(),
                    subjects@ == batch@.subrange(0, i as int),
                decreases batch.len() - i,
            {
                subjects.push(batch[i].clone());
                i = i + 1;
                assert(batch@.subrange(0, i as int) == batch@.subrange(0, i as int - 1).push(
                    batch@[i as int - 1],
                ));
            }
            assert(batch@.subrange(0, batch@.len() as int) =~= batch@);
            a.stage = Stage::AskingBatch;
            let labeler = a.labeler();
            (a, Step { told, task: Task::QueryLabels { labeler, subjects } })
        } else {
            let mut told: Vec<Milestone> = Vec::new();
            told.push(Milestone::Analyzing);
            assert(told@ =~= seq![Milestone::Analyzing]);
            a.chosen = select_for_display(&a.posts, &a.combined, a.account.len() > 0);
            proof {
                labelled_posts_are_shown(
                    a.posts@,
                    a.combined@,
                    a.account@.len() > 0,
                    a.posts@.len() as int,
                    0,
                );
                assert forall|k: int| 0 <= k < a.chosen@.len() implies #[trigger] a.chosen@[k]
                    < a.posts@.len() by {
                    assert(a.chosen@[k] == a.selection()[k]);
                }
            }
            a.next = 0;
            a.looked = 0;
            a.shown = Vec::new();
            a.stage = Stage::Showing;
            a.show_next(told)
        }
    }

    /// The step after a query for labels: what it found joins the labels,
    /// and the next batch is asked for or the posts to show are chosen. A
    /// service that wants a credential ends the analysis.
    fn labelled(self, outcome: Result<LabelCollection, Error>) -> (r: (Analysis, Step))
        requires
            self.stage == Stage::AskingAccount || self.stage == Stage::AskingBatch,
            self.well_formed(),
        ensures
            after_labels(self, outcome, r.0, r.1),
    {
        match absorb(outcome) {
            Err(why) => self.finish(Vec::new(), Err(why)),
            Ok(labels) => {
                assert(self.stage == Stage::AskingBatch ==> self.asked < self.batches.len());
                assert(labels@ =~= labels_of(outcome)->0);
                let mut a = self;
                let mut labels = labels;
                match a.stage {
                    Stage::AskingAccount => {
                        a.account = duplicate_labels(&labels);
                        a.combined = labels;
                    },
                    _ => {
                        a.combined.append(&mut labels);
                        a.asked = a.asked + 1;
                    },
                }
                a.ask_or_show()
            },
        }
    }

    /// The step that goes on looking at the posts: up to the next post to
    /// show, which is then to be enriched, or to the end.
    fn show_next(self, told: Vec<Milestone>) -> (r: (Analysis, Step))
        requires
            self.stage == Stage::Showing,
            self.has_posts(),
            self.chosen_in_range(),
            self.next <= self.chosen@.len(),
            self.shown@.len() == self.next,
            self.looked <= self.posts@.len(),
        ensures
            shows_next(self, told@, r.0, r.1),
    {
        let mut a = self;
        let mut told = told;
        let total = a.posts.len();
        let ghost first = told@;
        let ghost from = a.looked as int;
        assert(told@ =~= first + reports(from, from, total));
        let upto: usize = if a.next < a.chosen.len() {
            a.chosen[a.next] + 1
        } else {
            total
        };
        while a.looked < upto
            invariant
                upto <= total,
                total == a.posts@.len(),
                from <= a.looked,
                a.looked <= upto || a.looked == from,
                told@ == first + reports(from, a.looked as int, total),
                a.stage == Stage::Showing,
                a.posts == self.posts,
                a.combined == self.combined,
                a.account == self.account,
                a.batches == self.batches,
                a.chosen == self.chosen,
                a.did == self.did,
                a.next == self.next,
                a.shown == self.shown,
                a.auth_token == self.auth_token,
            decreases upto - a.looked,
        {
            a.looked = a.looked + 1;
            if should_report(a.looked, total) {
                told.push(Milestone::Processing { done: a.looked, total });
            }
            assert(told@ =~= first + reports(from, a.looked as int, total));
        }
        if a.next < a.chosen.len() {
            let place = a.chosen[a.next];
            let uri = a.posts[place].uri.clone();
            let did = match &a.did {
                Some(did) => did.duplicate(),
                None => Did::new(String::new()),
            };
            (a, Step { told, task: Task::Enrich { did, uri } })
        } else {
            told.push(Milestone::Complete);
            let outcome = analyze_user_posts(&a.posts, &a.account, &a.combined, a.shown);
            a.shown = Vec::new();
            a.stage = Stage::Done;
            (a, Step { told, task: Task::Finished { outcome: Ok(outcome) } })
        }
    }

    /// The step after the enrichment of a post: the post joins those that
    /// are shown, and the looking at the posts goes on.
    fn enriched(
        self,
        endpoint: Option<String>,
        likes: Result<(usize, Vec<UserInfo>), String>,
        reposts: Result<(usize, Vec<UserInfo>), String>,
    ) -> (r: (Analysis, Step))
        requires
            self.stage == Stage::Showing,
            self.well_formed(),
        ensures
            after_enrichment(self, endpoint, likes, reposts, r.0, r.1),
    {
        assert(self.next < self.chosen.len());
        let mut a = self;
        let place = a.chosen[a.next];
        let post = &a.posts[place];
        let did = match &a.did {
            Some(did) => did.duplicate(),
            None => Did::new(String::new()),
        };
        let media = extract_media_urls(post, &did, &endpoint);
        let labels = labels_for(&a.combined, post.uri.as_str());
        let shown = enrich(post, labels, media, found_or_none(likes), found_or_none(reposts));
        let ghost joined = shown;
        assert(is_enriched(joined, self.posts@[place as int], self, endpoint, likes, reposts));
        a.shown.push(shown);
        a.next = a.next + 1;
        a.show_next(Vec::new())
    }

    /// Whether this analysis is as one of its stage has to be.
    pub fn sound(&self) -> (ok: bool)
        ensures
            ok == self.well_formed(),
    {
        match self.stage {
            Stage::Start => match &self.subject {
                Subject::Post(_) => false,
                _ => true,
            },
            Stage::Resolving => match &self.subject {
                Subject::Named(_) => true,
                _ => false,
            },
            Stage::Fetching => self.did.is_some(),
            Stage::AskingAccount => self.did.is_some() && self.posts.len() > 0 && self.asked == 0,
            Stage::AskingBatch => self.did.is_some() && self.posts.len() > 0 && self.asked
                < self.batches.len(),
            Stage::Showing => {
                if !(self.did.is_some() && self.posts.len() > 0 && self.next < self.chosen.len()
                    && self.shown.len() == self.next && self.looked <= self.posts.len()) {
                    return false;
                }
                let mut k: usize = 0;
                while k < self.chosen.len()
                    invariant
                        self.stage == Stage::Showing,
                        k <= self.chosen.len(),
                        forall|m: int| 0 <= m < k ==> #[trigger] self.chosen@[m] < self.posts@.len(),
                    decreases self.chosen.len() - k,
                {
                    if self.chosen[k] >= self.posts.len() {
                        return false;
                    }
                    k = k + 1;
                }
                true
            },
            Stage::Done => true,
        }
    }

    /// One step of the analysis: takes what the last task gave, and names
    /// the milestones to tell and the task to do next. What the stage did
    /// not ask for ends the analysis, and so does an analysis that is not
    /// as one of its stage has to be.
    pub fn advance(self, event: Event) -> (r: (Analysis, Step))
        ensures
            r.0.well_formed(),
            !self.well_formed() ==> r.0.stage == Stage::Done && r.1.told@.len() == 0 && fails_with(
                r.1,
                out_of_turn(),
            ),
            self.well_formed() ==> match (self.stage, event) {
                (Stage::Start, Event::Begin) => begins(self, r.0, r.1),
                (Stage::Resolving, Event::Resolved { outcome }) => after_resolution(
                    self,
                    outcome,
                    r.0,
                    r.1,
                ),
                (Stage::Fetching, Event::Posts { outcome }) => after_posts(self, outcome, r.0, r.1),
                (Stage::AskingAccount, Event::Labels { outcome }) => after_labels(
                    self,
                    outcome,
                    r.0,
                    r.1,
                ),
                (Stage::AskingBatch, Event::Labels { outcome }) => after_labels(
                    self,
                    outcome,
                    r.0,
                    r.1,
                ),
                (Stage::Showing, Event::Enriched { endpoint, likes, reposts }) => after_enrichment(
                    self,
                    endpoint,
                    likes,
                    reposts,
                    r.0,
                    r.1,
                ),
                _ => r.0.stage == Stage::Done && r.1.told@.len() == 0 && fails_with(
                    r.1,
                    out_of_turn(),
                ),
            },
    {
        if !self.sound() {
            return self.finish(
                Vec::new(),
                Err("Unexpected event for this stage of the analysis".to_owned()),
            );
        }
        match (self.stage, event) {
            (Stage::Start, Event::Begin) => self.begin(),
            (Stage::Resolving, Event::Resolved { outcome }) => self.resolved(outcome),
            (Stage::Fetching, Event::Posts { outcome }) => self.fetched(outcome),
            (Stage::AskingAccount, Event::Labels { outcome }) => self.labelled(outcome),
            (Stage::AskingBatch, Event::Labels { outcome }) => self.labelled(outcome),
            (Stage::Showing, Event::Enriched { endpoint, likes, reposts }) => self.enriched(
                endpoint,
                likes,
                reposts,
            ),
            _ => self.finish(
                Vec::new(),
                Err("Unexpected event for this stage of the analysis".to_owned()),
            ),
        }
    }
}

/// The first step of `before`: where the reader named a handle, its
/// resolution, told as such; where they named an identifier, the fetching
/// of its posts.
pub open spec fn begins(before: Analysis, after: Analysis, step: Step) -> bool {
    &&& after.well_formed()
    &&& after.auth_token == before.auth_token
    &&& match before.subject {
        Subject::Named(handle) => after.stage == Stage::Resolving && step.told@
            == seq![Milestone::ResolvingHandle] && (step.task matches Task::Resolve {
            handle: asked,
        } && asked.0@ == handle.0@),
        Subject::Account(did) => after.stage == Stage::Fetching && asks_posts(
            step,
            seq![Milestone::FetchingPosts],
            did,
        ),
        Subject::Post(_) => false,
    }
}

/// The step after the resolution gave `outcome`: the fetching of the posts
/// of the identifier, or the end with the words of the failure.
pub open spec fn after_resolution(
    before: Analysis,
    outcome: Result<Did, Error>,
    after: Analysis,
    step: Step,
) -> bool {
    &&& after.well_formed()
    &&& match outcome {
        Ok(did) => after.stage == Stage::Fetching && after.did == Some(did) && after.auth_token
            == before.auth_token && asks_posts(step, seq![Milestone::FetchingPosts], did),
        Err(e) => after.stage == Stage::Done && step.told@.len() == 0 && fails_with(
            step,
            "Failed to resolve handle: "@ + e.spec_message(),
        ),
    }
}

/// The step after the fetching gave `outcome`: the end with the words of a
/// failure; the end with empty statistics where there is no post; else the
/// posts are kept and batched, and the labels on the account are asked for.
pub open spec fn after_posts(
    before: Analysis,
    outcome: Result<Vec<AtRecord>, Error>,
    after: Analysis,
    step: Step,
) -> bool {
    &&& after.well_formed()
    &&& match outcome {
        Err(e) => after.stage == Stage::Done && step.told@.len() == 0 && fails_with(
            step,
            "Failed to fetch posts: "@ + e.spec_message(),
        ),
        Ok(posts) => if posts@.len() == 0 {
            &&& after.stage == Stage::Done
            &&& step.told@ == seq![Milestone::PostsFetched { count: 0 }]
            &&& step.task matches Task::Finished { outcome: Ok(found) }
            &&& found.0.total_posts == 0 && found.0.posts_with_labels == 0
            &&& found.0.labels_by_category@.len() == 0 && found.0.top_label_values@.len() == 0
            &&& found.0.account_labels@.len() == 0 && found.1@.len() == 0
        } else {
            &&& after.stage == Stage::AskingAccount
            &&& after.posts == posts
            &&& batches_posts(posts@, after.batches@)
            &&& after.did == before.did
            &&& after.auth_token == before.auth_token
            &&& step.told@ == seq![
                Milestone::PostsFetched { count: posts.len() },
                Milestone::AccountLabels,
            ]
            &&& step.task matches Task::QueryLabels { labeler, subjects }
            &&& is_labeler_for(labeler, before.auth_token)
            &&& subjects@.len() == 1
            &&& match before.did {
                Some(did) => subjects@[0]@ == did.0@,
                None => true,
            }
        },
    }
}

/// The step of an analysis whose labels before batch `before.asked` are in:
/// the query for that batch, told as such, or, where no batch is left, the
/// choice of the posts to show and the looking at them.
pub open spec fn asks_or_shows(before: Analysis, after: Analysis, step: Step) -> bool {
    &&& after.well_formed()
    &&& after.posts == before.posts
    &&& after.account == before.account
    &&& after.combined == before.combined
    &&& after.batches == before.batches
    &&& after.did == before.did
    &&& after.auth_token == before.auth_token
    &&& if before.asked < before.batches@.len() {
        &&& after.stage == Stage::AskingBatch
        &&& after.asked == before.asked
        &&& step.told@ == seq![
            Milestone::Batch { index: before.asked, total: before.batches.len() },
        ]
        &&& asks_labels(step, before.batches@[before.asked as int]@, before.auth_token)
    } else {
        &&& after.has_chosen()
        &&& shows_from(before.posts, 0, 0, after, step, seq![Milestone::Analyzing])
    }
}

/// The step after a query for labels gave `outcome`. A service that wants
/// a credential ends the analysis with the words of its error. Else what
/// the query found, or nothing where it failed, joins the labels: as the
/// labels on the account after the first query, behind all others after a
/// query for a batch. Then the next batch is asked for, or the posts to
/// show are chosen.
pub open spec fn after_labels(
    before: Analysis,
    outcome: Result<LabelCollection, Error>,
    after: Analysis,
    step: Step,
) -> bool {
    &&& after.well_formed()
    &&& match labels_of(outcome) {
        None => after.stage == Stage::Done && step.told@.len() == 0 && (
        step.task matches Task::Finished { outcome: Err(said) } && stops(outcome, said@)),
        Some(found) => {
            &&& after.posts == before.posts
            &&& after.batches == before.batches
            &&& after.did == before.did
            &&& after.auth_token == before.auth_token
            &&& if before.stage == Stage::AskingAccount {
                after.account@ == found && after.combined@ == found
            } else {
                after.account == before.account && after.combined@ == before.combined@ + found
            }
            &&& {
                let answered = if before.stage == Stage::AskingAccount {
                    0
                } else {
                    before.asked + 1
                };
                if answered < before.batches@.len() {
                    &&& after.stage == Stage::AskingBatch
                    &&& after.asked == answered
                    &&& step.told@ == seq![
                        Milestone::Batch { index: answered as usize, total: before.batches.len() },
                    ]
                    &&& asks_labels(step, before.batches@[answered]@, before.auth_token)
                } else {
                    &&& after.has_chosen()
                    &&& shows_from(before.posts, 0, 0, after, step, seq![Milestone::Analyzing])
                }
            }
        },
    }
}

/// Whether `step` is the looking at `posts` from place `looked` on, with
/// `next` of the chosen posts done: after `first` it tells what the posts
/// up to the next chosen one report, and asks for that one's enrichment;
/// or, where none is left, it tells what the rest report and the
/// completion, and ends the analysis with its statistics and the shown
/// posts in the order of display.
pub open spec fn shows_from(
    posts: Vec<AtRecord>,
    looked: int,
    next: int,
    after: Analysis,
    step: Step,
    first: Seq<Milestone>,
) -> bool {
    let told = step.told@;
    let total = posts@.len() as usize;
    if next < after.chosen@.len() {
        let place = after.chosen@[next] as int;
        &&& after.stage == Stage::Showing
        &&& after.next == next
        &&& after.shown@.len() == next
        &&& told == first + reports(looked, place + 1, total)
        &&& step.task matches Task::Enrich { did, uri }
        &&& 0 <= place < posts@.len() && uri == posts@[place].uri
        &&& after.did is Some ==> did == after.did->0
    } else {
        &&& after.stage == Stage::Done
        &&& told == (first + reports(looked, total as int, total)).push(Milestone::Complete)
        &&& step.task matches Task::Finished { outcome: Ok(found) }
        &&& is_stats_of(found.0, total, after.combined@, after.account@)
        &&& found.1@.len() == after.chosen@.len()
    }
}

/// The step that goes on looking at the posts, after telling `first`.
pub open spec fn shows_next(before: Analysis, first: Seq<Milestone>, after: Analysis, step: Step) -> bool {
    &&& after.well_formed()
    &&& after.posts == before.posts
    &&& after.account == before.account
    &&& after.combined == before.combined
    &&& after.batches == before.batches
    &&& after.chosen == before.chosen
    &&& after.did == before.did
    &&& after.auth_token == before.auth_token
    &&& shows_from(before.posts, before.looked as int, before.next as int, after, step, first)
    &&& before.next < before.chosen@.len() ==> after.shown == before.shown
    &&& before.next >= before.chosen@.len() ==> (step.task matches Task::Finished {
        outcome: Ok(found),
    } && exists|order: Seq<int>| is_stable_sort(before.shown@, found.1@, order))
}

/// The step after the enrichment of the chosen post at `before.next`: the
/// post joins the shown ones with its labels in force, with the media that
/// it embeds, served by `endpoint`, and with the likes and reposts that
/// were found, nothing standing for what was not; then the looking at the
/// posts goes on behind it.
pub open spec fn after_enrichment(
    before: Analysis,
    endpoint: Option<String>,
    likes: Result<(usize, Vec<UserInfo>), String>,
    reposts: Result<(usize, Vec<UserInfo>), String>,
    after: Analysis,
    step: Step,
) -> bool {
    let place = before.chosen@[before.next as int] as int;
    let post = before.posts@[place];
    &&& after.well_formed()
    &&& 0 <= place < before.posts@.len()
    &&& after.posts == before.posts
    &&& after.account == before.account
    &&& after.combined == before.combined
    &&& after.chosen == before.chosen
    &&& exists|shown: PostWithLabels|
        {
            &&& is_enriched(shown, post, before, endpoint, likes, reposts)
            &&& if before.next + 1 < before.chosen@.len() {
                after.shown@ == before.shown@.push(shown)
            } else {
                step.task matches Task::Finished { outcome: Ok(found) } && exists|order: Seq<int>|
                    is_stable_sort(before.shown@.push(shown), found.1@, order)
            }
        }
    &&& shows_from(
        before.posts,
        before.looked as int,
        before.next + 1,
        after,
        step,
        Seq::empty(),
    )
}

/// Whether `shown` is `post` as it is shown by the analysis `a`.
pub open spec fn is_enriched(
    shown: PostWithLabels,
    post: AtRecord,
    a: Analysis,
    endpoint: Option<String>,
    likes: Result<(usize, Vec<UserInfo>), String>,
    reposts: Result<(usize, Vec<UserInfo>), String>,
) -> bool {
    &&& shown.uri == post.uri
    &&& shown.text@ == text_or_empty(post.value, "text"@)
    &&& shown.created_at@ == text_or_empty(post.value, "createdAt"@)
    &&& shown.labels@ == active_on(a.combined@, post.uri@)
    &&& match (endpoint, a.did) {
        (Some(host), Some(did)) => views(shown.image_urls@) == embedded_images(
            post.value,
            host@,
            did.0@,
        ) && optional_view(shown.video_url) == embedded_video(post.value, host@, did.0@),
        (None, _) => shown.image_urls@.len() == 0 && shown.video_url is None,
        _ => true,
    }
    &&& shown.has_media == (shown.image_urls@.len() > 0 || shown.video_url is Some)
    &&& match likes {
        Ok(found) => shown.like_count == found.0 && shown.likers == found.1,
        Err(_) => shown.like_count == 0 && shown.likers@.len() == 0,
    }
    &&& match reposts {
        Ok(found) => shown.repost_count == found.0 && shown.reposters == found.1,
        Err(_) => shown.repost_count == 0 && shown.reposters@.len() == 0,
    }
}

} // verus!
