//! One guild's playback state: the pending sources, the track that is
//! playing, the bound channels and the words that skip a track.
//!
//! Every change of that state is a method of [`GuildQueue`]. A method that
//! reacts to an event returns a [`Decision`], which tells the caller what to
//! do next; the caller performs it and reports back with the next event.

use crate::playback_window::PlaybackWindow;
use crate::text::{contains_text, joined_text, lines_text};
use std::collections::VecDeque;
use vstd::prelude::*;
use vstd::string::StringExecFns;

verus! {

/// Second at which a track that was taken from the queue starts.
pub const QUEUE_START: u64 = 10;

/// Seconds that a track taken from the queue is played for.
pub const QUEUE_LENGTH: u64 = 20;

/// The window that every track taken from the queue is played with.
pub open spec fn queue_window() -> PlaybackWindow {
    PlaybackWindow { start: QUEUE_START, length: QUEUE_LENGTH }
}

/// Where a guild stands between two tracks.
#[derive(Clone, Copy, Debug, PartialEq, Eq, Structural)]
pub enum Phase {
    /// Nothing is playing and nothing is being fetched.
    Idle,
    /// A source has been taken and its audio is being fetched.
    Loading,
    /// A track is playing.
    Playing,
}

/// What the caller has to do after an event.
#[derive(Clone, Debug, PartialEq, Eq)]
pub enum Decision {
    /// The guild is loading now: fetch `id` and play `window` of it.
    Acquire { id: String, window: PlaybackWindow },
    /// The source was stored behind the track that is playing.
    Queued,
    /// Another fetch is in flight; nothing was changed.
    Busy,
    /// A track is playing; nothing was changed.
    AlreadyPlaying,
    /// There is nothing to play; nothing was changed.
    NothingQueued,
    /// The queue has run dry and the guild is idle again.
    Exhausted,
    /// The event does not belong to the present phase; nothing was changed.
    Ignored,
}

/// [`Decision`] with its identifier as a sequence of characters.
pub enum DecisionView {
    Acquire { id: Seq<char>, window: PlaybackWindow },
    Queued,
    Busy,
    AlreadyPlaying,
    NothingQueued,
    Exhausted,
    Ignored,
}

impl View for Decision {
    type V = DecisionView;

    open spec fn view(&self) -> DecisionView {
        match self {
            Decision::Acquire { id, window } => DecisionView::Acquire { id: id@, window: *window },
            Decision::Queued => DecisionView::Queued,
            Decision::Busy => DecisionView::Busy,
            Decision::AlreadyPlaying => DecisionView::AlreadyPlaying,
            Decision::NothingQueued => DecisionView::NothingQueued,
            Decision::Exhausted => DecisionView::Exhausted,
            Decision::Ignored => DecisionView::Ignored,
        }
    }
}

/// The state of one guild as a mathematical value. `H` is the handle of a
/// playing track.
pub struct GuildQueueView<H> {
    pub gid: u64,
    pub voice_channel: Option<u64>,
    pub chat_channel: Option<u64>,
    /// The sources that wait, oldest first.
    pub pending: Seq<Seq<char>>,
    pub now_playing: Option<H>,
    /// Whether a fetch is in flight.
    pub loading: bool,
    /// The words that skip a track.
    pub skip_keyword: Option<Seq<Seq<char>>>,
    /// The skip words of the request whose track is being fetched. They
    /// replace the guild's skip words when that track starts to play.
    pub requested_skip_keyword: Option<Seq<Seq<char>>>,
}

impl<H> GuildQueueView<H> {
    /// A track is never playing while another is being fetched, and skip
    /// words wait for a track only while one is being fetched.
    pub open spec fn wf(self) -> bool {
        &&& !(self.loading && self.now_playing is Some)
        &&& self.requested_skip_keyword is Some ==> self.loading
    }

    /// The state of a guild that nothing has happened in yet.
    pub open spec fn fresh(gid: u64) -> Self {
        GuildQueueView {
            gid,
            voice_channel: None,
            chat_channel: None,
            pending: Seq::empty(),
            now_playing: None,
            loading: false,
            skip_keyword: None,
            requested_skip_keyword: None,
        }
    }

    /// Where the guild stands.
    pub open spec fn phase(self) -> Phase {
        if self.now_playing is Some {
            Phase::Playing
        } else if self.loading {
            Phase::Loading
        } else {
            Phase::Idle
        }
    }

    /// `id` joins the queue at its back.
    pub open spec fn enqueue(self, id: Seq<char>) -> Self {
        GuildQueueView { pending: self.pending.push(id), ..self }
    }

    /// The oldest waiting source leaves the queue.
    pub open spec fn pop_next(self) -> (Self, Option<Seq<char>>) {
        if self.pending.len() > 0 {
            (GuildQueueView { pending: self.pending.drop_first(), ..self }, Some(self.pending[0]))
        } else {
            (self, None)
        }
    }

    /// The oldest waiting source is taken and the guild starts loading it.
    /// Meant for a queue that is not empty.
    pub open spec fn load_front(self) -> (Self, DecisionView) {
        (
            GuildQueueView {
                pending: self.pending.drop_first(),
                now_playing: None,
                loading: true,
                requested_skip_keyword: None,
                ..self
            },
            DecisionView::Acquire { id: self.pending[0], window: queue_window() },
        )
    }

    /// A request to play the queue.
    pub open spec fn advance(self) -> (Self, DecisionView) {
        match self.phase() {
            Phase::Loading => (self, DecisionView::Busy),
            Phase::Playing => (self, DecisionView::AlreadyPlaying),
            Phase::Idle => if self.pending.len() == 0 {
                (self, DecisionView::NothingQueued)
            } else {
                self.load_front()
            },
        }
    }

    /// A request to play `id`. In an idle guild the source joins the queue
    /// and the oldest waiting source is taken. `window` and `skip_keyword`
    /// hold for `id` itself: they count where the queue was empty, so that
    /// `id` is what is taken.
    pub open spec fn play(
        self,
        id: Seq<char>,
        window: PlaybackWindow,
        skip_keyword: Option<Seq<Seq<char>>>,
    ) -> (Self, DecisionView) {
        match self.phase() {
            Phase::Loading => (self, DecisionView::Busy),
            Phase::Playing => (self.enqueue(id), DecisionView::Queued),
            Phase::Idle => if self.pending.len() == 0 {
                (
                    GuildQueueView { loading: true, requested_skip_keyword: skip_keyword, ..self },
                    DecisionView::Acquire { id, window },
                )
            } else {
                self.enqueue(id).load_front()
            },
        }
    }

    /// The fetch has delivered a track, which `handle` stands for. It is
    /// taken only by a guild that is loading. The skip words of the request
    /// come into force with it, where the request had any.
    pub open spec fn acquired(self, handle: H) -> (Self, bool) {
        if self.phase() == Phase::Loading {
            (
                GuildQueueView {
                    now_playing: Some(handle),
                    loading: false,
                    skip_keyword: if self.requested_skip_keyword is Some {
                        self.requested_skip_keyword
                    } else {
                        self.skip_keyword
                    },
                    requested_skip_keyword: None,
                    ..self
                },
                true,
            )
        } else {
            (self, false)
        }
    }

    /// The fetch has failed. The failed source is not tried again: the next
    /// waiting one is, and without one the guild is idle.
    pub open spec fn acquisition_failed(self) -> (Self, DecisionView) {
        if self.phase() != Phase::Loading {
            (self, DecisionView::Ignored)
        } else if self.pending.len() == 0 {
            (
                GuildQueueView { loading: false, requested_skip_keyword: None, ..self },
                DecisionView::Exhausted,
            )
        } else {
            self.load_front()
        }
    }

    /// The playing track has come to its end, by itself or because it was
    /// stopped.
    pub open spec fn track_ended(self) -> (Self, DecisionView) {
        if self.phase() != Phase::Playing {
            (self, DecisionView::Ignored)
        } else if self.pending.len() == 0 {
            (
                GuildQueueView { now_playing: None, requested_skip_keyword: None, ..self },
                DecisionView::Exhausted,
            )
        } else {
            self.load_front()
        }
    }

    /// The bot has left the guild's voice channel. The waiting sources stay
    /// unless `clear_pending` is set.
    pub open spec fn disconnect(self, clear_pending: bool) -> Self {
        GuildQueueView {
            voice_channel: None,
            chat_channel: None,
            pending: if clear_pending {
                Seq::empty()
            } else {
                self.pending
            },
            now_playing: None,
            loading: false,
            requested_skip_keyword: None,
            ..self
        }
    }
}

/// The playback state of one guild. `H` is the handle of a playing track;
/// the queue keeps it and hands it back, and never looks inside.
#[derive(Debug)]
pub struct GuildQueue<H> {
    gid: u64,
    voice_channel: Option<u64>,
    chat_channel: Option<u64>,
    url_queue: VecDeque<String>,
    track: Track<H>,
    skip_keyword: Option<Vec<String>>,
}

/// What the guild's voice session is doing.
#[derive(Debug)]
enum Track<H> {
    Idle,
    /// A track is being fetched, for a request with these skip words.
    Loading(Option<Vec<String>>),
    Playing(H),
}

impl<H> View for GuildQueue<H> {
    type V = GuildQueueView<H>;

    closed spec fn view(&self) -> GuildQueueView<H> {
        GuildQueueView {
            gid: self.gid,
            voice_channel: self.voice_channel,
            chat_channel: self.chat_channel,
            pending: self.url_queue.deep_view(),
            now_playing: match self.track {
                Track::Playing(handle) => Some(handle),
                _ => None,
            },
            loading: self.track is Loading,
            skip_keyword: self.skip_keyword.deep_view(),
            requested_skip_keyword: match self.track {
                Track::Loading(words) => words.deep_view(),
                _ => None,
            },
        }
    }
}

impl<H> GuildQueue<H> {
    /// Every queue is well formed, whatever was done to it.
    pub proof fn lemma_wf(&self)
        ensures
            self@.wf(),
    {
    }

    /// The state of a guild in which nothing has happened yet.
    pub fn new(gid: u64) -> (q: Self)
        ensures
            q@ == GuildQueueView::<H>::fresh(gid),
    {
        let q = GuildQueue {
            gid,
            voice_channel: None,
            chat_channel: None,
            url_queue: VecDeque::new(),
            track: Track::Idle,
            skip_keyword: None,
        };
        assert(q.url_queue.deep_view() =~= Seq::<Seq<char>>::empty());
        q
    }

    /// The number of the guild.
    pub fn gid(&self) -> (gid: u64)
        ensures
            gid == self@.gid,
    {
        self.gid
    }

    /// The voice channel that the bot is bound to.
    pub fn voice_channel(&self) -> (channel: Option<u64>)
        ensures
            channel == self@.voice_channel,
    {
        self.voice_channel
    }

    /// The text channel in which the bot listens for skip words.
    pub fn chat_channel(&self) -> (channel: Option<u64>)
        ensures
            channel == self@.chat_channel,
    {
        self.chat_channel
    }

    /// The handle of the track that is playing.
    pub fn now_playing(&self) -> (handle: Option<&H>)
        ensures
            handle.is_some() == self@.now_playing.is_some(),
            handle matches Some(h) ==> self@.now_playing == Some(*h),
    {
        match &self.track {
            Track::Playing(handle) => Some(handle),
            _ => None,
        }
    }

    /// Where the guild stands.
    pub fn phase(&self) -> (phase: Phase)
        ensures
            phase == self@.phase(),
    {
        match &self.track {
            Track::Idle => Phase::Idle,
            Track::Loading(_) => Phase::Loading,
            Track::Playing(_) => Phase::Playing,
        }
    }

    /// How many sources wait.
    pub fn pending_len(&self) -> (n: usize)
        ensures
            n == self@.pending.len(),
    {
        self.url_queue.len()
    }

    /// The waiting sources, oldest first, one on each line.
    pub fn listing(&self) -> (text: String)
        ensures
            text@ == lines_text(self@.pending),
    {
        let mut text = String::new();
        let ghost all = self.url_queue.deep_view();
        let mut i: usize = 0;
        while i < self.url_queue.len()
            invariant
                i <= self.url_queue.len(),
                all == self.url_queue.deep_view(),
                text@ == joined_text(all.take(i as int), '\n'),
            decreases self.url_queue.len() - i,
        {
            proof {
                reveal_strlit("\n");
                assert(all.take(i + 1).drop_last() =~= all.take(i as int));
            }
            if i > 0 {
                text.append("\n");
            }
            text.append(self.url_queue[i].as_str());
            i = i + 1;
        }
        assert(all.take(self.url_queue.len() as int) =~= all);
        text
    }

    /// Puts `id` at the back of the queue.
    pub fn enqueue(&mut self, id: String)
        ensures
            final(self)@ == old(self)@.enqueue(id@),
    {
        self.url_queue.push_back(id);
        assert(self.url_queue.deep_view() =~= old(self).url_queue.deep_view().push(id@));
    }

    /// Takes the oldest waiting source out of the queue.
    pub fn pop_next(&mut self) -> (id: Option<String>)
        ensures
            (final(self)@, id.deep_view()) == old(self)@.pop_next(),
    {
        let id = self.url_queue.pop_front();
        assert(self.url_queue.deep_view() =~= old(self)@.pop_next().0.pending);
        id
    }
}

impl<H> GuildQueue<H> {
    /// Takes the track slot, leaving `with` in its place, and returns the
    /// handle that was in it.
    fn swap_track(&mut self, with: Track<H>) -> (before: Option<H>)
        ensures
            final(self).track == with,
            final(self).gid == old(self).gid,
            final(self).voice_channel == old(self).voice_channel,
            final(self).chat_channel == old(self).chat_channel,
            final(self).url_queue == old(self).url_queue,
            final(self).skip_keyword == old(self).skip_keyword,
            before == old(self)@.now_playing,
    {
        let mut slot = with;
        std::mem::swap(&mut self.track, &mut slot);
        match slot {
            Track::Playing(handle) => Some(handle),
            _ => None,
        }
    }

    /// Records `handle` as the playing track, whatever the guild was doing.
    /// The handle that it replaces is handed back.
    pub fn set_now_playing(&mut self, handle: H) -> (before: Option<H>)
        ensures
            final(self)@ == (GuildQueueView {
                now_playing: Some(handle),
                loading: false,
                requested_skip_keyword: None,
                ..old(self)@
            }),
            before == old(self)@.now_playing,
    {
        self.swap_track(Track::Playing(handle))
    }

    /// Forgets the playing track, and a fetch that may be in flight. The
    /// handle that was playing is handed back.
    pub fn clear_now_playing(&mut self) -> (before: Option<H>)
        ensures
            final(self)@ == (GuildQueueView {
                now_playing: None,
                loading: false,
                requested_skip_keyword: None,
                ..old(self)@
            }),
            before == old(self)@.now_playing,
    {
        self.swap_track(Track::Idle)
    }

    /// Binds the guild to a voice channel and a text channel.
    pub fn set_channels(&mut self, voice: Option<u64>, text: Option<u64>)
        ensures
            final(self)@ == (GuildQueueView {
                voice_channel: voice,
                chat_channel: text,
                ..old(self)@
            }),
    {
        self.voice_channel = voice;
        self.chat_channel = text;
    }

    /// Sets the words that skip the playing track.
    pub fn set_skip_keyword(&mut self, words: Option<Vec<String>>)
        ensures
            final(self)@ == (GuildQueueView { skip_keyword: words.deep_view(), ..old(self)@ }),
    {
        self.skip_keyword = words;
    }

    /// The handle that has to be stopped to skip the playing track. Stopping
    /// it ends the track, and the end is reported with `track_ended`.
    pub fn skip(&self) -> (handle: Option<&H>)
        ensures
            handle.is_some() == self@.now_playing.is_some(),
            handle matches Some(h) ==> self@.now_playing == Some(*h),
    {
        self.now_playing()
    }

    /// Whether `word` is one of the words that skip a track.
    pub fn skips_on(&self, word: &str) -> (found: bool)
        ensures
            found == (self@.skip_keyword matches Some(words) && words.contains(word@)),
    {
        match &self.skip_keyword {
            None => false,
            Some(words) => contains_text(words, word),
        }
    }

    /// Starts loading the oldest waiting source.
    fn load_front(&mut self) -> (decision: Decision)
        requires
            old(self)@.pending.len() > 0,
        ensures
            (final(self)@, decision@) == old(self)@.load_front(),
    {
        let id = self.url_queue.pop_front();
        assert(self.url_queue.deep_view() =~= old(self)@.pending.drop_first());
        self.track = Track::Loading(None);
        match id {
            Some(id) => Decision::Acquire {
                id,
                window: PlaybackWindow { start: QUEUE_START, length: QUEUE_LENGTH },
            },
            None => Decision::Ignored,
        }
    }

    /// Reacts to a request to play the queue.
    pub fn advance(&mut self) -> (decision: Decision)
        ensures
            (final(self)@, decision@) == old(self)@.advance(),
    {
        match &self.track {
            Track::Loading(_) => Decision::Busy,
            Track::Playing(_) => Decision::AlreadyPlaying,
            Track::Idle => {
                if self.url_queue.len() == 0 {
                    Decision::NothingQueued
                } else {
                    self.load_front()
                }
            },
        }
    }

    /// Reacts to a request to play `id`, made with the skip words
    /// `skip_keyword`.
    pub fn play(
        &mut self,
        id: String,
        window: PlaybackWindow,
        skip_keyword: Option<Vec<String>>,
    ) -> (decision: Decision)
        ensures
            (final(self)@, decision@) == old(self)@.play(id@, window, skip_keyword.deep_view()),
    {
        match &self.track {
            Track::Loading(_) => Decision::Busy,
            Track::Playing(_) => {
                self.enqueue(id);
                Decision::Queued
            },
            Track::Idle => {
                if self.url_queue.len() == 0 {
                    self.track = Track::Loading(skip_keyword);
                    Decision::Acquire { id, window }
                } else {
                    self.enqueue(id);
                    self.load_front()
                }
            },
        }
    }

    /// Takes the track that a fetch has delivered. A guild that is not
    /// loading does not take it and hands `handle` back, for the caller to
    /// stop.
    pub fn acquired(&mut self, handle: H) -> (refused: Option<H>)
        ensures
            final(self)@ == old(self)@.acquired(handle).0,
            refused.is_none() == old(self)@.acquired(handle).1,
            refused matches Some(h) ==> h == handle,
    {
        match &self.track {
            Track::Loading(_) => {
                let mut slot = Track::Playing(handle);
                std::mem::swap(&mut self.track, &mut slot);
                if let Track::Loading(Some(words)) = slot {
                    self.skip_keyword = Some(words);
                }
                None
            },
            _ => Some(handle),
        }
    }

    /// Reacts to a fetch that has failed.
    pub fn acquisition_failed(&mut self) -> (decision: Decision)
        ensures
            (final(self)@, decision@) == old(self)@.acquisition_failed(),
    {
        match &self.track {
            Track::Loading(_) => {
                if self.url_queue.len() == 0 {
                    self.track = Track::Idle;
                    Decision::Exhausted
                } else {
                    self.load_front()
                }
            },
            _ => Decision::Ignored,
        }
    }

    /// Reacts to the end of the playing track.
    pub fn track_ended(&mut self) -> (decision: Decision)
        ensures
            (final(self)@, decision@) == old(self)@.track_ended(),
    {
        match &self.track {
            Track::Playing(_) => {
                if self.url_queue.len() == 0 {
                    self.track = Track::Idle;
                    Decision::Exhausted
                } else {
                    self.load_front()
                }
            },
            _ => Decision::Ignored,
        }
    }

    /// Reacts to the bot leaving the voice channel. The handle of the track
    /// that was playing is handed back, for the caller to stop.
    pub fn disconnect(&mut self, clear_pending: bool) -> (stopped: Option<H>)
        ensures
            final(self)@ == old(self)@.disconnect(clear_pending),
            stopped == old(self)@.now_playing,
    {
        self.voice_channel = None;
        self.chat_channel = None;
        if clear_pending {
            self.url_queue.clear();
            assert(self.url_queue.deep_view() =~= Seq::<Seq<char>>::empty());
        }
        self.swap_track(Track::Idle)
    }
}

impl<H> GuildQueueView<H> {
    /// Every source of `ids` joins the queue, the first one first.
    pub open spec fn enqueue_all(self, ids: Seq<Seq<char>>) -> Self
        decreases ids.len(),
    {
        if ids.len() == 0 {
            self
        } else {
            self.enqueue(ids[0]).enqueue_all(ids.drop_first())
        }
    }

    /// What `count` calls of `pop_next` return, one after the other.
    pub open spec fn popped(self, count: nat) -> Seq<Option<Seq<char>>>
        decreases count,
    {
        if count == 0 {
            Seq::empty()
        } else {
            seq![self.pop_next().1] + self.pop_next().0.popped((count - 1) as nat)
        }
    }
}

/// Enqueueing puts the new sources behind those that wait, in their order.
pub proof fn lemma_enqueue_all_appends<H>(q: GuildQueueView<H>, ids: Seq<Seq<char>>)
    ensures
        q.enqueue_all(ids) == (GuildQueueView { pending: q.pending + ids, ..q }),
    decreases ids.len(),
{
    if ids.len() > 0 {
        lemma_enqueue_all_appends(q.enqueue(ids[0]), ids.drop_first());
        assert(q.pending.push(ids[0]) + ids.drop_first() =~= q.pending + ids);
    }
}

/// Popping hands out the waiting sources oldest first, and `None` from then
/// on.
pub proof fn lemma_popped_in_order<H>(q: GuildQueueView<H>, count: nat)
    ensures
        q.popped(count).len() == count,
        forall|i: int|
            0 <= i < count ==> #[trigger] q.popped(count)[i] == if i < q.pending.len() {
                Some(q.pending[i])
            } else {
                None
            },
    decreases count,
{
    if count > 0 {
        let rest = q.pop_next().0;
        lemma_popped_in_order(rest, (count - 1) as nat);
    }
}

/// First in, first out: the sources that were put into an empty queue come
/// out in the order in which they went in, and after the last of them the
/// queue gives nothing.
pub proof fn lemma_fifo<H>(q: GuildQueueView<H>, ids: Seq<Seq<char>>)
    requires
        q.pending.len() == 0,
    ensures
        q.enqueue_all(ids).popped(ids.len() + 1) == ids.map_values(|id: Seq<char>| Some(id)).push(
            None,
        ),
{
    lemma_enqueue_all_appends(q, ids);
    lemma_popped_in_order(q.enqueue_all(ids), ids.len() + 1);
}

/// A request to play in an idle guild with an empty queue starts a fetch of
/// the requested source. When the fetch delivers, the track is playing; when
/// it fails, the guild is idle again.
pub proof fn lemma_play_from_idle<H>(
    q: GuildQueueView<H>,
    id: Seq<char>,
    window: PlaybackWindow,
    skip_keyword: Option<Seq<Seq<char>>>,
    handle: H,
)
    requires
        q.wf(),
        q.phase() == Phase::Idle,
        q.pending.len() == 0,
    ensures
        q.play(id, window, skip_keyword).1 == (DecisionView::Acquire { id, window }),
        q.play(id, window, skip_keyword).0.phase() == Phase::Loading,
        q.play(id, window, skip_keyword).0.now_playing is None,
        q.play(id, window, skip_keyword).0.acquired(handle).1,
        q.play(id, window, skip_keyword).0.acquired(handle).0.phase() == Phase::Playing,
        q.play(id, window, skip_keyword).0.acquired(handle).0.now_playing == Some(handle),
        q.play(id, window, skip_keyword).0.acquisition_failed().1 == DecisionView::Exhausted,
        q.play(id, window, skip_keyword).0.acquisition_failed().0.phase() == Phase::Idle,
        q.play(id, window, skip_keyword).0.acquisition_failed().0 == q,
{
}

/// The skip words of a request come into force when its track starts to
/// play, and not before; a request without skip words leaves those of the
/// guild in force; and a request whose track cannot be had changes none.
pub proof fn lemma_skip_words_follow_the_track<H>(
    q: GuildQueueView<H>,
    id: Seq<char>,
    window: PlaybackWindow,
    skip_keyword: Option<Seq<Seq<char>>>,
    handle: H,
)
    requires
        q.wf(),
        q.phase() == Phase::Idle,
        q.pending.len() == 0,
    ensures
        q.play(id, window, skip_keyword).0.skip_keyword == q.skip_keyword,
        q.play(id, window, skip_keyword).0.acquired(handle).0.skip_keyword == if skip_keyword
            is Some {
            skip_keyword
        } else {
            q.skip_keyword
        },
        q.play(id, window, skip_keyword).0.acquisition_failed().0.skip_keyword == q.skip_keyword,
{
}

/// While a fetch is in flight no second one starts: every request to play and
/// every end of a track leaves the guild as it is.
pub proof fn lemma_single_flight<H>(
    q: GuildQueueView<H>,
    id: Seq<char>,
    window: PlaybackWindow,
    skip_keyword: Option<Seq<Seq<char>>>,
)
    requires
        q.phase() == Phase::Loading,
    ensures
        q.advance() == (q, DecisionView::Busy),
        q.play(id, window, skip_keyword) == (q, DecisionView::Busy),
        q.track_ended() == (q, DecisionView::Ignored),
{
}

/// A request that starts a fetch leaves the guild loading, so the request
/// that follows it is turned away.
pub proof fn lemma_second_trigger_rejected<H>(q: GuildQueueView<H>)
    requires
        q.advance().1 is Acquire,
    ensures
        q.advance().0.phase() == Phase::Loading,
        q.advance().0.advance() == (q.advance().0, DecisionView::Busy),
{
}

/// A track is recorded as playing only by the guild that waits for it: while
/// one is playing, or while the guild is idle, a delivered track is refused
/// and nothing changes.
pub proof fn lemma_no_second_track<H>(q: GuildQueueView<H>, handle: H)
    requires
        q.phase() != Phase::Loading,
    ensures
        q.acquired(handle) == (q, false),
{
}

/// After a failed fetch the guild either tries a source that had been
/// waiting, which leaves one fewer of them, or is idle.
pub proof fn lemma_failure_makes_progress<H>(q: GuildQueueView<H>)
    requires
        q.phase() == Phase::Loading,
    ensures
        q.acquisition_failed().1 is Acquire ==> q.acquisition_failed().0.pending.len() + 1
            == q.pending.len() && q.acquisition_failed().0.phase() == Phase::Loading,
        !(q.acquisition_failed().1 is Acquire) ==> q.acquisition_failed().0.phase() == Phase::Idle,
{
}

impl<H> GuildQueueView<H> {
    /// The guild after `count` fetches in a row have failed.
    pub open spec fn failed_times(self, count: nat) -> Self
        decreases count,
    {
        if count == 0 {
            self
        } else {
            self.acquisition_failed().0.failed_times((count - 1) as nat)
        }
    }
}

/// Retrying comes to an end: a guild that is loading with `n` sources
/// waiting is still loading after `n` failures, with no source left, and is
/// idle after one more.
pub proof fn lemma_retries_are_bounded<H>(q: GuildQueueView<H>)
    requires
        q.phase() == Phase::Loading,
    ensures
        q.failed_times(q.pending.len()).phase() == Phase::Loading,
        q.failed_times(q.pending.len()).pending.len() == 0,
        q.failed_times(q.pending.len() + 1).phase() == Phase::Idle,
        q.failed_times(q.pending.len() + 1).pending.len() == 0,
    decreases q.pending.len(),
{
    if q.pending.len() > 0 {
        lemma_retries_are_bounded(q.acquisition_failed().0);
    } else {
        assert(q.failed_times(1) == q.acquisition_failed().0.failed_times(0));
    }
}

/// Every event leaves a well-formed guild well formed.
pub proof fn lemma_events_keep_wf<H>(
    q: GuildQueueView<H>,
    id: Seq<char>,
    window: PlaybackWindow,
    skip_keyword: Option<Seq<Seq<char>>>,
    handle: H,
    clear_pending: bool,
)
    requires
        q.wf(),
    ensures
        q.enqueue(id).wf(),
        q.pop_next().0.wf(),
        q.advance().0.wf(),
        q.play(id, window, skip_keyword).0.wf(),
        q.acquired(handle).0.wf(),
        q.acquisition_failed().0.wf(),
        q.track_ended().0.wf(),
        q.disconnect(clear_pending).wf(),
        q.disconnect(clear_pending).phase() == Phase::Idle,
{
}

} // verus!
