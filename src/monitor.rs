use vstd::prelude::*;

verus! {

/// Bus names of media players start with this namespace.
pub const MEDIA_PLAYER_PREFIX: &'static str = "org.mpris.MediaPlayer2.";

/// The playback status that counts as playing.
pub const PLAYING: &'static str = "Playing";

/// A name belongs to a media player when it starts with the media-player namespace.
pub open spec fn is_media_player_name(name: Seq<char>) -> bool {
    let prefix = MEDIA_PLAYER_PREFIX@;
    &&& prefix.len() <= name.len()
    &&& name.subrange(0, prefix.len() as int) == prefix
}

/// The media-player names among `names`, in their order.
pub open spec fn media_players(names: Seq<Seq<char>>) -> Seq<Seq<char>> {
    names.filter(|n: Seq<char>| is_media_player_name(n))
}

/// Whether `name` lies in the media-player namespace.
pub fn is_media_player(name: &str) -> (r: bool)
    ensures
        r == is_media_player_name(name@),
{
    let prefix = MEDIA_PLAYER_PREFIX;
    let plen = prefix.unicode_len();
    let nlen = name.unicode_len();
    if nlen < plen {
        return false;
    }
    let mut i: usize = 0;
    while i < plen
        invariant
            plen == prefix@.len(),
            nlen == name@.len(),
            plen <= nlen,
            i <= plen,
            prefix@ == MEDIA_PLAYER_PREFIX@,
            forall|j: int| 0 <= j < i ==> name@[j] == prefix@[j],
        decreases plen - i,
    {
        if name.get_char(i) != prefix.get_char(i) {
            return false;
        }
        i = i + 1;
    }
    assert(name@.subrange(0, plen as int) =~= prefix@);
    true
}

/// The media players among the bus names `names`, in their order.
pub fn list_media_players(names: Vec<String>) -> (r: Vec<String>)
    ensures
        r.deep_view() == media_players(names.deep_view()),
{
    let mut out: Vec<String> = Vec::new();
    let mut i: usize = 0;
    while i < names.len()
        invariant
            i <= names.len(),
            out.deep_view() == media_players(names.deep_view().subrange(0, i as int)),
        decreases names.len() - i,
    {
        let ghost before = names.deep_view().subrange(0, i as int);
        let ghost after = names.deep_view().subrange(0, i as int + 1);
        assert(after.drop_last() =~= before);
        assert(after.last() == names[i as int]@);
        reveal(Seq::filter);
        let ghost prev = out.deep_view();
        let hit = is_media_player(names[i].as_str());
        assert(hit == is_media_player_name(names[i as int]@));
        if hit {
            let name = names[i].clone();
            out.push(name);
            assert(out.deep_view() =~= prev.push(names[i as int]@));
        }
        i = i + 1;
    }
    assert(names.deep_view().subrange(0, names.len() as int) =~= names.deep_view());
    out
}

/// A player's answer to a playback-status read. Any reply that is not a
/// string, and any failed call, is `Other`.
pub enum PropertyValue {
    Str(String),
    Other,
}

/// Whether an answer says the player is playing (the comparison is case-sensitive).
pub open spec fn reports_playing(v: PropertyValue) -> bool {
    match v {
        PropertyValue::Str(s) => s@ == PLAYING@,
        PropertyValue::Other => false,
    }
}

/// Model of one poll: the endpoints to ask, in discovery order, and for each
/// endpoint asked so far whether it reported playing.
pub ghost struct PollView {
    pub endpoints: Seq<Seq<char>>,
    pub heard: Seq<bool>,
}

impl PollView {
    /// A poll that has asked nobody yet.
    pub open spec fn start(endpoints: Seq<Seq<char>>) -> PollView {
        PollView { endpoints, heard: Seq::empty() }
    }

    /// The aggregate signal: some endpoint asked so far reported playing.
    pub open spec fn signal(self) -> bool {
        self.heard.contains(true)
    }

    /// Nothing more is asked once one endpoint plays or all have been asked.
    pub open spec fn done(self) -> bool {
        self.signal() || self.heard.len() >= self.endpoints.len()
    }

    /// The endpoint to ask next, if any.
    pub open spec fn next_query(self) -> Option<Seq<char>> {
        if self.done() {
            None
        } else {
            Some(self.endpoints[self.heard.len() as int])
        }
    }

    /// The poll after the endpoint asked next has answered `v`.
    pub open spec fn record(self, v: PropertyValue) -> PollView {
        PollView { heard: self.heard.push(reports_playing(v)), ..self }
    }

    /// The poll once every endpoint it asks answers as in `replies`, which holds
    /// one answer per endpoint.
    pub open spec fn finish(self, replies: Seq<PropertyValue>) -> PollView
        decreases self.endpoints.len() - self.heard.len(),
    {
        if self.done() {
            self
        } else {
            self.record(replies[self.heard.len() as int]).finish(replies)
        }
    }
}

/// One poll of the discovered players. The caller asks each endpoint that
/// [`PlaybackPoll::next_query`] names and hands the answer to
/// [`PlaybackPoll::record`], until no endpoint is named; then
/// [`PlaybackPoll::signal`] is the aggregate.
pub struct PlaybackPoll {
    endpoints: Vec<String>,
    asked: usize,
    playing: bool,
    heard: Ghost<Seq<bool>>,
}

impl View for PlaybackPoll {
    type V = PollView;

    closed spec fn view(&self) -> PollView {
        PollView { endpoints: self.endpoints.deep_view(), heard: self.heard@ }
    }
}

impl PlaybackPoll {
    pub closed spec fn wf(&self) -> bool {
        &&& self.asked == self.heard@.len()
        &&& self.asked <= self.endpoints.len()
        &&& self.playing == self.heard@.contains(true)
    }

    /// Starts a poll of `endpoints`, in their order.
    pub fn new(endpoints: Vec<String>) -> (r: PlaybackPoll)
        ensures
            r.wf(),
            r@ == PollView::start(endpoints.deep_view()),
    {
        let r = PlaybackPoll { endpoints, asked: 0, playing: false, heard: Ghost(Seq::empty()) };
        assert(r@.heard =~= Seq::<bool>::empty());
        r
    }

    /// Whether the poll has its answer.
    pub fn is_done(&self) -> (r: bool)
        requires
            self.wf(),
        ensures
            r == self@.done(),
    {
        self.playing || self.asked >= self.endpoints.len()
    }

    /// The endpoint whose playback status is to be read next; `None` once the
    /// poll is done.
    pub fn next_query(&self) -> (r: Option<String>)
        requires
            self.wf(),
        ensures
            r.deep_view() == self@.next_query(),
    {
        if self.is_done() {
            None
        } else {
            Some(self.endpoints[self.asked].clone())
        }
    }

    /// Takes the answer of the endpoint that [`PlaybackPoll::next_query`] named.
    pub fn record(&mut self, reply: PropertyValue)
        requires
            old(self).wf(),
            !old(self)@.done(),
        ensures
            final(self).wf(),
            final(self)@ == old(self)@.record(reply),
    {
        let playing = match &reply {
            PropertyValue::Str(s) => s.eq(&String::from_str(PLAYING)),
            PropertyValue::Other => false,
        };
        let ghost before = self.heard@;
        self.heard = Ghost(before.push(playing));
        self.asked = self.asked + 1;
        self.playing = playing;
        assert(self.heard@.last() == playing);
        assert(!before.contains(true));
        assert(self.heard@.contains(true) == playing) by {
            if !playing {
                assert forall|j: int| 0 <= j < self.heard@.len() implies self.heard@[j] != true by {
                    if j < before.len() {
                        assert(self.heard@[j] == before[j]);
                    }
                }
            }
        }
    }

    /// Whether some endpoint asked reported playing.
    pub fn signal(&self) -> (r: bool)
        requires
            self.wf(),
        ensures
            r == self@.signal(),
    {
        self.playing
    }
}

/// `p` is a poll of endpoints whose answers are `replies`, driven as
/// [`PlaybackPoll`] drives it.
spec fn driven_by(p: PollView, replies: Seq<PropertyValue>) -> bool {
    &&& p.endpoints.len() == replies.len()
    &&& p.heard.len() <= replies.len()
    &&& forall|j: int| 0 <= j < p.heard.len() ==> p.heard[j] == reports_playing(replies[j])
    &&& forall|j: int| 0 <= j < p.heard.len() - 1 ==> !p.heard[j]
}

proof fn lemma_finish(p: PollView, replies: Seq<PropertyValue>)
    requires
        driven_by(p, replies),
    ensures
        driven_by(p.finish(replies), replies),
        p.finish(replies).done(),
        p.finish(replies).heard.len() >= p.heard.len(),
        p.finish(replies).heard.len() == replies.len() || p.finish(replies).heard.last(),
    decreases p.endpoints.len() - p.heard.len(),
{
    if p.done() {
        if p.heard.len() < replies.len() {
            let j = choose|j: int| 0 <= j < p.heard.len() && p.heard[j] == true;
            assert(j == p.heard.len() - 1);
        }
    } else {
        let q = p.record(replies[p.heard.len() as int]);
        assert(!p.heard.contains(true));
        assert forall|j: int| 0 <= j < q.heard.len() - 1 implies !q.heard[j] by {
            assert(q.heard[j] == p.heard[j]);
        }
        lemma_finish(q, replies);
    }
}

/// When no endpoint reports "Playing", the poll asks every endpoint and ends
/// with the signal false.
pub proof fn lemma_none_playing_signals_false(endpoints: Seq<Seq<char>>, replies: Seq<PropertyValue>)
    requires
        replies.len() == endpoints.len(),
        forall|i: int| 0 <= i < replies.len() ==> !reports_playing(replies[i]),
    ensures
        !PollView::start(endpoints).finish(replies).signal(),
        PollView::start(endpoints).finish(replies).heard.len() == endpoints.len(),
{
    let f = PollView::start(endpoints).finish(replies);
    lemma_finish(PollView::start(endpoints), replies);
    assert(!f.heard.contains(true)) by {
        assert forall|j: int| 0 <= j < f.heard.len() implies f.heard[j] != true by {
            assert(f.heard[j] == reports_playing(replies[j]));
        }
    }
}

/// The poll stops at the first endpoint that reports "Playing": when that is
/// endpoint `k`, exactly `k + 1` endpoints are asked and the signal is true.
pub proof fn lemma_poll_stops_at_first_playing(
    endpoints: Seq<Seq<char>>,
    replies: Seq<PropertyValue>,
    k: int,
)
    requires
        replies.len() == endpoints.len(),
        0 <= k < replies.len(),
        reports_playing(replies[k]),
        forall|j: int| 0 <= j < k ==> !reports_playing(replies[j]),
    ensures
        PollView::start(endpoints).finish(replies).signal(),
        PollView::start(endpoints).finish(replies).heard.len() == k + 1,
{
    let f = PollView::start(endpoints).finish(replies);
    lemma_finish(PollView::start(endpoints), replies);
    let n = f.heard.len() as int;
    if n <= k {
        assert(f.heard.last() == reports_playing(replies[n - 1]));
        assert(false);
    }
    if n > k + 1 {
        assert(f.heard[k] == reports_playing(replies[k]));
        assert(false);
    }
    assert(f.heard[k] == true);
}

/// With no endpoints discovered the poll is done at once: no endpoint is
/// asked and the signal is false, whatever the inhibitor was doing.
pub proof fn lemma_no_endpoints_signals_false(endpoints: Seq<Seq<char>>)
    requires
        endpoints.len() == 0,
    ensures
        PollView::start(endpoints).done(),
        PollView::start(endpoints).next_query() is None,
        !PollView::start(endpoints).signal(),
{
}

} // verus!
