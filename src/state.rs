use vstd::multiset::Multiset;
use vstd::prelude::*;

verus! {

/// The side a player is on.
#[derive(Debug, Clone, Copy, PartialEq, Eq, Structural)]
pub enum CurrentTeam {
    CT,
    T,
}

/// A coarse estimate of the match: the active team and the team sizes.
#[derive(Debug, Clone, Copy, PartialEq, Eq, Structural)]
pub struct GameState {
    pub current_team: Option<CurrentTeam>,
    pub num_ct: u8,
    pub num_t: u8,
}

/// The state before anything has been seen: no team, no players.
pub open spec fn initial_state() -> GameState {
    GameState { current_team: None, num_ct: 0, num_t: 0 }
}

impl Default for GameState {
    fn default() -> (r: GameState)
        ensures
            r == initial_state(),
    {
        GameState { current_team: None, num_ct: 0, num_t: 0 }
    }
}

/// Number of agreeing samples needed before a candidate is trusted.
pub const HISTORY_LEN: usize = 3;

/// Mathematical model of a [`Debouncer`].
pub struct DebounceView {
    pub history: Seq<GameState>,
    pub cursor: nat,
    pub trusted: GameState,
}

impl DebounceView {
    pub open spec fn wf(self) -> bool {
        self.history.len() == HISTORY_LEN && self.cursor < HISTORY_LEN
    }

    /// All slots of the history hold one and the same state.
    pub open spec fn agrees(self) -> bool {
        self.history[0] == self.history[1] && self.history[0] == self.history[2]
    }

    /// The state after storing `c` in the next slot of the ring.
    pub open spec fn record(self, c: GameState) -> DebounceView {
        let cursor = ((self.cursor + 1) % (HISTORY_LEN as nat)) as nat;
        let history = self.history.update(cursor as int, c);
        let stored = DebounceView { history, cursor, trusted: self.trusted };
        DebounceView { trusted: if stored.agrees() { history[0] } else { self.trusted }, ..stored }
    }

    /// The state after one tick: `None` is a tick that was skipped and
    /// leaves everything as it was.
    pub open spec fn observe(self, sample: Option<GameState>) -> DebounceView {
        match sample {
            Some(c) => self.record(c),
            None => self,
        }
    }

    /// The state after recording each of `samples` in turn.
    pub open spec fn feed(self, samples: Seq<GameState>) -> DebounceView
        decreases samples.len(),
    {
        if samples.len() == 0 {
            self
        } else {
            self.feed(samples.drop_last()).record(samples.last())
        }
    }

    /// The state after each tick of `ticks` in turn, skipped ones included.
    pub open spec fn run(self, ticks: Seq<Option<GameState>>) -> DebounceView
        decreases ticks.len(),
    {
        if ticks.len() == 0 {
            self
        } else {
            self.run(ticks.drop_last()).observe(ticks.last())
        }
    }
}

/// The samples of `ticks` that were taken, in order.
pub open spec fn taken(ticks: Seq<Option<GameState>>) -> Seq<GameState>
    decreases ticks.len(),
{
    if ticks.len() == 0 {
        Seq::empty()
    } else {
        match ticks.last() {
            Some(c) => taken(ticks.drop_last()).push(c),
            None => taken(ticks.drop_last()),
        }
    }
}

/// A ring of the last few candidate states and the state trusted so far.
pub struct Debouncer {
    history: Vec<GameState>,
    cursor: usize,
    trusted: GameState,
}

impl View for Debouncer {
    type V = DebounceView;

    closed spec fn view(&self) -> DebounceView {
        DebounceView { history: self.history@, cursor: self.cursor as nat, trusted: self.trusted }
    }
}

impl Debouncer {
    pub open spec fn wf(&self) -> bool {
        self@.wf()
    }

    /// A ring filled with the initial state, which is also the trusted state.
    pub fn new() -> (r: Debouncer)
        ensures
            r.wf(),
            r@.history == seq![initial_state(), initial_state(), initial_state()],
            r@.cursor == 0,
            r@.trusted == initial_state(),
    {
        let history = vec![GameState::default(), GameState::default(), GameState::default()];
        Debouncer { history, cursor: 0, trusted: GameState::default() }
    }

    /// The state trusted so far.
    pub fn trusted(&self) -> (r: GameState)
        ensures
            r == self@.trusted,
    {
        self.trusted
    }

    /// The stored samples, oldest slot first by index.
    pub fn history(&self) -> (r: Vec<GameState>)
        ensures
            r@ == self@.history,
    {
        self.history.clone()
    }

    /// Stores `candidate` in the next slot of the ring and returns the
    /// trusted state, which becomes the candidate once every slot holds it.
    pub fn record(&mut self, candidate: GameState) -> (r: GameState)
        requires
            old(self).wf(),
        ensures
            final(self).wf(),
            final(self)@ == old(self)@.record(candidate),
            r == final(self)@.trusted,
    {
        self.cursor = (self.cursor + 1) % HISTORY_LEN;
        self.history.set(self.cursor, candidate);
        if self.history[0] == self.history[1] && self.history[0] == self.history[2] {
            self.trusted = self.history[0];
        }
        self.trusted
    }

    /// One tick of the sampler: a taken sample is recorded, a skipped tick
    /// (`None`) changes nothing.
    pub fn observe(&mut self, sample: Option<GameState>) -> (r: GameState)
        requires
            old(self).wf(),
        ensures
            final(self).wf(),
            final(self)@ == old(self)@.observe(sample),
            r == final(self)@.trusted,
    {
        match sample {
            Some(c) => self.record(c),
            None => self.trusted,
        }
    }
}

/// Recording keeps the ring well formed.
pub proof fn lemma_record_wf(s: DebounceView, c: GameState)
    requires
        s.wf(),
    ensures
        s.record(c).wf(),
{
}

/// Feeding up to three samples is recording them one after another.
proof fn lemma_feed_three(s: DebounceView, x: GameState, y: GameState, z: GameState)
    ensures
        s.feed(seq![x]) == s.record(x),
        s.feed(seq![x, y]) == s.record(x).record(y),
        s.feed(seq![x, y, z]) == s.record(x).record(y).record(z),
{
    assert(seq![x, y, z].drop_last() =~= seq![x, y]);
    assert(seq![x, y].drop_last() =~= seq![x]);
    assert(seq![x].drop_last() =~= Seq::<GameState>::empty());
    assert(s.feed(Seq::<GameState>::empty()) == s);
    assert(s.feed(seq![x]) == s.record(x));
    assert(s.feed(seq![x, y]) == s.record(x).record(y));
}

/// Three agreeing samples in a row make their common value the trusted
/// state, whatever the ring held before.
pub proof fn law_three_agreeing_samples_are_trusted(s: DebounceView, a: GameState)
    requires
        s.wf(),
    ensures
        s.feed(seq![a, a, a]).trusted == a,
{
    lemma_feed_three(s, a, a, a);
    lemma_record_wf(s, a);
    lemma_record_wf(s.record(a), a);
}

/// A third sample that differs from two agreeing ones leaves the trusted
/// state as it was before that third sample.
pub proof fn law_disagreeing_third_sample_keeps_trusted(s: DebounceView, a: GameState, b: GameState)
    requires
        s.wf(),
        a != b,
    ensures
        s.feed(seq![a, a, b]).trusted == s.feed(seq![a, a]).trusted,
{
    lemma_feed_three(s, a, a, b);
    lemma_record_wf(s, a);
    lemma_record_wf(s.record(a), a);
}

/// A value seen twice but split by another one is not promoted: after
/// `[a, b, a]` the trusted state is the one trusted after the first `a`.
pub proof fn law_interrupted_value_not_promoted(s: DebounceView, a: GameState, b: GameState)
    requires
        s.wf(),
        a != b,
    ensures
        s.feed(seq![a, b, a]).trusted == s.feed(seq![a]).trusted,
{
    lemma_feed_three(s, a, b, a);
    lemma_record_wf(s, a);
    lemma_record_wf(s.record(a), b);
}

/// Where the ring stands after a run of samples: the cursor has moved once
/// per sample, and the slots hold the last samples, newest at the cursor.
pub proof fn lemma_feed_positions(s: DebounceView, w: Seq<GameState>)
    requires
        s.wf(),
    ensures
        s.feed(w).wf(),
        s.feed(w).cursor == (s.cursor + w.len()) % 3,
        w.len() >= 1 ==> s.feed(w).history[s.feed(w).cursor as int] == w[w.len() - 1],
        w.len() >= 2 ==> s.feed(w).history[((s.feed(w).cursor + 2) % 3) as int] == w[w.len() - 2],
        w.len() >= 3 ==> s.feed(w).history[((s.feed(w).cursor + 1) % 3) as int] == w[w.len() - 3],
    decreases w.len(),
{
    if w.len() > 0 {
        let p = w.drop_last();
        lemma_feed_positions(s, p);
        lemma_record_wf(s.feed(p), w.last());
    }
}

/// However many samples were recorded, once there were at least as many as
/// the ring has slots, the ring holds exactly the last three of them.
pub proof fn law_ring_holds_last_samples(s: DebounceView, w: Seq<GameState>)
    requires
        s.wf(),
        w.len() >= HISTORY_LEN,
    ensures
        s.feed(w).history.to_multiset() =~= w.subrange(w.len() - 3, w.len() as int).to_multiset(),
        s.feed(w).history[s.feed(w).cursor as int] == w[w.len() - 1],
        s.feed(w).history[((s.feed(w).cursor + 2) % 3) as int] == w[w.len() - 2],
        s.feed(w).history[((s.feed(w).cursor + 1) % 3) as int] == w[w.len() - 3],
{
    lemma_feed_positions(s, w);
    let t = s.feed(w);
    let n = w.len();
    let last = w.subrange(n - 3, n as int);
    let h = t.history;
    if t.cursor == 0 {
        assert(h =~= seq![last[2], last[0], last[1]]);
    } else if t.cursor == 1 {
        assert(h =~= seq![last[1], last[2], last[0]]);
    } else {
        assert(h =~= seq![last[0], last[1], last[2]]);
    }
    assert(last =~= seq![last[0], last[1], last[2]]);
    lemma_multiset_of_three(last[0], last[1], last[2]);
    lemma_multiset_of_three(last[2], last[0], last[1]);
    lemma_multiset_of_three(last[1], last[2], last[0]);
}

proof fn lemma_multiset_of_three(x: GameState, y: GameState, z: GameState)
    ensures
        seq![x, y, z].to_multiset() =~= Multiset::empty().insert(x).insert(y).insert(z),
{
    let e = Seq::<GameState>::empty();
    assert(seq![x, y, z] =~= e.push(x).push(y).push(z));
    e.to_multiset_ensures();
    vstd::seq_lib::to_multiset_build(e, x);
    vstd::seq_lib::to_multiset_build(e.push(x), y);
    vstd::seq_lib::to_multiset_build(e.push(x).push(y), z);
}

/// Skipped ticks neither advance nor overwrite the ring: a run of ticks ends
/// where recording only the samples that were taken ends.
pub proof fn law_skipped_ticks_change_nothing(s: DebounceView, ticks: Seq<Option<GameState>>)
    ensures
        s.run(ticks) == s.feed(taken(ticks)),
    decreases ticks.len(),
{
    if ticks.len() > 0 {
        let p = ticks.drop_last();
        law_skipped_ticks_change_nothing(s, p);
        match ticks.last() {
            Some(c) => {
                assert(taken(ticks).drop_last() =~= taken(p));
            },
            None => {},
        }
    }
}

} // verus!
