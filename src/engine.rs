//! The shared service that classifies image resources, stores decoded
//! animations and drives their playback.
//!
//! One engine serves every avatar that shows a given resource, so the
//! classification and the playback position of a resource are shared.
use vstd::prelude::*;
use crate::decode::{AnimationData, AnimationView, animation_view, assembled, kept_frames, valid_animation};
use crate::playback::{
    FrameChoice, PlaybackState, lemma_step_stays_in_range, playback_wf, step, shown,
};

verus! {

/// Classification of a resource.
pub enum Classification {
    /// A decode is in flight.
    Checking,
    /// Not animated, or the decode failed. Final.
    Static,
    /// Decoded animation. Final.
    Animated(AnimationData),
}

/// What a classification holds, as plain values.
pub enum StatusView {
    Checking,
    Static,
    Animated(AnimationView),
}

pub open spec fn status_view(c: Classification) -> StatusView {
    match c {
        Classification::Checking => StatusView::Checking,
        Classification::Static => StatusView::Static,
        Classification::Animated(a) => StatusView::Animated(a@),
    }
}

/// What the engine knows of one resource: its classification and, once it is
/// animated, its playback state.
pub struct ResourceView {
    pub status: StatusView,
    pub playback: Option<PlaybackState>,
}

/// A resource is well formed when it has playback state exactly when it is
/// animated, and that state fits the animation.
pub open spec fn resource_wf(r: ResourceView) -> bool {
    match r.status {
        StatusView::Animated(a) => {
            &&& valid_animation(a)
            &&& r.playback is Some
            &&& playback_wf(r.playback.unwrap(), a.frames.len())
        },
        _ => r.playback is None,
    }
}

/// Every resource the engine holds is well formed, and was classified as a
/// candidate: its key has an animatable extension.
pub open spec fn engine_wf(m: Map<Seq<char>, ResourceView>) -> bool {
    forall|k: Seq<char>| #[trigger] m.contains_key(k) ==> resource_wf(m[k]) && has_animatable_extension(k)
}

/// Whether `c` is the ASCII letter `lower` in either case.
pub open spec fn ascii_ci(c: char, lower: char, upper: char) -> bool {
    c == lower || c == upper
}

/// Whether a path ends in `.webp` or `.gif`, in any ASCII letter case.
pub open spec fn has_animatable_extension(s: Seq<char>) -> bool {
    let n = s.len();
    ||| n >= 5 && s[n - 5] == '.' && ascii_ci(s[n - 4], 'w', 'W') && ascii_ci(s[n - 3], 'e', 'E')
        && ascii_ci(s[n - 2], 'b', 'B') && ascii_ci(s[n - 1], 'p', 'P')
    ||| n >= 4 && s[n - 4] == '.' && ascii_ci(s[n - 3], 'g', 'G') && ascii_ci(s[n - 2], 'i', 'I')
        && ascii_ci(s[n - 1], 'f', 'F')
}

/// Whether a resource is a candidate for animation: an existing local file
/// with an animatable extension.
pub open spec fn eligible(key: Seq<char>, file_exists: bool) -> bool {
    file_exists && has_animatable_extension(key)
}

/// Whether classifying `key` starts a decode: it is a candidate and nothing
/// is known of it yet.
pub open spec fn dispatches(m: Map<Seq<char>, ResourceView>, key: Seq<char>, file_exists: bool) -> bool {
    eligible(key, file_exists) && !m.contains_key(key)
}

/// The engine's contents after classifying `key`.
pub open spec fn after_classify(m: Map<Seq<char>, ResourceView>, key: Seq<char>, file_exists: bool) -> Map<
    Seq<char>,
    ResourceView,
> {
    if dispatches(m, key, file_exists) {
        m.insert(key, ResourceView { status: StatusView::Checking, playback: None })
    } else {
        m
    }
}

/// Whether a decode of `key` is in flight.
pub open spec fn checking(m: Map<Seq<char>, ResourceView>, key: Seq<char>) -> bool {
    m.contains_key(key) && m[key].status is Checking
}

/// Playback as it starts at time `now`.
pub open spec fn fresh_playback(now: u64) -> PlaybackState {
    PlaybackState { current_frame: 0, last_advance: now, warmed_up: false, warmup_cursor: 0 }
}

/// The engine's contents after a decode of `key` finished with `decoded`:
/// only a resource that is being checked takes the result.
pub open spec fn after_publish(
    m: Map<Seq<char>, ResourceView>,
    key: Seq<char>,
    decoded: Option<AnimationView>,
    now: u64,
) -> Map<Seq<char>, ResourceView> {
    if !checking(m, key) {
        m
    } else {
        match decoded {
            Some(a) => m.insert(
                key,
                ResourceView { status: StatusView::Animated(a), playback: Some(fresh_playback(now)) },
            ),
            None => m.insert(key, ResourceView { status: StatusView::Static, playback: None }),
        }
    }
}

/// Whether `key` is animated with playback state.
pub open spec fn playing(m: Map<Seq<char>, ResourceView>, key: Seq<char>) -> bool {
    m.contains_key(key) && m[key].status is Animated && m[key].playback is Some
}

/// The engine's contents after a render query for `key` at time `now`.
pub open spec fn after_select(m: Map<Seq<char>, ResourceView>, key: Seq<char>, now: u64) -> Map<
    Seq<char>,
    ResourceView,
> {
    if playing(m, key) {
        let p = m[key].playback.unwrap();
        let a = m[key].status->Animated_0;
        m.insert(key, ResourceView { status: m[key].status, playback: Some(step(p, a.delays, now)) })
    } else {
        m
    }
}

/// What a render query for `key` at time `now` shows.
pub open spec fn selected(m: Map<Seq<char>, ResourceView>, key: Seq<char>, now: u64) -> FrameChoice {
    if playing(m, key) {
        let p = m[key].playback.unwrap();
        let a = m[key].status->Animated_0;
        shown(p, step(p, a.delays, now))
    } else {
        FrameChoice::Fallback
    }
}

/// How a resource stands, without its payload.
#[derive(Clone, Copy, Debug, PartialEq, Eq, Structural)]
pub enum ResourceStatus {
    /// Never classified: drawn from its static source.
    Unknown,
    Checking,
    Static,
    Animated,
}

pub open spec fn status_kind(m: Map<Seq<char>, ResourceView>, key: Seq<char>) -> ResourceStatus {
    if !m.contains_key(key) {
        ResourceStatus::Unknown
    } else {
        match m[key].status {
            StatusView::Checking => ResourceStatus::Checking,
            StatusView::Static => ResourceStatus::Static,
            StatusView::Animated(_) => ResourceStatus::Animated,
        }
    }
}

/// Whether a path ends in `.webp` or `.gif`, in any ASCII letter case.
pub fn is_animatable_path(path: &str) -> (r: bool)
    ensures
        r == has_animatable_extension(path@),
{
    let n = path.unicode_len();
    let webp = n >= 5 && path.get_char(n - 5) == '.' && (path.get_char(n - 4) == 'w' || path.get_char(n - 4)
        == 'W') && (path.get_char(n - 3) == 'e' || path.get_char(n - 3) == 'E') && (path.get_char(n - 2)
        == 'b' || path.get_char(n - 2) == 'B') && (path.get_char(n - 1) == 'p' || path.get_char(n - 1)
        == 'P');
    let gif = n >= 4 && path.get_char(n - 4) == '.' && (path.get_char(n - 3) == 'g' || path.get_char(n - 3)
        == 'G') && (path.get_char(n - 2) == 'i' || path.get_char(n - 2) == 'I') && (path.get_char(n - 1)
        == 'f' || path.get_char(n - 1) == 'F');
    webp || gif
}

/// However many avatars classify the same resource, at most the first one
/// starts a decode: after a classification of `key`, classifying it again
/// starts none and changes nothing. The first one does start it when the
/// resource is a candidate that the engine does not know.
pub proof fn lemma_single_decode(
    m: Map<Seq<char>, ResourceView>,
    key: Seq<char>,
    first_exists: bool,
    second_exists: bool,
)
    ensures
        !(dispatches(m, key, first_exists) && dispatches(
            after_classify(m, key, first_exists),
            key,
            second_exists,
        )),
        dispatches(m, key, first_exists) ==> after_classify(
            after_classify(m, key, first_exists),
            key,
            second_exists,
        ) == after_classify(m, key, first_exists),
        eligible(key, first_exists) && !m.contains_key(key) ==> dispatches(m, key, first_exists),
{
}

/// Classifying a resource that is not a candidate (no animatable extension,
/// or no local file) never starts a decode and never changes the engine.
pub proof fn lemma_ineligible_is_ignored(m: Map<Seq<char>, ResourceView>, key: Seq<char>, file_exists: bool)
    requires
        !eligible(key, file_exists),
    ensures
        !dispatches(m, key, file_exists),
        after_classify(m, key, file_exists) == m,
{
}

/// A file that is not in an animation format (no `.webp` or `.gif`
/// extension), or whose classification is already static, stays static
/// however often it is classified, drawn or published: no decode starts,
/// nothing changes, and the static source is shown.
pub proof fn lemma_static_is_stable(
    m: Map<Seq<char>, ResourceView>,
    key: Seq<char>,
    file_exists: bool,
    decoded: Option<AnimationView>,
    now: u64,
)
    requires
        engine_wf(m),
        !has_animatable_extension(key) || (m.contains_key(key) && m[key].status is Static),
    ensures
        !dispatches(m, key, file_exists),
        after_classify(m, key, file_exists) == m,
        selected(m, key, now) == FrameChoice::Fallback,
        after_select(m, key, now) == m,
        after_publish(m, key, decoded, now) == m,
        status_kind(m, key) == (if has_animatable_extension(key) {
            ResourceStatus::Static
        } else {
            ResourceStatus::Unknown
        }),
{
}

/// A decode that leaves fewer than two usable frames publishes the resource
/// as static, never animated, and creates no playback state for it.
pub proof fn lemma_few_frames_publish_static(
    m: Map<Seq<char>, ResourceView>,
    key: Seq<char>,
    encoded: Seq<Option<Seq<u8>>>,
    delays: Seq<u64>,
    now: u64,
)
    requires
        checking(m, key),
        kept_frames(encoded).len() < 2,
    ensures
        after_publish(m, key, assembled(encoded, delays), now)[key].status is Static,
        after_publish(m, key, assembled(encoded, delays), now)[key].playback is None,
        status_kind(after_publish(m, key, assembled(encoded, delays), now), key)
            == ResourceStatus::Static,
{
}

/// A render query on a well-formed engine shows either the static source
/// or a frame that the animation has, and keeps the engine well formed.
pub proof fn lemma_selected_frame_in_range(m: Map<Seq<char>, ResourceView>, key: Seq<char>, now: u64)
    requires
        engine_wf(m),
    ensures
        engine_wf(after_select(m, key, now)),
        selected(m, key, now) is Frame ==> m.contains_key(key) && m[key].status is Animated
            && selected(m, key, now)->index < m[key].status->Animated_0.frames.len(),
{
    if playing(m, key) {
        let p = m[key].playback.unwrap();
        let a = m[key].status->Animated_0;
        lemma_step_stays_in_range(p, a.delays, now);
        let m2 = after_select(m, key, now);
        assert forall|k: Seq<char>| m2.contains_key(k) implies resource_wf(#[trigger] m2[k]) by {
            if k != key {
                assert(m.contains_key(k));
            }
        }
    }
}

/// The classification cache and playback scheduler for all resources.
pub struct AnimationEngine {
    keys: Vec<String>,
    statuses: Vec<Classification>,
    playbacks: Vec<Option<PlaybackState>>,
    model: Ghost<Map<Seq<char>, ResourceView>>,
}

impl View for AnimationEngine {
    type V = Map<Seq<char>, ResourceView>;

    closed spec fn view(&self) -> Map<Seq<char>, ResourceView> {
        self.model@
    }
}

impl AnimationEngine {
    closed spec fn entry(&self, i: int) -> ResourceView {
        ResourceView { status: status_view(self.statuses@[i]), playback: self.playbacks@[i] }
    }

    /// The engine's internal consistency: one slot per key, each slot agreeing
    /// with the view, every resource well formed.
    pub closed spec fn wf(&self) -> bool {
        &&& self.statuses@.len() == self.keys@.len()
        &&& self.playbacks@.len() == self.keys@.len()
        &&& forall|i: int, j: int|
            0 <= i < j < self.keys@.len() ==> self.keys@[i]@ != self.keys@[j]@
        &&& forall|i: int|
            0 <= i < self.keys@.len() ==> self.model@.contains_key(#[trigger] self.keys@[i]@)
                && self.model@[self.keys@[i]@] == self.entry(i)
        &&& forall|k: Seq<char>|
            #[trigger] self.model@.contains_key(k) ==> exists|i: int|
                0 <= i < self.keys@.len() && self.keys@[i]@ == k
        &&& engine_wf(self.model@)
    }

    /// An engine that knows no resource.
    pub fn new() -> (r: AnimationEngine)
        ensures
            r@ == Map::<Seq<char>, ResourceView>::empty(),
            r.wf(),
            engine_wf(r@),
    {
        AnimationEngine {
            keys: Vec::new(),
            statuses: Vec::new(),
            playbacks: Vec::new(),
            model: Ghost(Map::empty()),
        }
    }

    /// Where `key` is stored, if anywhere.
    fn find(&self, key: &String) -> (r: Option<usize>)
        requires
            self.wf(),
        ensures
            r is None ==> !self@.contains_key(key@),
            r is Some ==> r.unwrap() < self.keys@.len() && self.keys@[r.unwrap() as int]@ == key@
                && self@.contains_key(key@) && self@[key@] == self.entry(r.unwrap() as int),
    {
        let mut i: usize = 0;
        while i < self.keys.len()
            invariant
                self.wf(),
                i <= self.keys@.len(),
                forall|j: int| 0 <= j < i ==> self.keys@[j]@ != key@,
            decreases self.keys@.len() - i,
        {
            if self.keys[i].eq(key) {
                return Some(i);
            }
            i = i + 1;
        }
        None
    }

    /// Whether a decode of `key` is in flight.
    pub fn is_checking(&self, key: &String) -> (r: bool)
        requires
            self.wf(),
        ensures
            r == (self@.contains_key(key@) && self@[key@].status is Checking),
    {
        match self.find(key) {
            Some(i) => matches!(self.statuses[i], Classification::Checking),
            None => false,
        }
    }
    /// Stores a resource the engine does not know yet.
    fn insert_new(&mut self, key: &String, status: Classification, playback: Option<PlaybackState>)
        requires
            old(self).wf(),
            !old(self)@.contains_key(key@),
            has_animatable_extension(key@),
            resource_wf(ResourceView { status: status_view(status), playback }),
        ensures
            final(self).wf(),
            final(self)@ == old(self)@.insert(key@, ResourceView { status: status_view(status), playback }),
    {
        let ghost v = ResourceView { status: status_view(status), playback };
        let ghost m = self.model@;
        let ghost n = self.keys@.len();
        proof {
            assert forall|i: int| 0 <= i < n implies self.keys@[i]@ != key@ by {
                assert(m.contains_key(self.keys@[i]@));
            }
        }
        self.keys.push(key.clone());
        self.statuses.push(status);
        self.playbacks.push(playback);
        self.model = Ghost(m.insert(key@, v));
        proof {
            assert(self.entry(n as int) == v);
            assert forall|i: int| 0 <= i < self.keys@.len() implies self.model@.contains_key(
                #[trigger] self.keys@[i]@,
            ) && self.model@[self.keys@[i]@] == self.entry(i) by {
                if i < n {
                    assert(self.keys@[i]@ != key@);
                }
            }
            assert forall|k: Seq<char>| #[trigger] self.model@.contains_key(k) implies exists|i: int|
                0 <= i < self.keys@.len() && self.keys@[i]@ == k by {
                if k == key@ {
                    assert(self.keys@[n as int]@ == k);
                } else {
                    assert(m.contains_key(k));
                    let i = choose|i: int| 0 <= i < n && old(self).keys@[i]@ == k;
                    assert(self.keys@[i]@ == k);
                }
            }
        }
    }

    /// Replaces what is stored at slot `i`.
    fn replace(&mut self, i: usize, key: &String, status: Classification, playback: Option<PlaybackState>)
        requires
            old(self).wf(),
            i < old(self).keys@.len(),
            old(self).keys@[i as int]@ == key@,
            resource_wf(ResourceView { status: status_view(status), playback }),
        ensures
            final(self).wf(),
            final(self)@ == old(self)@.insert(key@, ResourceView { status: status_view(status), playback }),
    {
        let ghost v = ResourceView { status: status_view(status), playback };
        let ghost m = self.model@;
        self.statuses.set(i, status);
        self.playbacks.set(i, playback);
        self.model = Ghost(m.insert(key@, v));
        proof {
            assert(self.entry(i as int) == v);
            assert forall|j: int| 0 <= j < self.keys@.len() implies self.model@.contains_key(
                #[trigger] self.keys@[j]@,
            ) && self.model@[self.keys@[j]@] == self.entry(j) by {
                if j != i {
                    assert(self.keys@[j]@ != key@);
                    assert(self.entry(j) == old(self).entry(j));
                }
            }
            assert forall|k: Seq<char>| #[trigger] self.model@.contains_key(k) implies exists|j: int|
                0 <= j < self.keys@.len() && self.keys@[j]@ == k by {
                if k == key@ {
                    assert(self.keys@[i as int]@ == k);
                } else {
                    assert(m.contains_key(k));
                }
            }
        }
    }

    /// Classifies `key` on behalf of a new avatar, as one atomic step: an
    /// existing local file with an animatable extension that the engine does
    /// not know yet is marked as being checked, and the caller is told to
    /// start its one decode; anything else changes nothing.
    pub fn classify_or_start(&mut self, key: &String, file_exists: bool) -> (dispatch: bool)
        requires
            old(self).wf(),
        ensures
            final(self).wf(),
            dispatch == dispatches(old(self)@, key@, file_exists),
            final(self)@ == after_classify(old(self)@, key@, file_exists),
            engine_wf(final(self)@),
    {
        if !file_exists || !is_animatable_path(key.as_str()) {
            return false;
        }
        match self.find(key) {
            Some(_) => false,
            None => {
                self.insert_new(key, Classification::Checking, None);
                true
            },
        }
    }

    /// Publishes the result of the decode of `key` at time `now`: an
    /// animation makes the resource animated with fresh playback, no
    /// animation makes it static. Only a resource that is being checked
    /// takes the result; any other is left as it is.
    pub fn publish(&mut self, key: &String, decoded: Option<AnimationData>, now: u64)
        requires
            old(self).wf(),
        ensures
            final(self).wf(),
            final(self)@ == after_publish(old(self)@, key@, animation_view(decoded), now),
            engine_wf(final(self)@),
    {
        let (status, playback) = match decoded {
            Some(a) => {
                // Its frame count tells that the animation is well formed.
                let _ = a.frame_count();
                (Classification::Animated(a), Some(PlaybackState::new(now)))
            },
            None => (Classification::Static, None),
        };
        match self.find(key) {
            Some(i) => {
                if matches!(self.statuses[i], Classification::Checking) {
                    self.replace(i, key, status, playback);
                }
            },
            None => {},
        }
    }

    /// Answers a render query for `key` at time `now`. An animated resource
    /// moves its playback on by one step and shows the frame it selects;
    /// anything else shows the static source.
    pub fn select_frame(&mut self, key: &String, now: u64) -> (r: FrameChoice)
        requires
            old(self).wf(),
        ensures
            final(self).wf(),
            r == selected(old(self)@, key@, now),
            final(self)@ == after_select(old(self)@, key@, now),
            engine_wf(final(self)@),
    {
        let i = match self.find(key) {
            Some(i) => i,
            None => {
                return FrameChoice::Fallback;
            },
        };
        let p = match self.playbacks[i] {
            Some(p) => p,
            None => {
                return FrameChoice::Fallback;
            },
        };
        match &self.statuses[i] {
            Classification::Animated(a) => {
                let mut q = p;
                let r = q.tick(a, now);
                let ghost m = self.model@;
                let ghost v = ResourceView { status: status_view(self.statuses@[i as int]), playback: Some(q) };
                self.playbacks.set(i, Some(q));
                self.model = Ghost(m.insert(key@, v));
                proof {
                    assert forall|j: int| 0 <= j < self.keys@.len() implies self.model@.contains_key(
                        #[trigger] self.keys@[j]@,
                    ) && self.model@[self.keys@[j]@] == self.entry(j) by {
                        if j != i {
                            assert(self.keys@[j]@ != key@);
                            assert(self.entry(j) == old(self).entry(j));
                        }
                    }
                    assert forall|k: Seq<char>| #[trigger] self.model@.contains_key(k) implies exists|j: int|
                        0 <= j < self.keys@.len() && self.keys@[j]@ == k by {
                        if k == key@ {
                            assert(self.keys@[i as int]@ == k);
                        } else {
                            assert(m.contains_key(k));
                        }
                    }
                    assert(engine_wf(self.model@)) by {
                        assert forall|k: Seq<char>| self.model@.contains_key(k) implies resource_wf(
                            #[trigger] self.model@[k],
                        ) by {
                            if k != key@ {
                                assert(m.contains_key(k));
                            }
                        }
                    }
                }
                r
            },
            _ => FrameChoice::Fallback,
        }
    }

    /// How `key` stands.
    pub fn status(&self, key: &String) -> (r: ResourceStatus)
        requires
            self.wf(),
        ensures
            r == status_kind(self@, key@),
    {
        match self.find(key) {
            None => ResourceStatus::Unknown,
            Some(i) => match &self.statuses[i] {
                Classification::Checking => ResourceStatus::Checking,
                Classification::Static => ResourceStatus::Static,
                Classification::Animated(_) => ResourceStatus::Animated,
            },
        }
    }

    /// The playback state of `key`, which exists exactly when it is animated.
    pub fn playback(&self, key: &String) -> (r: Option<PlaybackState>)
        requires
            self.wf(),
        ensures
            r == (if self@.contains_key(key@) {
                self@[key@].playback
            } else {
                None
            }),
    {
        match self.find(key) {
            None => None,
            Some(i) => self.playbacks[i],
        }
    }

    /// The encoded image of frame `index` of the animation of `key`, for the
    /// renderer to draw what a query selected.
    pub fn frame(&self, key: &String, index: usize) -> (r: Option<&Vec<u8>>)
        requires
            self.wf(),
        ensures
            r is Some <==> self@.contains_key(key@) && self@[key@].status is Animated
                && index < self@[key@].status->Animated_0.frames.len(),
            r is Some ==> r.unwrap()@ == self@[key@].status->Animated_0.frames[index as int],
    {
        match self.find(key) {
            None => None,
            Some(i) => match &self.statuses[i] {
                Classification::Animated(a) => {
                    if index < a.frame_count() {
                        Some(a.frame(index))
                    } else {
                        None
                    }
                },
                _ => None,
            },
        }
    }
}

} // verus!
