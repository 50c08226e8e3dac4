//! The session registry and the observer capability through which a running
//! relay reports that its stream has ended.

use crate::handle::{guard_mut, SafeRef};
use crate::pipeline::{ConstructionError, Pipeline, State};
use crate::probe::EosProbe;
use std::collections::HashMap;
use vstd::prelude::*;

verus! {

/// Capability of being told that the stream of a session has ended.
pub trait PipelineObserver: Sized {
    /// What a notification for `ssrc` does to the observer: `post` is a state
    /// the observer may be in after being notified in state `pre`.
    open spec fn eos_effect(pre: Self, ssrc: u32, post: Self) -> bool {
        true
    }

    /// Reports that the stream of session `ssrc` has ended.
    fn on_eos(&mut self, ssrc: u32)
        ensures
            Self::eos_effect(*old(self), ssrc, *final(self)),
    ;
}

/// The sessions `sessions` with session `ssrc` started.
pub open spec fn with_session(sessions: Map<u32, u32>, ssrc: u32) -> Map<u32, u32> {
    sessions.insert(ssrc, ssrc)
}

/// The sessions `sessions` with session `ssrc` ended.
pub open spec fn without_session(sessions: Map<u32, u32>, ssrc: u32) -> Map<u32, u32> {
    sessions.remove(ssrc)
}

/// A session that is started and then ended is not in the registry, and
/// ending it once more changes nothing.
pub proof fn lemma_start_then_end(sessions: Map<u32, u32>, ssrc: u32)
    ensures
        !without_session(with_session(sessions, ssrc), ssrc).contains_key(ssrc),
        without_session(without_session(with_session(sessions, ssrc), ssrc), ssrc)
            == without_session(with_session(sessions, ssrc), ssrc),
{
    let ended = without_session(with_session(sessions, ssrc), ssrc);
    assert(without_session(ended, ssrc) =~= ended);
}

/// Ending a session is idempotent: the second end of a session finds
/// nothing to remove.
pub proof fn lemma_end_is_idempotent(sessions: Map<u32, u32>, ssrc: u32)
    ensures
        without_session(without_session(sessions, ssrc), ssrc) == without_session(sessions, ssrc),
        !sessions.contains_key(ssrc) ==> without_session(sessions, ssrc) == sessions,
{
    assert(without_session(without_session(sessions, ssrc), ssrc) =~= without_session(
        sessions,
        ssrc,
    ));
    if !sessions.contains_key(ssrc) {
        assert(without_session(sessions, ssrc) =~= sessions);
    }
}

/// The end of a session removes that session alone: every other session is
/// in the registry afterwards exactly if it was before, with the metadata it
/// had.
pub proof fn lemma_end_touches_one_session(sessions: Map<u32, u32>, ssrc: u32, other: u32)
    requires
        other != ssrc,
    ensures
        without_session(sessions, ssrc).contains_key(other) == sessions.contains_key(other),
        sessions.contains_key(other) ==> without_session(sessions, ssrc)[other] == sessions[other],
{
}

/// The end of a session never creates an entry: whatever is registered
/// afterwards was registered before. Where the session was registered, the
/// registry has one entry fewer.
pub proof fn lemma_end_creates_no_session(sessions: Map<u32, u32>, ssrc: u32)
    ensures
        without_session(sessions, ssrc).dom().subset_of(sessions.dom()),
        !without_session(sessions, ssrc).contains_key(ssrc),
        sessions.dom().finite() && sessions.contains_key(ssrc) ==> without_session(
            sessions,
            ssrc,
        ).len() == sessions.len() - 1,
{
}

/// An end that comes before the start removes nothing that the start does
/// not bring back: the session is registered after the start, whether it was
/// ended early or not, and every other session is as it was.
pub proof fn lemma_end_before_start(sessions: Map<u32, u32>, ssrc: u32)
    ensures
        with_session(without_session(sessions, ssrc), ssrc) == with_session(sessions, ssrc),
        with_session(without_session(sessions, ssrc), ssrc).contains_key(ssrc),
        !sessions.contains_key(ssrc) ==> without_session(sessions, ssrc) == sessions,
{
    assert(with_session(without_session(sessions, ssrc), ssrc) =~= with_session(sessions, ssrc));
    if !sessions.contains_key(ssrc) {
        assert(without_session(sessions, ssrc) =~= sessions);
    }
}

/// A session that is registered and whose probe then reports the end of the
/// stream leaves the registry as it was without it: the key that is
/// registered, the identifier that the probe reports and the identifier of
/// the pipeline are one.
pub proof fn lemma_session_comes_and_goes(
    sessions: Map<u32, u32>,
    session: Session,
    pipeline: Pipeline,
)
    requires
        session.started_from(pipeline),
    ensures
        session.probe.session() == session.pipeline.session() == pipeline.session(),
        without_session(
            with_session(sessions, session.pipeline.session()),
            session.probe.session(),
        ) == without_session(sessions, pipeline.session()),
        !sessions.contains_key(pipeline.session()) ==> without_session(
            with_session(sessions, session.pipeline.session()),
            session.probe.session(),
        ) == sessions,
{
    let id = pipeline.session();
    assert(without_session(with_session(sessions, id), id) =~= without_session(sessions, id));
    if !sessions.contains_key(id) {
        assert(without_session(sessions, id) =~= sessions);
    }
}

/// The end of one session and the start or end of another may come in
/// either order: the registry is the same afterwards.
pub proof fn lemma_unrelated_sessions_commute(sessions: Map<u32, u32>, ssrc: u32, other: u32)
    requires
        other != ssrc,
    ensures
        without_session(with_session(sessions, other), ssrc) == with_session(
            without_session(sessions, ssrc),
            other,
        ),
        without_session(without_session(sessions, other), ssrc) == without_session(
            without_session(sessions, ssrc),
            other,
        ),
{
    assert(without_session(with_session(sessions, other), ssrc) =~= with_session(
        without_session(sessions, ssrc),
        other,
    ));
    assert(without_session(without_session(sessions, other), ssrc) =~= without_session(
        without_session(sessions, ssrc),
        other,
    ));
}

/// The session registry: one entry per active relay, keyed by its session
/// identifier. The value is the session's metadata, a placeholder token.
pub struct Audioshare {
    pub hash_map: HashMap<u32, u32>,
}

impl View for Audioshare {
    type V = Map<u32, u32>;

    open spec fn view(&self) -> Map<u32, u32> {
        self.hash_map@
    }
}

impl Audioshare {
    /// An empty registry.
    pub fn new() -> (registry: Audioshare)
        ensures
            registry@ == Map::<u32, u32>::empty(),
    {
        Audioshare { hash_map: HashMap::new() }
    }

    /// Records the session `ssrc` with its initial metadata, replacing an
    /// entry of the same identifier.
    pub fn insert_session(&mut self, ssrc: u32)
        ensures
            final(self)@ == with_session(old(self)@, ssrc),
    {
        broadcast use vstd::std_specs::hash::group_hash_axioms;
        self.hash_map.insert(ssrc, ssrc);
    }

    /// Whether a session `ssrc` is registered.
    pub fn contains(&self, ssrc: u32) -> (present: bool)
        ensures
            present == self@.contains_key(ssrc),
    {
        broadcast use vstd::std_specs::hash::group_hash_axioms;
        self.hash_map.contains_key(&ssrc)
    }

    /// The number of registered sessions.
    pub fn len(&self) -> (n: usize)
        ensures
            n == self@.len(),
            self@.dom().finite(),
    {
        broadcast use vstd::std_specs::hash::group_hash_axioms;
        self.hash_map.len()
    }

    /// Records a session that has been started, under the identifier of its
    /// pipeline and with its initial metadata. Nothing else changes.
    pub fn register(&mut self, session: &Session)
        ensures
            final(self)@ == with_session(old(self)@, session.pipeline.session()),
    {
        self.insert_session(session.pipeline.ssrc());
    }

    /// The number of sessions in the registry behind `audioshare`, as the
    /// lock finds it.
    pub fn session_count(audioshare: &SafeRef<Audioshare>) -> usize {
        let mut guard = audioshare.lock();
        guard_mut(&mut guard).len()
    }

    /// Whether session `ssrc` is in the registry behind `audioshare`, as the
    /// lock finds it.
    pub fn has_session(audioshare: &SafeRef<Audioshare>, ssrc: u32) -> bool {
        let mut guard = audioshare.lock();
        guard_mut(&mut guard).contains(ssrc)
    }

    /// Takes a session into the registry behind `audioshare`. `built` is what
    /// became of building the session's pipeline in the runtime.
    ///
    /// A pipeline that was built and is not playing yet is started, with a
    /// weak reference to the registry as its observer, and the session is
    /// then handed to [`Audioshare::register`] under the registry's lock,
    /// which is held for that call alone. A construction error is handed on as it is, and a
    /// pipeline that is playing already is refused: in both cases the
    /// registry is not touched.
    pub fn add_pipeline(audioshare: &SafeRef<Audioshare>, built: Result<Pipeline, ConstructionError>) -> (session:
        Result<Session, ConstructionError>)
        requires
            built is Ok ==> built->Ok_0.wf(),
        ensures
            match built {
                Err(error) => session == Err::<Session, ConstructionError>(error),
                Ok(pipeline) => if pipeline.lifecycle() == State::Playing {
                    session == Err::<Session, ConstructionError>(ConstructionError::AlreadyStarted)
                } else {
                    session is Ok && session->Ok_0.started_from(pipeline)
                },
            },
    {
        match built {
            Err(error) => Err(error),
            Ok(pipeline) => {
                let mut pipeline = pipeline;
                let audioshare_weak = audioshare.downgrade();
                match pipeline.start(audioshare_weak) {
                    None => Err(ConstructionError::AlreadyStarted),
                    Some(probe) => {
                        let session = Session { pipeline, probe };
                        {
                            let mut guard = audioshare.lock();
                            guard_mut(&mut guard).register(&session);
                        }
                        Ok(session)
                    },
                }
            },
        }
    }
}

/// A session that has been started: its pipeline, and the probe that is to
/// sit on the input of the pipeline's sink.
pub struct Session {
    pub pipeline: Pipeline,
    pub probe: EosProbe<Audioshare>,
}

impl Session {
    /// The session is what starting `pipeline` gives: the same graph, now
    /// playing, and a probe for the pipeline's session.
    pub open spec fn started_from(&self, pipeline: Pipeline) -> bool {
        &&& self.pipeline.wf()
        &&& self.pipeline.stages() == pipeline.stages()
        &&& self.pipeline.edges() == pipeline.edges()
        &&& self.pipeline.session() == pipeline.session()
        &&& self.pipeline.lifecycle() == State::Playing
        &&& self.probe.session() == pipeline.session()
    }
}

impl PipelineObserver for Audioshare {
    open spec fn eos_effect(pre: Self, ssrc: u32, post: Self) -> bool {
        post@ == without_session(pre@, ssrc)
    }

    /// Drops the entry of session `ssrc`; without such an entry nothing
    /// changes.
    fn on_eos(&mut self, ssrc: u32) {
        broadcast use vstd::std_specs::hash::group_hash_axioms;
        self.hash_map.remove(&ssrc);
    }
}

} // verus!
