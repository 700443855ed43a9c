use crate::models::{model_file, model_path, ModelKind};
use crate::safety::determine_safe_threads;
use crate::text::concat;
use vstd::prelude::*;

verus! {

/// Why a model could not be brought into memory.
#[derive(Debug)]
pub struct LoadError {
    pub reason: String,
}

/// What a load has to do once the manager has looked at its state.
#[derive(Debug)]
pub enum LoadStep {
    /// The requested model is already live: nothing to construct.
    Keep,
    /// The previous engine, if any, has been released; construct a new one
    /// from this file with this many threads.
    Construct { path: String, threads: i32 },
}

/// Owns at most one live engine, and the kind of model it was built from.
pub struct ModelManager<E> {
    current_kind: Option<ModelKind>,
    active_engine: Option<E>,
}

/// The text that opens the reason of a failed load.
pub open spec fn load_failure_prefix() -> Seq<char> {
    "Model Load Failure: "@
}

/// Whether loading `kind` while `current` is loaded must construct an engine.
pub open spec fn needs_construct(current: Option<ModelKind>, kind: ModelKind) -> bool {
    current != Some(kind)
}

impl<E> ModelManager<E> {
    /// The kind of the live model, if any.
    pub closed spec fn kind(&self) -> Option<ModelKind> {
        self.current_kind
    }

    /// The live engine, if any.
    pub closed spec fn engine(&self) -> Option<E> {
        self.active_engine
    }

    /// A kind is recorded exactly when an engine is live.
    pub open spec fn wf(&self) -> bool {
        self.kind() is Some <==> self.engine() is Some
    }

    /// A manager with nothing loaded.
    pub fn new() -> (r: Self)
        ensures
            r.wf(),
            r.kind() is None,
            r.engine() is None,
    {
        ModelManager { current_kind: None, active_engine: None }
    }

    /// First half of a load. If `kind` is already live, nothing changes and
    /// the step is `Keep`. Otherwise the live engine is dropped here, before
    /// anything new is allocated, and the step names the file and the thread
    /// count to construct the next engine with.
    pub fn begin_load(&mut self, kind: ModelKind, threads: i32) -> (step: LoadStep)
        requires
            old(self).wf(),
        ensures
            final(self).wf(),
            begin_result(*old(self), *final(self), kind, threads, step),
    {
        if self.current_kind == Some(kind) {
            return LoadStep::Keep;
        }
        self.active_engine = None;
        self.current_kind = None;
        LoadStep::Construct { path: model_path(kind), threads }
    }

    /// Second half of a load: installs the engine that was built for `kind`,
    /// or stays empty and reports why construction failed.
    pub fn finish_load(&mut self, kind: ModelKind, built: Result<E, String>) -> (r: Result<
        (),
        LoadError,
    >)
        requires
            old(self).kind() is None,
            old(self).engine() is None,
        ensures
            final(self).wf(),
            installed(*final(self), kind, built, r),
    {
        match built {
            Ok(engine) => {
                self.active_engine = Some(engine);
                self.current_kind = Some(kind);
                Ok(())
            },
            Err(msg) => {
                proof {
                    reveal_strlit("Model Load Failure: ");
                }
                Err(LoadError { reason: concat("Model Load Failure: ", msg.as_str()) })
            },
        }
    }

    /// Makes `kind` the live model. Loading the kind that is already live does
    /// nothing. Otherwise `begin_load` releases the previous engine, then
    /// `construct` is called once with the model's path and a thread count
    /// from the thermal policy; if it fails, nothing is left loaded and the
    /// reason says so.
    pub fn load<F: FnOnce(String, i32) -> Result<E, String>>(
        &mut self,
        kind: ModelKind,
        construct: F,
    ) -> (r: Result<(), LoadError>)
        requires
            old(self).wf(),
            needs_construct(old(self).kind(), kind) ==> forall|p: String, t: i32|
                construct.requires((p, t)),
        ensures
            final(self).wf(),
            exists|built: Option<Result<E, String>>|
                {
                    &&& load_result(*old(self), *final(self), kind, built, r)
                    &&& built matches Some(b) ==> exists|p: String, t: i32|
                        {
                            &&& p@ == model_file(kind)
                            &&& 2 <= t <= 4
                            &&& construct.ensures((p, t), b)
                        }
                },
    {
        let threads = determine_safe_threads();
        match self.begin_load(kind, threads) {
            LoadStep::Keep => {
                let r = Ok(());
                assert(load_result(*old(self), *self, kind, None, r));
                r
            },
            LoadStep::Construct { path, threads } => {
                let ghost p = path;
                let built = construct(path, threads);
                let r = self.finish_load(kind, built);
                assert(construct.ensures((p, threads), built));
                assert(load_result(*old(self), *self, kind, Some(built), r));
                r
            },
        }
    }

    /// Releases the live engine, if any; afterwards nothing is loaded.
    pub fn unload(&mut self)
        ensures
            final(self).wf(),
            final(self).kind() is None,
            final(self).engine() is None,
    {
        self.active_engine = None;
        self.current_kind = None;
    }

    /// The kind of the live model, if any.
    pub fn current_kind(&self) -> (r: Option<ModelKind>)
        ensures
            r == self.kind(),
    {
        self.current_kind
    }

    /// Whether an engine is live.
    pub fn is_loaded(&self) -> (r: bool)
        ensures
            r == self.engine() is Some,
    {
        self.active_engine.is_some()
    }

    /// The live engine, for generation; the manager never generates itself.
    pub fn engine_mut(&mut self) -> (r: Option<&mut E>)
        ensures
            final(self).kind() == old(self).kind(),
            (r is Some) == (old(self).engine() is Some),
            r matches Some(e) ==> old(self).engine() == Some(*e) && final(self).engine() == Some(
                *final(e),
            ),
            r is None ==> final(self).engine() is None,
    {
        self.active_engine.as_mut()
    }
}

/// What `begin_load` did: kept a live model of the requested kind untouched,
/// or released everything and asked for a construction from the kind's file.
pub open spec fn begin_result<E>(
    before: ModelManager<E>,
    after: ModelManager<E>,
    kind: ModelKind,
    threads: i32,
    step: LoadStep,
) -> bool {
    if needs_construct(before.kind(), kind) {
        &&& step matches LoadStep::Construct { path, threads: t }
        &&& path@ == model_file(kind)
        &&& t == threads
        &&& after.kind() is None
        &&& after.engine() is None
    } else {
        step is Keep && after == before
    }
}

/// The manager after an engine for `kind` was offered to it: live on success,
/// empty on failure, with the constructor's reason after a fixed prefix.
pub open spec fn installed<E>(
    after: ModelManager<E>,
    kind: ModelKind,
    built: Result<E, String>,
    r: Result<(), LoadError>,
) -> bool {
    match built {
        Ok(e) => r is Ok && after.kind() == Some(kind) && after.engine() == Some(e),
        Err(msg) => (r matches Err(err) && err.reason@ == load_failure_prefix() + msg@)
            && after.kind() is None && after.engine() is None,
    }
}

/// What a `load` of `kind` did: `built` is `None` when nothing was constructed,
/// else what the single construction returned.
pub open spec fn load_result<E>(
    before: ModelManager<E>,
    after: ModelManager<E>,
    kind: ModelKind,
    built: Option<Result<E, String>>,
    r: Result<(), LoadError>,
) -> bool {
    match built {
        None => !needs_construct(before.kind(), kind) && r is Ok && after == before,
        Some(b) => needs_construct(before.kind(), kind) && installed(after, kind, b, r),
    }
}

/// Loading a kind twice in a row constructs one engine at most: after a
/// successful first load, the second constructs nothing, succeeds, and leaves
/// the same engine live.
pub proof fn load_is_idempotent<E>(
    m0: ModelManager<E>,
    m1: ModelManager<E>,
    m2: ModelManager<E>,
    kind: ModelKind,
    b1: Option<Result<E, String>>,
    b2: Option<Result<E, String>>,
    r1: Result<(), LoadError>,
    r2: Result<(), LoadError>,
)
    requires
        m0.wf(),
        load_result(m0, m1, kind, b1, r1),
        r1 is Ok,
        load_result(m1, m2, kind, b2, r2),
    ensures
        b2 is None,
        r2 is Ok,
        m2 == m1,
        m2.kind() == Some(kind),
{
}

/// Switching from one kind to another leaves exactly the new engine live, and
/// the old one is released before the new one is constructed: the step that
/// asks for the construction already leaves the manager empty.
pub proof fn switching_releases_first<E>(
    m1: ModelManager<E>,
    mid: ModelManager<E>,
    m2: ModelManager<E>,
    k1: ModelKind,
    k2: ModelKind,
    threads: i32,
    step: LoadStep,
    b2: Option<Result<E, String>>,
    r2: Result<(), LoadError>,
)
    requires
        m1.wf(),
        m1.kind() == Some(k1),
        k1 != k2,
        begin_result(m1, mid, k2, threads, step),
        load_result(m1, m2, k2, b2, r2),
        r2 is Ok,
    ensures
        step is Construct,
        mid.engine() is None,
        b2 matches Some(Ok(e)) && m2.engine() == Some(e),
        m2.kind() == Some(k2),
{
}

/// A failed switch does not fall back to the previous model: nothing is left
/// loaded.
pub proof fn failed_switch_leaves_nothing<E>(
    m1: ModelManager<E>,
    m2: ModelManager<E>,
    k1: ModelKind,
    k2: ModelKind,
    b2: Option<Result<E, String>>,
    r2: Result<(), LoadError>,
)
    requires
        m1.wf(),
        m1.kind() == Some(k1),
        load_result(m1, m2, k2, b2, r2),
        r2 is Err,
    ensures
        b2 matches Some(Err(_)),
        m2.kind() is None,
        m2.engine() is None,
{
}

} // verus!
