//! The engine's life cycle: a configuration and at most one running pipeline.
use vstd::prelude::*;

use crate::text::to_owned;

verus! {

/// Where the engine's database is and how the default views are set up.
pub struct EngineConfig {
    pub db_server: String,
    pub db_user: String,
    pub db_password: String,
    pub suppress_default_views: bool,
}

/// A configuration from what the caller gave, with the defaults
/// `localhost:7687`, `neo4j` and `opus` for what it left out.
pub fn config_with_defaults(
    db_server: Option<String>,
    db_user: Option<String>,
    db_password: Option<String>,
    suppress_default_views: bool,
) -> (r: EngineConfig)
    ensures
        r.db_server@ == (match db_server {
            Some(s) => s@,
            None => "localhost:7687"@,
        }),
        r.db_user@ == (match db_user {
            Some(s) => s@,
            None => "neo4j"@,
        }),
        r.db_password@ == (match db_password {
            Some(s) => s@,
            None => "opus"@,
        }),
        r.suppress_default_views == suppress_default_views,
{
    EngineConfig {
        db_server: match db_server {
            Some(s) => s,
            None => to_owned("localhost:7687"),
        },
        db_user: match db_user {
            Some(s) => s,
            None => to_owned("neo4j"),
        },
        db_password: match db_password {
            Some(s) => s,
            None => to_owned("opus"),
        },
        suppress_default_views,
    }
}

/// The engine: its configuration and the pipeline `P`, when one runs.
pub struct Engine<P> {
    cfg: EngineConfig,
    pipeline: Option<P>,
}

/// Where a pipeline is needed and none runs.
pub open spec fn not_running() -> Seq<char> {
    "Pipeline not running"@
}

impl<P> Engine<P> {
    /// The running pipeline, if any.
    pub closed spec fn spec_pipeline(&self) -> Option<P> {
        self.pipeline
    }

    /// The configuration, in specifications.
    pub closed spec fn spec_cfg(&self) -> EngineConfig {
        self.cfg
    }

    /// The configuration.
    pub fn cfg(&self) -> (r: &EngineConfig)
        ensures
            *r == self.spec_cfg(),
    {
        &self.cfg
    }

    /// An engine with no pipeline running.
    pub fn new(cfg: EngineConfig) -> (r: Self)
        ensures
            r.spec_cfg() == cfg,
            r.spec_pipeline() is None,
    {
        Engine { cfg, pipeline: None }
    }

    /// Whether a pipeline runs.
    pub fn is_running(&self) -> (r: bool)
        ensures
            r == self.spec_pipeline() is Some,
    {
        self.pipeline.is_some()
    }

    /// Starts `pipeline`, unless one already runs.
    pub fn init_pipeline(&mut self, pipeline: P) -> (r: Result<(), &'static str>)
        ensures
            final(self).spec_cfg() == old(self).spec_cfg(),
            match r {
                Ok(_) => old(self).spec_pipeline() is None && final(self).spec_pipeline() == Some(
                    pipeline,
                ),
                Err(e) => old(self).spec_pipeline() is Some && e@ == "Pipeline already running"@
                    && final(self).spec_pipeline() == old(self).spec_pipeline(),
            },
    {
        if self.pipeline.is_some() {
            return Err("Pipeline already running");
        }
        self.pipeline = Some(pipeline);
        Ok(())
    }

    /// Stops the running pipeline and hands it back for shutting down.
    pub fn shutdown_pipeline(&mut self) -> (r: Result<P, &'static str>)
        ensures
            final(self).spec_cfg() == old(self).spec_cfg(),
            final(self).spec_pipeline() is None,
            match r {
                Ok(p) => old(self).spec_pipeline() == Some(p),
                Err(e) => old(self).spec_pipeline() is None && e@ == not_running(),
            },
    {
        match self.pipeline.take() {
            Some(p) => Ok(p),
            None => Err("Pipeline not running"),
        }
    }

    /// The running pipeline.
    pub fn pipeline(&self) -> (r: Result<&P, &'static str>)
        ensures
            match r {
                Ok(p) => self.spec_pipeline() == Some(*p),
                Err(e) => self.spec_pipeline() is None && e@ == not_running(),
            },
    {
        match &self.pipeline {
            Some(p) => Ok(p),
            None => Err("Pipeline not running"),
        }
    }

    /// The running pipeline, for changing it.
    pub fn pipeline_mut(&mut self) -> (r: Option<&mut P>)
        ensures
            final(self).spec_cfg() == old(self).spec_cfg(),
            match old(self).spec_pipeline() {
                None => r is None && final(self).spec_pipeline() is None,
                Some(p) => r is Some && *r->0 == p && final(self).spec_pipeline() == Some(
                    *final(r->0),
                ),
            },
    {
        self.pipeline.as_mut()
    }
}

/// The handle the C interface gives out: an engine.
pub struct OpusHdl<P>(pub Engine<P>);

} // verus!
