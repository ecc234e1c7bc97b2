//! The model slot: the single holder of "which model, with which
//! configuration, is active".
//!
//! The native model object itself is owned by the surrounding application
//! (it is shared, reference-counted, with any still-running sessions); the
//! slot is the verified record of the lifecycle: `Empty -> Loaded` by a
//! completed load, `Loaded -> Loaded` by a replacing load, `Loaded -> Empty`
//! by unload.

use vstd::prelude::*;

use crate::config::spec_default_config;
use crate::config::ModelConfig;
use crate::error::LlamaError;

verus! {

use vstd::string::StringExecFns;

/// The single-slot model lifecycle record.
pub struct ModelSlot {
    loaded: bool,
    current_model_path: Option<String>,
    config: ModelConfig,
}

impl ModelSlot {
    /// Whether a model is installed.
    pub closed spec fn is_loaded_spec(&self) -> bool {
        self.loaded
    }

    /// The source path of the installed model, if one is installed.
    pub closed spec fn path_view(&self) -> Option<Seq<char>> {
        match self.current_model_path {
            Some(p) => Some(p@),
            None => None,
        }
    }

    /// The configuration the installed model was loaded with.
    pub closed spec fn config_spec(&self) -> ModelConfig {
        self.config
    }

    /// A slot the engine accepts: its configuration is well-formed, and it
    /// records a path exactly when it records a model.
    pub closed spec fn wf(&self) -> bool {
        &&& self.config.wf()
        &&& self.loaded == (self.current_model_path is Some)
    }

    /// An empty slot with the default configuration.
    pub fn new() -> (s: ModelSlot)
        ensures
            s.wf(),
            !s.is_loaded_spec(),
            s.path_view() is None,
            s.config_spec() == spec_default_config(),
    {
        ModelSlot { loaded: false, current_model_path: None, config: ModelConfig::default() }
    }

    /// Records a completed model load: atomically replaces whatever was
    /// installed with the model loaded from `path` under `config`.
    pub fn install_model(&mut self, path: String, config: ModelConfig)
        requires
            old(self).wf(),
            config.wf(),
        ensures
            final(self).wf(),
            final(self).is_loaded_spec(),
            final(self).path_view() == Some(path@),
            final(self).config_spec() == config,
    {
        self.loaded = true;
        self.current_model_path = Some(path);
        self.config = config;
    }

    /// Clears the slot; a no-op if nothing is loaded.
    pub fn unload_model(&mut self)
        requires
            old(self).wf(),
        ensures
            final(self).wf(),
            *final(self) == spec_unload(*old(self)),
            !final(self).is_loaded_spec(),
            final(self).path_view() is None,
            final(self).config_spec() == old(self).config_spec(),
    {
        self.loaded = false;
        self.current_model_path = None;
    }

    /// Whether a model is loaded; a pure read.
    pub fn is_model_loaded(&self) -> (r: bool)
        ensures
            r == self.is_loaded_spec(),
    {
        self.loaded
    }

    /// The configuration the installed model was loaded with; a pure read.
    pub fn get_config(&self) -> (r: ModelConfig)
        ensures
            r == self.config_spec(),
    {
        self.config
    }

    /// The current model's source path; a pure read.
    pub fn get_current_model_path(&self) -> (r: Option<String>)
        ensures
            match r {
                Some(p) => self.path_view() == Some(p@),
                None => self.path_view() is None,
            },
    {
        match &self.current_model_path {
            Some(p) => Some(p.clone()),
            None => None,
        }
    }
}

/// The slot value after an unload.
pub closed spec fn spec_unload(s: ModelSlot) -> ModelSlot {
    ModelSlot { loaded: false, current_model_path: None, ..s }
}

/// Law: unloading is idempotent — a second unload changes nothing — and no
/// model is recorded as loaded after either one.
pub proof fn lemma_unload_idempotent(s: ModelSlot)
    ensures
        spec_unload(spec_unload(s)) == spec_unload(s),
        !spec_unload(s).is_loaded_spec(),
        spec_unload(s).path_view() is None,
        spec_unload(s).config_spec() == s.config_spec(),
{
}

/// Decides a load request: the load fails with `ModelLoadError` when the
/// file is missing or the requested configuration is unusable; otherwise the
/// effective configuration (the request's, or the default) is handed back
/// for the native load to run with.
pub fn plan_load(path: &str, path_exists: bool, config: Option<ModelConfig>) -> (r: Result<
    ModelConfig,
    LlamaError,
>)
    ensures
        match r {
            Ok(c) => {
                &&& path_exists
                &&& c.wf()
                &&& c == (match config {
                    Some(g) => g,
                    None => spec_default_config(),
                })
            },
            Err(e) => {
                &&& (!path_exists || !(match config {
                    Some(g) => g,
                    None => spec_default_config(),
                }).wf())
                &&& e matches LlamaError::ModelLoadError(_)
                &&& (!path_exists ==> (e matches LlamaError::ModelLoadError(d) && d@
                    == "Model file not found: "@ + path@))
            },
        },
        r is Err <==> (!path_exists || !(match config {
            Some(g) => g,
            None => spec_default_config(),
        }).wf()),
{
    if !path_exists {
        return Err(
            LlamaError::ModelLoadError(String::from_str("Model file not found: ").concat(path)),
        );
    }
    let effective = match config {
        Some(g) => g,
        None => ModelConfig::default(),
    };
    if effective.context_size == 0 || effective.context_size > 0x7fff_ffff
        || effective.batch_size == 0 || effective.batch_size > 0x7fff_ffff {
        return Err(
            LlamaError::ModelLoadError(
                String::from_str("invalid configuration: context and batch sizes must be positive 32-bit token counts"),
            ),
        );
    }
    Ok(effective)
}

} // verus!
