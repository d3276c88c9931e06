use crate::error::CoreError;
use crate::text::{contains_text, has_substring, same_text};
use vstd::prelude::*;

verus! {

/// Audio shorter than this many samples at the target rate is not worth a
/// run of the engine.
pub const MIN_TRANSCRIBE_SAMPLES: usize = 4800;

/// The inference runtime as a mathematical value.
pub struct RuntimeView<C> {
    pub current_model: Option<Seq<char>>,
    pub context: Option<C>,
}

/// The inference runtime holder: the name of the selected model and, once
/// loaded, the engine handle for it. `C` is the engine's handle type. It is
/// the data that the runtime lock guards; every method is one critical
/// section, and a swap replaces name and handle together.
pub struct WhisperRuntime<C> {
    current_model: Option<String>,
    context: Option<C>,
}

impl<C> View for WhisperRuntime<C> {
    type V = RuntimeView<C>;

    closed spec fn view(&self) -> RuntimeView<C> {
        RuntimeView {
            current_model: match self.current_model {
                Some(name) => Some(name@),
                None => None,
            },
            context: self.context,
        }
    }
}

/// Whether `name` is the selected model of `runtime`.
pub open spec fn active_in<C>(runtime: RuntimeView<C>, name: Seq<char>) -> bool {
    runtime.current_model == Some(name)
}

/// What to do with captured audio.
#[derive(Clone, Copy, Debug, PartialEq, Eq, Structural)]
pub enum TranscriptionPlan {
    /// No engine is loaded: answer the not-loaded sentinel.
    NotLoaded,
    /// The audio is too short: answer the empty text, the engine is not run.
    Skip,
    /// Run the engine, with the language pinned to English for an
    /// English-only model and detected by the engine otherwise.
    Run { english_only: bool },
}

/// The plan for `sample_count` captured samples on `runtime`.
pub open spec fn transcription_plan<C>(runtime: RuntimeView<C>, sample_count: int) -> TranscriptionPlan {
    if runtime.context is None {
        TranscriptionPlan::NotLoaded
    } else if sample_count < MIN_TRANSCRIBE_SAMPLES {
        TranscriptionPlan::Skip
    } else {
        TranscriptionPlan::Run {
            english_only: has_substring(
                match runtime.current_model {
                    Some(name) => name,
                    None => Seq::empty(),
                },
                ".en"@,
            ),
        }
    }
}

impl<C> Default for WhisperRuntime<C> {
    fn default() -> (r: Self)
        ensures
            r.wf(),
            r@ == (RuntimeView::<C> { current_model: None, context: None }),
    {
        WhisperRuntime::new()
    }
}

impl<C> WhisperRuntime<C> {
    /// A loaded engine always belongs to a selected model.
    pub open spec fn wf(&self) -> bool {
        self@.context is Some ==> self@.current_model is Some
    }

    /// The runtime with nothing selected and nothing loaded.
    pub fn new() -> (r: Self)
        ensures
            r.wf(),
            r@ == (RuntimeView::<C> { current_model: None, context: None }),
    {
        WhisperRuntime { current_model: None, context: None }
    }

    /// The name of the selected model.
    pub fn current_model(&self) -> (r: Option<String>)
        ensures
            match r {
                Some(name) => self@.current_model == Some(name@),
                None => self@.current_model is None,
            },
    {
        match &self.current_model {
            Some(name) => Some(name.clone()),
            None => None,
        }
    }

    /// Whether `model_name` is the selected model.
    pub fn is_active(&self, model_name: &str) -> (r: bool)
        ensures
            r == active_in(self@, model_name@),
    {
        match &self.current_model {
            Some(name) => same_text(name.as_str(), model_name),
            None => false,
        }
    }

    /// The engine handle, if one is loaded.
    pub fn engine(&self) -> (r: Option<&C>)
        ensures
            match r {
                Some(handle) => self@.context == Some(*handle),
                None => self@.context is None,
            },
    {
        self.context.as_ref()
    }

    /// Selects `model_name` without an engine: the model is wanted but its
    /// artifact is not there to load yet.
    pub fn select(&mut self, model_name: String)
        ensures
            final(self).wf(),
            final(self)@ == (RuntimeView::<C> { current_model: Some(model_name@), context: None }),
    {
        *self = WhisperRuntime { current_model: Some(model_name), context: None };
    }

    /// Swaps in `model_name` with the engine `handle` that was loaded from
    /// its artifact. Name and handle are replaced together.
    pub fn activate(&mut self, model_name: String, handle: C)
        ensures
            final(self).wf(),
            final(self)@ == (RuntimeView::<C> {
                current_model: Some(model_name@),
                context: Some(handle),
            }),
    {
        *self = WhisperRuntime { current_model: Some(model_name), context: Some(handle) };
    }

    /// Ends an activation of `model_name` with what the engine gave for its
    /// artifact: a handle is swapped in with the name; a load failure is
    /// `ModelLoadFailure` and leaves the runtime as it was.
    pub fn complete_activation(&mut self, model_name: &str, loaded: Result<C, String>) -> (r: Result<
        (),
        CoreError,
    >)
        requires
            old(self).wf(),
        ensures
            final(self).wf(),
            match loaded {
                Ok(handle) => r is Ok && final(self)@ == (RuntimeView::<C> {
                    current_model: Some(model_name@),
                    context: Some(handle),
                }),
                Err(_) => r == Err::<(), CoreError>(CoreError::ModelLoadFailure) && final(self)@
                    == old(self)@,
            },
    {
        match loaded {
            Ok(handle) => {
                self.activate(model_name.to_owned(), handle);
                Ok(())
            },
            Err(_) => Err(CoreError::ModelLoadFailure),
        }
    }

    /// Decides what to do with `sample_count` captured samples.
    pub fn plan_transcription(&self, sample_count: usize) -> (plan: TranscriptionPlan)
        ensures
            plan == transcription_plan(self@, sample_count as int),
    {
        if self.context.is_none() {
            TranscriptionPlan::NotLoaded
        } else if sample_count < MIN_TRANSCRIBE_SAMPLES {
            TranscriptionPlan::Skip
        } else {
            let english_only = match &self.current_model {
                Some(name) => contains_text(name.as_str(), ".en"),
                None => contains_text("", ".en"),
            };
            proof {
                reveal_strlit("");
                assert(""@ =~= Seq::<char>::empty());
            }
            TranscriptionPlan::Run { english_only }
        }
    }
}

} // verus!
