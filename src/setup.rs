//! Construction of a core: load the runtime, settle the plugin configuration path, create.
use vstd::prelude::*;
use crate::error::{check_status, status_result, LoadingError, SetupError};

verus! {

/// What core construction asks its caller to do next.
#[derive(Debug)]
pub enum SetupAction {
    /// Load the native runtime's shared libraries; loading them again is harmless.
    LoadLibrary,
    /// Look for a default plugin configuration file.
    FindPluginsXml,
    /// Create the native core from this plugin configuration path; an empty path asks the engine
    /// for its built-in defaults.
    CreateCore(String),
    /// The native core was created: its handle is the constructed core.
    Ready,
    /// Construction failed and no native core exists.
    Fail(SetupError),
}

/// What the search for a default plugin configuration file found.
#[derive(Debug)]
pub enum Discovery {
    NotFound,
    Found(String),
    /// A file was found whose path is not valid Unicode.
    NotUnicode,
}

/// Which outcome a construction is waiting for.
#[derive(Clone, Copy, Debug, PartialEq, Eq, Structural)]
pub enum SetupPhase {
    LoadingLibrary,
    FindingPluginsXml,
    CreatingCore,
    Done,
}

/// The steps of one core construction, driven by the outcomes of the native calls.
pub struct CoreSetup {
    explicit: Option<String>,
    phase: SetupPhase,
}

/// The characters of an optional path.
pub open spec fn path_view(p: Option<&str>) -> Option<Seq<char>> {
    match p {
        Some(s) => Some(s@),
        None => None,
    }
}

impl CoreSetup {
    /// The outcome this construction is waiting for.
    pub closed spec fn phase(&self) -> SetupPhase {
        self.phase
    }

    /// The configuration path that the caller gave, if any.
    pub closed spec fn explicit_path(&self) -> Option<Seq<char>> {
        match self.explicit {
            Some(s) => Some(s@),
            None => None,
        }
    }

    /// Discovery is consulted only when the caller gave no path.
    pub open spec fn wf(&self) -> bool {
        self.explicit_path() is Some ==> self.phase() != SetupPhase::FindingPluginsXml
    }

    /// Begin constructing a core, with the caller's plugin configuration path if one is given.
    pub fn new(xml_config_file: Option<&str>) -> (r: (CoreSetup, SetupAction))
        ensures
            r.0.wf(),
            r.0.phase() == SetupPhase::LoadingLibrary,
            r.0.explicit_path() == path_view(xml_config_file),
            r.1 is LoadLibrary,
    {
        let explicit = match xml_config_file {
            Some(s) => Some(s.to_owned()),
            None => None,
        };
        (CoreSetup { explicit, phase: SetupPhase::LoadingLibrary }, SetupAction::LoadLibrary)
    }

    /// The runtime's libraries were loaded, or could not be. A path given by the caller is used
    /// as it is, and discovery is then never consulted.
    pub fn on_library_loaded(&mut self, loaded: Result<(), String>) -> (a: SetupAction)
        requires
            old(self).wf(),
            old(self).phase() == SetupPhase::LoadingLibrary,
        ensures
            final(self).wf(),
            final(self).explicit_path() == old(self).explicit_path(),
            match loaded {
                Err(msg) => {
                    &&& a == SetupAction::Fail(SetupError::Loading(LoadingError::SystemFailure(msg)))
                    &&& final(self).phase() == SetupPhase::Done
                },
                Ok(_) => match old(self).explicit_path() {
                    Some(p) => {
                        &&& a matches SetupAction::CreateCore(c) && c@ == p
                        &&& final(self).phase() == SetupPhase::CreatingCore
                    },
                    None => {
                        &&& a is FindPluginsXml
                        &&& final(self).phase() == SetupPhase::FindingPluginsXml
                    },
                },
            },
    {
        match loaded {
            Err(msg) => {
                self.phase = SetupPhase::Done;
                SetupAction::Fail(SetupError::Loading(LoadingError::SystemFailure(msg)))
            },
            Ok(()) => match &self.explicit {
                Some(p) => {
                    let c = p.clone();
                    self.phase = SetupPhase::CreatingCore;
                    SetupAction::CreateCore(c)
                },
                None => {
                    self.phase = SetupPhase::FindingPluginsXml;
                    SetupAction::FindPluginsXml
                },
            },
        }
    }

    /// Discovery reported its result. With nothing found the engine's defaults are asked for.
    pub fn on_plugins_xml(&mut self, found: Discovery) -> (a: SetupAction)
        requires
            old(self).wf(),
            old(self).phase() == SetupPhase::FindingPluginsXml,
        ensures
            final(self).wf(),
            final(self).explicit_path() == old(self).explicit_path(),
            match found {
                Discovery::NotFound => {
                    &&& a matches SetupAction::CreateCore(c) && c@ == Seq::<char>::empty()
                    &&& final(self).phase() == SetupPhase::CreatingCore
                },
                Discovery::Found(p) => {
                    &&& a matches SetupAction::CreateCore(c) && c@ == p@
                    &&& final(self).phase() == SetupPhase::CreatingCore
                },
                Discovery::NotUnicode => {
                    &&& a == SetupAction::Fail(SetupError::Loading(LoadingError::CannotStringifyPath))
                    &&& final(self).phase() == SetupPhase::Done
                },
            },
    {
        match found {
            Discovery::NotFound => {
                self.phase = SetupPhase::CreatingCore;
                SetupAction::CreateCore(String::new())
            },
            Discovery::Found(p) => {
                self.phase = SetupPhase::CreatingCore;
                SetupAction::CreateCore(p)
            },
            Discovery::NotUnicode => {
                self.phase = SetupPhase::Done;
                SetupAction::Fail(SetupError::Loading(LoadingError::CannotStringifyPath))
            },
        }
    }

    /// The native create call reported `status`.
    pub fn on_core_created(&mut self, status: i32) -> (a: SetupAction)
        requires
            old(self).wf(),
            old(self).phase() == SetupPhase::CreatingCore,
        ensures
            final(self).wf(),
            final(self).explicit_path() == old(self).explicit_path(),
            final(self).phase() == SetupPhase::Done,
            match status_result(status) {
                Ok(_) => a is Ready,
                Err(e) => a == SetupAction::Fail(SetupError::Inference(e)),
            },
    {
        self.phase = SetupPhase::Done;
        match check_status(status) {
            Ok(()) => SetupAction::Ready,
            Err(e) => SetupAction::Fail(SetupError::Inference(e)),
        }
    }
}

} // verus!
