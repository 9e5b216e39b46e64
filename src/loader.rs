use vstd::prelude::*;
use vstd::string::StringExecFns;

use crate::records::PluginId;

verus! {

/// Why a plugin library could not be loaded.
#[derive(Clone, Copy, PartialEq, Eq, Structural, Debug)]
pub enum LoadError {
    /// The file is missing or is not a dynamic library.
    NotFound,
    /// The library lacks the entry module, or its version or layout differ
    /// from what the host was built against.
    Incompatible,
    /// No plugin name could be taken from the file's path.
    MissingFileName,
}

impl LoadError {
    pub fn is_incompatible(&self) -> (r: bool)
        ensures
            r <==> *self == LoadError::Incompatible,
    {
        match self {
            LoadError::Incompatible => true,
            _ => false,
        }
    }
}

/// The steps of loading a plugin, in the order they run.
#[derive(Clone, Copy, PartialEq, Eq, Structural, Debug)]
pub enum LoadStage {
    /// Open the dynamic library.
    Open,
    /// Check the exported entry module's version and layout.
    VerifyModule,
    /// Take the plugin's identity from the file's base name.
    NamePlugin,
    /// Call the plugin's factory.
    Instantiate,
    /// The plugin is loaded.
    Loaded,
}

/// The stage that follows `stage` when its step succeeded or failed.
pub open spec fn next_stage(stage: LoadStage, succeeded: bool) -> Result<LoadStage, LoadError> {
    match stage {
        LoadStage::Open => if succeeded {
            Ok(LoadStage::VerifyModule)
        } else {
            Err(LoadError::NotFound)
        },
        LoadStage::VerifyModule => if succeeded {
            Ok(LoadStage::NamePlugin)
        } else {
            Err(LoadError::Incompatible)
        },
        LoadStage::NamePlugin => if succeeded {
            Ok(LoadStage::Instantiate)
        } else {
            Err(LoadError::MissingFileName)
        },
        LoadStage::Instantiate => Ok(LoadStage::Loaded),
        LoadStage::Loaded => Ok(LoadStage::Loaded),
    }
}

/// Moves the loading of a plugin on by one step. A failed step ends the
/// load with the error of that step; the factory has no failure of its own.
pub fn advance(stage: LoadStage, succeeded: bool) -> (r: Result<LoadStage, LoadError>)
    ensures
        r == next_stage(stage, succeeded),
{
    match stage {
        LoadStage::Open => if succeeded {
            Ok(LoadStage::VerifyModule)
        } else {
            Err(LoadError::NotFound)
        },
        LoadStage::VerifyModule => if succeeded {
            Ok(LoadStage::NamePlugin)
        } else {
            Err(LoadError::Incompatible)
        },
        LoadStage::NamePlugin => if succeeded {
            Ok(LoadStage::Instantiate)
        } else {
            Err(LoadError::MissingFileName)
        },
        LoadStage::Instantiate => Ok(LoadStage::Loaded),
        LoadStage::Loaded => Ok(LoadStage::Loaded),
    }
}

/// A library that cannot be opened and one whose entry module does not
/// match are told apart: only the second is reported as incompatible.
pub proof fn lemma_missing_file_differs_from_incompatible()
    ensures
        next_stage(LoadStage::Open, false) == Err::<LoadStage, LoadError>(LoadError::NotFound),
        next_stage(LoadStage::VerifyModule, false) == Err::<LoadStage, LoadError>(
            LoadError::Incompatible,
        ),
        LoadError::NotFound != LoadError::Incompatible,
{
}

/// Whether the steps with outcomes `outcomes`, run from the first stage,
/// reach the call of the factory.
pub open spec fn reaches_factory(outcomes: Seq<bool>) -> bool {
    outcomes.len() >= 3 && outcomes[0] && outcomes[1] && outcomes[2]
}

/// The stage, or the error, that the outcomes `outcomes` lead to from `stage`.
pub open spec fn run_stages(stage: LoadStage, outcomes: Seq<bool>) -> Result<LoadStage, LoadError>
    decreases outcomes.len(),
{
    if outcomes.len() == 0 {
        Ok(stage)
    } else {
        match next_stage(stage, outcomes[0]) {
            Ok(s) => run_stages(s, outcomes.drop_first()),
            Err(e) => Err(e),
        }
    }
}

/// A library whose entry module does not match is rejected before its
/// factory is called.
pub proof fn lemma_mismatch_rejected_before_factory(outcomes: Seq<bool>)
    requires
        outcomes.len() >= 2,
        outcomes[0],
        !outcomes[1],
    ensures
        run_stages(LoadStage::Open, outcomes) == Err::<LoadStage, LoadError>(LoadError::Incompatible),
        !reaches_factory(outcomes),
{
    assert(outcomes.drop_first()[0] == outcomes[1]);
    assert(run_stages(LoadStage::VerifyModule, outcomes.drop_first()) == Err::<LoadStage, LoadError>(
        LoadError::Incompatible,
    ));
}

/// The identity of a plugin whose library file has base name `file_name`.
pub fn plugin_id_for(file_name: Option<&str>) -> (r: Result<PluginId, LoadError>)
    ensures
        file_name is None ==> r == Err::<PluginId, LoadError>(LoadError::MissingFileName),
        file_name matches Some(n) ==> r matches Ok(id) && id.filename@ == n@,
{
    match file_name {
        Some(n) => Ok(PluginId { filename: String::from_str(n) }),
        None => Err(LoadError::MissingFileName),
    }
}

/// A resource that a loaded plugin holds, in the order it is released.
#[derive(Clone, Copy, PartialEq, Eq, Structural, Debug)]
pub enum Resource {
    /// The plugin's capability handle.
    Capability,
    /// The checked reference to the library's entry module.
    Module,
    /// The operating system's handle to the dynamic library.
    RawLibrary,
}

/// Which of its resources a plugin still holds.
#[derive(Clone, Copy, PartialEq, Eq, Structural, Debug)]
pub struct Holdings {
    pub capability: bool,
    pub module: bool,
    pub raw_library: bool,
}

impl Holdings {
    /// The resource to release next: the first still held, in the order
    /// capability, module, raw library.
    pub open spec fn spec_next(self) -> Option<Resource> {
        if self.capability {
            Some(Resource::Capability)
        } else if self.module {
            Some(Resource::Module)
        } else if self.raw_library {
            Some(Resource::RawLibrary)
        } else {
            None
        }
    }

    /// The holdings once `res` is released.
    pub open spec fn without(self, res: Resource) -> Holdings {
        match res {
            Resource::Capability => Holdings { capability: false, ..self },
            Resource::Module => Holdings { module: false, ..self },
            Resource::RawLibrary => Holdings { raw_library: false, ..self },
        }
    }

    pub fn loaded() -> (r: Self)
        ensures
            r == (Holdings { capability: true, module: true, raw_library: true }),
    {
        Holdings { capability: true, module: true, raw_library: true }
    }

    pub fn next_release(&self) -> (r: Option<Resource>)
        ensures
            r == self.spec_next(),
    {
        if self.capability {
            Some(Resource::Capability)
        } else if self.module {
            Some(Resource::Module)
        } else if self.raw_library {
            Some(Resource::RawLibrary)
        } else {
            None
        }
    }

    /// Releases the next resource and says which it was.
    pub fn release(&mut self) -> (r: Option<Resource>)
        ensures
            r == old(self).spec_next(),
            r matches Some(res) ==> *final(self) == old(self).without(res),
            r is None ==> *final(self) == *old(self),
    {
        let r = self.next_release();
        match r {
            Some(Resource::Capability) => self.capability = false,
            Some(Resource::Module) => self.module = false,
            Some(Resource::RawLibrary) => self.raw_library = false,
            None => {},
        }
        r
    }
}

/// Tearing a loaded plugin down releases the capability handle, then the
/// module reference, then the raw library handle, and then nothing more.
pub proof fn lemma_teardown_order()
    ensures
        ({
            let h0 = Holdings { capability: true, module: true, raw_library: true };
            let h1 = h0.without(Resource::Capability);
            let h2 = h1.without(Resource::Module);
            let h3 = h2.without(Resource::RawLibrary);
            &&& h0.spec_next() == Some(Resource::Capability)
            &&& h1.spec_next() == Some(Resource::Module)
            &&& h2.spec_next() == Some(Resource::RawLibrary)
            &&& h3.spec_next() is None
        }),
{
}

/// No resource is released while one that must go before it is still held.
pub proof fn lemma_release_respects_order(h: Holdings)
    ensures
        h.spec_next() == Some(Resource::Module) ==> !h.capability,
        h.spec_next() == Some(Resource::RawLibrary) ==> !h.capability && !h.module,
{
}

} // verus!
