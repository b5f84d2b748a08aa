//! Symbol resolution: finding the address of a named function exported by a
//! named module that is loaded in the host.
//!
//! The loader is asked twice, once for the module and once for the symbol in
//! it. The [`Resolver`] says which question is due, takes each answer, and
//! settles on an address or on the reason why there is none.

use vstd::prelude::*;
use crate::cname::CName;

verus! {

/// Why a target could not be resolved.
#[derive(Clone, Copy, Debug, PartialEq, Eq, Structural)]
pub enum ResolutionError {
    /// No module of that name is loaded in the process.
    ModuleNotFound,
    /// The module is loaded but exports no such symbol.
    SymbolNotFound,
}

/// A question for the platform loader.
#[derive(Clone, Copy, Debug, PartialEq, Eq, Structural)]
pub enum Lookup {
    /// The handle of the module named by the resolver's module name.
    Module,
    /// The address of the resolver's symbol within the module with this
    /// handle.
    Symbol { module: usize },
}

/// How far a resolution has come.
#[derive(Clone, Copy, Debug, PartialEq, Eq, Structural)]
pub enum Progress {
    AwaitingModule,
    AwaitingSymbol { module: usize },
    Resolved { address: usize },
    Failed { error: ResolutionError },
}

impl Progress {
    /// The question that is due, if any.
    pub open spec fn pending(self) -> Option<Lookup> {
        match self {
            Progress::AwaitingModule => Some(Lookup::Module),
            Progress::AwaitingSymbol { module } => Some(Lookup::Symbol { module }),
            _ => None,
        }
    }

    /// The progress once the loader has answered the pending question with
    /// `reply`, where zero stands for "not found". A settled resolution takes
    /// no further answer.
    pub open spec fn after_reply(self, reply: usize) -> Progress {
        match self {
            Progress::AwaitingModule => if reply == 0 {
                Progress::Failed { error: ResolutionError::ModuleNotFound }
            } else {
                Progress::AwaitingSymbol { module: reply }
            },
            Progress::AwaitingSymbol { module } => if reply == 0 {
                Progress::Failed { error: ResolutionError::SymbolNotFound }
            } else {
                Progress::Resolved { address: reply }
            },
            _ => self,
        }
    }

    /// What the resolution settled on, once it has.
    pub open spec fn outcome(self) -> Option<Result<usize, ResolutionError>> {
        match self {
            Progress::Resolved { address } => Some(Ok(address)),
            Progress::Failed { error } => Some(Err(error)),
            _ => None,
        }
    }

    /// No handle or address that a resolution holds is null.
    pub open spec fn consistent(self) -> bool {
        match self {
            Progress::AwaitingSymbol { module } => module != 0,
            Progress::Resolved { address } => address != 0,
            _ => true,
        }
    }
}

/// The mathematical content of a [`TargetFunction`].
pub struct TargetView {
    pub module_name: Seq<u8>,
    pub symbol_name: Seq<u8>,
    pub address: usize,
}

/// A function of the host that has been found: the names it was looked up
/// by and the address it lives at. It is made by a successful resolution
/// and never changes afterwards; its address is never null.
#[derive(Debug)]
pub struct TargetFunction {
    module_name: CName,
    symbol_name: CName,
    resolved_address: usize,
}

impl View for TargetFunction {
    type V = TargetView;

    closed spec fn view(&self) -> TargetView {
        TargetView {
            module_name: self.module_name@,
            symbol_name: self.symbol_name@,
            address: self.resolved_address,
        }
    }
}

impl TargetFunction {
    #[verifier::type_invariant]
    spec fn well_formed(self) -> bool {
        self.resolved_address != 0
    }

    pub fn module_name(&self) -> (name: &CName)
        ensures
            name@ == self@.module_name,
    {
        &self.module_name
    }

    pub fn symbol_name(&self) -> (name: &CName)
        ensures
            name@ == self@.symbol_name,
    {
        &self.symbol_name
    }

    /// The address the symbol was found at.
    pub fn resolved_address(&self) -> (address: usize)
        ensures
            address == self@.address,
            address != 0,
    {
        proof {
            use_type_invariant(self);
        }
        self.resolved_address
    }
}

/// One resolution in progress.
pub struct Resolver {
    module_name: CName,
    symbol_name: CName,
    progress: Progress,
}

impl Resolver {
    #[verifier::type_invariant]
    spec fn well_formed(self) -> bool {
        self.progress.consistent()
    }

    pub closed spec fn module_name(&self) -> Seq<u8> {
        self.module_name@
    }

    pub closed spec fn symbol_name(&self) -> Seq<u8> {
        self.symbol_name@
    }

    pub closed spec fn progress(&self) -> Progress {
        self.progress
    }

    /// Starts resolving `symbol_name` in `module_name`. Nothing has been
    /// asked yet.
    pub fn new(module_name: CName, symbol_name: CName) -> (resolver: Resolver)
        ensures
            resolver.module_name() == module_name@,
            resolver.symbol_name() == symbol_name@,
            resolver.progress() == Progress::AwaitingModule,
    {
        Resolver { module_name, symbol_name, progress: Progress::AwaitingModule }
    }

    /// The name of the module, as the loader takes it.
    pub fn module(&self) -> (name: &CName)
        ensures
            name@ == self.module_name(),
    {
        &self.module_name
    }

    /// The name of the symbol, as the loader takes it.
    pub fn symbol(&self) -> (name: &CName)
        ensures
            name@ == self.symbol_name(),
    {
        &self.symbol_name
    }

    /// The question to put to the loader next, or `None` once the
    /// resolution has settled. The symbol is asked for only in a module
    /// that was found.
    pub fn next_lookup(&self) -> (lookup: Option<Lookup>)
        ensures
            lookup == self.progress().pending(),
            lookup matches Some(Lookup::Symbol { module }) ==> module != 0,
    {
        proof {
            use_type_invariant(self);
        }
        match self.progress {
            Progress::AwaitingModule => Some(Lookup::Module),
            Progress::AwaitingSymbol { module } => Some(Lookup::Symbol { module }),
            _ => None,
        }
    }

    /// Takes the loader's answer to the pending question: a handle or an
    /// address, or zero where the loader found nothing.
    pub fn supply(&mut self, reply: usize)
        ensures
            final(self).progress() == old(self).progress().after_reply(reply),
            final(self).module_name() == old(self).module_name(),
            final(self).symbol_name() == old(self).symbol_name(),
    {
        proof {
            use_type_invariant(&*self);
        }
        let next = match self.progress {
            Progress::AwaitingModule => if reply == 0 {
                Progress::Failed { error: ResolutionError::ModuleNotFound }
            } else {
                Progress::AwaitingSymbol { module: reply }
            },
            Progress::AwaitingSymbol { module } => if reply == 0 {
                Progress::Failed { error: ResolutionError::SymbolNotFound }
            } else {
                Progress::Resolved { address: reply }
            },
            settled => settled,
        };
        self.progress = next;
    }

    /// What the resolution settled on: the address, or the error. `None`
    /// while a question is still open.
    pub fn outcome(&self) -> (outcome: Option<Result<usize, ResolutionError>>)
        ensures
            outcome == self.progress().outcome(),
            outcome matches Some(Ok(address)) ==> address != 0,
    {
        proof {
            use_type_invariant(self);
        }
        match self.progress {
            Progress::Resolved { address } => Some(Ok(address)),
            Progress::Failed { error } => Some(Err(error)),
            _ => None,
        }
    }

    /// Ends the resolution. A settled resolution gives the target with the
    /// address that the loader reported, or the error and no address; an
    /// unsettled one gives `None`.
    pub fn resolve(self) -> (resolved: Option<Result<TargetFunction, ResolutionError>>)
        ensures
            match self.progress().outcome() {
                None => resolved is None,
                Some(Err(error)) => resolved == Some(
                    Err::<TargetFunction, ResolutionError>(error),
                ),
                Some(Ok(address)) => {
                    &&& resolved matches Some(Ok(target))
                    &&& target@.address == address
                    &&& target@.module_name == self.module_name()
                    &&& target@.symbol_name == self.symbol_name()
                },
            },
    {
        proof {
            use_type_invariant(&self);
        }
        match self.progress {
            Progress::Resolved { address } => Some(
                Ok(
                    TargetFunction {
                        module_name: self.module_name,
                        symbol_name: self.symbol_name,
                        resolved_address: address,
                    },
                ),
            ),
            Progress::Failed { error } => Some(Err(error)),
            _ => None,
        }
    }
}

/// What is loaded in a process, as far as resolution is concerned: the
/// handle of each loaded module by name, and the address of each exported
/// symbol by module handle and name.
pub struct ProcessImage {
    pub modules: Map<Seq<u8>, usize>,
    pub exports: Map<(usize, Seq<u8>), usize>,
}

impl ProcessImage {
    /// Handles and addresses of things that exist are not null.
    pub open spec fn well_formed(self) -> bool {
        &&& forall|name: Seq<u8>| #[trigger]
            self.modules.contains_key(name) ==> self.modules[name] != 0
        &&& forall|key: (usize, Seq<u8>)| #[trigger]
            self.exports.contains_key(key) ==> self.exports[key] != 0
    }

    /// The address of `symbol` in `module`, asked for in one go.
    pub open spec fn direct_query(self, module: Seq<u8>, symbol: Seq<u8>) -> Option<usize> {
        if self.modules.contains_key(module) && self.exports.contains_key(
            (self.modules[module], symbol),
        ) {
            Some(self.exports[(self.modules[module], symbol)])
        } else {
            None
        }
    }

    /// The loader's answer to `lookup`, put on behalf of a resolution of
    /// `symbol` in `module`: zero for what is not there.
    pub open spec fn answer(self, module: Seq<u8>, symbol: Seq<u8>, lookup: Lookup) -> usize {
        match lookup {
            Lookup::Module => if self.modules.contains_key(module) {
                self.modules[module]
            } else {
                0
            },
            Lookup::Symbol { module: handle } => if self.exports.contains_key((handle, symbol)) {
                self.exports[(handle, symbol)]
            } else {
                0
            },
        }
    }

    /// The progress of a resolution of `symbol` in `module` after `rounds`
    /// rounds in which every pending question is answered by this image.
    pub open spec fn run(self, module: Seq<u8>, symbol: Seq<u8>, rounds: nat) -> Progress
        decreases rounds,
    {
        if rounds == 0 {
            Progress::AwaitingModule
        } else {
            let before = self.run(module, symbol, (rounds - 1) as nat);
            match before.pending() {
                Some(lookup) => before.after_reply(self.answer(module, symbol, lookup)),
                None => before,
            }
        }
    }
}

/// Resolution agrees with a direct query. Against any process image, a
/// resolution has settled after two rounds and stays settled. Where the
/// module is loaded and exports the symbol, it settles on the address a
/// direct query gives. Where the module is not loaded it fails with
/// `ModuleNotFound`, and where the module lacks the symbol with
/// `SymbolNotFound`, in both cases without an address.
pub proof fn lemma_resolution_matches_direct_query(
    image: ProcessImage,
    module: Seq<u8>,
    symbol: Seq<u8>,
    rounds: nat,
)
    requires
        image.well_formed(),
        rounds >= 2,
    ensures
        image.run(module, symbol, rounds).outcome() == Some(
            match image.direct_query(module, symbol) {
                Some(address) => Ok::<usize, ResolutionError>(address),
                None => if image.modules.contains_key(module) {
                    Err(ResolutionError::SymbolNotFound)
                } else {
                    Err(ResolutionError::ModuleNotFound)
                },
            },
        ),
    decreases rounds,
{
    reveal_with_fuel(ProcessImage::run, 3);
    if rounds > 2 {
        lemma_resolution_matches_direct_query(image, module, symbol, (rounds - 1) as nat);
    }
}

/// Whatever the loader answers, a resolution keeps no null handle and no
/// null address, and an answer to a settled resolution changes nothing.
pub proof fn lemma_reply_keeps_consistency(progress: Progress, reply: usize)
    requires
        progress.consistent(),
    ensures
        progress.after_reply(reply).consistent(),
        progress.outcome() is Some ==> progress.after_reply(reply) == progress,
        progress.after_reply(reply).outcome() matches Some(Ok(address)) ==> address != 0,
{
}

} // verus!
