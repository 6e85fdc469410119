//! The model lifecycle manager's state machine.
//!
//! The manager owns the single active runtime slot: which model is selected
//! and what the runtime's status is. The caller keeps this state behind one
//! reader/writer lock — generation calls hold it for read, a swap takes it
//! for write — and drives the machine through these operations inside the
//! critical sections; the backend's actual load and unload happen between
//! `prepare_load` and `complete_load`, and their outcomes are handed back in.
//!
//! `ensure_loaded(name)` is: the read-only fast path when `name` is selected
//! and the runtime is `Ready`; otherwise, under the writer lock,
//! `prepare_load` (unload the active model, resolve the name, enter
//! `Loading`) and then `complete_load` with the backend's outcome. The
//! machine counts backend load and unload calls, so what a sequence of
//! operations cost the device is part of each contract.

use vstd::prelude::*;

use crate::api::LoadError;
use crate::api::RuntimeConfig;
use crate::api::RuntimeStatus;
use crate::registry::ModelInfo;

verus! {

/// The mathematical image of the manager.
pub ghost struct ManagerModel {
    pub status: RuntimeStatus,
    /// The selected model name; updated when a load succeeds.
    pub selected: Option<Seq<char>>,
    /// How many backend load calls were made.
    pub load_calls: int,
    /// How many backend unload calls were made.
    pub unload_calls: int,
}

/// The transitions the status cell may make: loads start from `Unloaded` or
/// `Error` and end `Ready` or `Error`; `Ready` is left only by an explicit
/// unload.
pub open spec fn valid_transition(a: RuntimeStatus, b: RuntimeStatus) -> bool {
    ||| a == b
    ||| (a == RuntimeStatus::Unloaded && b == RuntimeStatus::Loading)
    ||| (a == RuntimeStatus::Error && b == RuntimeStatus::Loading)
    ||| (a == RuntimeStatus::Loading && b == RuntimeStatus::Ready)
    ||| (a == RuntimeStatus::Loading && b == RuntimeStatus::Error)
    ||| (a == RuntimeStatus::Ready && b == RuntimeStatus::Unloaded)
}

/// The read-only fast path: the named model is selected and ready.
pub open spec fn fast_path_model(m: ManagerModel, name: Seq<char>) -> bool {
    m.status == RuntimeStatus::Ready && m.selected == Some(name)
}

/// What `prepare_load` leaves behind: the active model unloaded if one was
/// ready, and — when the name resolved — the machine in `Loading` with one
/// more backend load on the meter.
pub open spec fn prepare_model(m: ManagerModel, resolved: bool) -> ManagerModel {
    let unloaded = if m.status == RuntimeStatus::Ready {
        ManagerModel {
            status: RuntimeStatus::Unloaded,
            unload_calls: m.unload_calls + 1,
            ..m
        }
    } else {
        m
    };
    if resolved {
        ManagerModel { status: RuntimeStatus::Loading, load_calls: unloaded.load_calls + 1, ..unloaded }
    } else {
        unloaded
    }
}

/// What `complete_load` leaves behind: `Ready` with the name selected on
/// success, `Error` with the selection untouched on failure.
pub open spec fn complete_model(m: ManagerModel, name: Seq<char>, ok: bool) -> ManagerModel {
    if ok {
        ManagerModel { status: RuntimeStatus::Ready, selected: Some(name), ..m }
    } else {
        ManagerModel { status: RuntimeStatus::Error, ..m }
    }
}

/// The whole sequential `ensure_loaded(name)`: nothing happens on the fast
/// path; otherwise a prepare and, if the name resolved, a complete with the
/// backend's outcome.
pub open spec fn ensure_model(m: ManagerModel, name: Seq<char>, resolved: bool, ok: bool) -> ManagerModel {
    if fast_path_model(m, name) {
        m
    } else {
        let prepared = prepare_model(m, resolved);
        if resolved {
            complete_model(prepared, name, ok)
        } else {
            prepared
        }
    }
}

/// The manager's state: the single active-runtime slot.
pub struct ManagerState {
    pub status: RuntimeStatus,
    /// The selected model name; updated when a load succeeds.
    pub selected: Option<String>,
    /// How many backend load calls were made.
    pub load_calls: u64,
    /// How many backend unload calls were made.
    pub unload_calls: u64,
}

impl View for ManagerState {
    type V = ManagerModel;

    open spec fn view(&self) -> ManagerModel {
        ManagerModel {
            status: self.status,
            selected: match self.selected {
                Some(ref n) => Some(n@),
                None => None,
            },
            load_calls: self.load_calls as int,
            unload_calls: self.unload_calls as int,
        }
    }
}

impl ManagerState {
    /// A fresh manager: nothing selected, nothing loaded, meters at zero.
    pub fn new() -> (m: ManagerState)
        ensures
            m@.status == RuntimeStatus::Unloaded,
            m@.selected is None,
            m@.load_calls == 0,
            m@.unload_calls == 0,
    {
        ManagerState { status: RuntimeStatus::Unloaded, selected: None, load_calls: 0, unload_calls: 0 }
    }

    /// The runtime's current status.
    pub fn status(&self) -> (s: RuntimeStatus)
        ensures
            s == self@.status,
    {
        self.status
    }

    /// Whether a model is loaded and ready.
    pub fn is_model_loaded(&self) -> (b: bool)
        ensures
            b == (self@.status == RuntimeStatus::Ready),
    {
        match self.status {
            RuntimeStatus::Ready => true,
            _ => false,
        }
    }

    /// The selected model's name.
    pub fn get_current_model(&self) -> (r: Option<String>)
        ensures
            (r matches Some(n) ==> self@.selected == Some(n@)),
            (r is None ==> self@.selected is None),
    {
        match &self.selected {
            Some(n) => Some(n.clone()),
            None => None,
        }
    }

    /// The read-only fast path of `ensure_loaded`: true exactly when the
    /// named model is selected and the runtime is ready, so nothing needs to
    /// be done.
    pub fn fast_path(&self, name: &String) -> (b: bool)
        ensures
            b == fast_path_model(self@, name@),
    {
        match &self.selected {
            Some(current) => {
                match self.status {
                    RuntimeStatus::Ready => *current == *name,
                    _ => false,
                }
            },
            None => false,
        }
    }

    /// The writer half of a swap, up to the backend call: unload the active
    /// model if one is ready, resolve the name, and enter `Loading`. Returns
    /// the configuration the backend load must be called with, or the
    /// not-found error — exactly when the registry had no entry, leaving the
    /// machine out of `Loading`.
    pub fn prepare_load(&mut self, name: &String, resolved: Option<&ModelInfo>) -> (r: Result<
        RuntimeConfig,
        LoadError,
    >)
        requires
            old(self)@.status != RuntimeStatus::Loading,
            old(self)@.load_calls < u64::MAX,
            old(self)@.unload_calls < u64::MAX,
        ensures
            final(self)@ == prepare_model(old(self)@, resolved is Some),
            (r matches Ok(c) ==> {
                &&& resolved matches Some(info) && c.model_path@ == info.path@
                &&& c.gpu_id == Some(0u32)
                &&& c.vram_budget_mb is None
                &&& c.cpu_threads is None
                &&& final(self)@.status == RuntimeStatus::Loading
            }),
            (r matches Err(e) ==> {
                &&& resolved is None
                &&& (e matches LoadError::NotFound(n) && n@ == name@)
                &&& final(self)@.status != RuntimeStatus::Loading
            }),
    {
        if self.is_model_loaded() {
            self.status = RuntimeStatus::Unloaded;
            self.unload_calls = self.unload_calls + 1;
        }
        match resolved {
            Some(info) => {
                self.status = RuntimeStatus::Loading;
                self.load_calls = self.load_calls + 1;
                Ok(
                    RuntimeConfig {
                        model_path: info.path.clone(),
                        gpu_id: Some(0),
                        vram_budget_mb: None,
                        cpu_threads: None,
                    },
                )
            },
            None => Err(LoadError::NotFound(name.clone())),
        }
    }

    /// The writer half of a swap after the backend call: `Ready` with the
    /// name selected when the load succeeded, `Error` with the selection
    /// untouched when it failed.
    pub fn complete_load(&mut self, name: &String, ok: bool)
        requires
            old(self)@.status == RuntimeStatus::Loading,
        ensures
            final(self)@ == complete_model(old(self)@, name@, ok),
            ok ==> fast_path_model(final(self)@, name@),
            !ok ==> final(self)@.status == RuntimeStatus::Error,
    {
        if ok {
            self.status = RuntimeStatus::Ready;
            self.selected = Some(name.clone());
        } else {
            self.status = RuntimeStatus::Error;
        }
    }

    /// An explicit unload: the only exit from `Ready`. A no-op — no backend
    /// call — when nothing is loaded; the selection is cleared either way.
    pub fn unload(&mut self)
        requires
            old(self)@.status != RuntimeStatus::Loading,
            old(self)@.unload_calls < u64::MAX,
        ensures
            final(self)@.status == if old(self)@.status == RuntimeStatus::Ready {
                RuntimeStatus::Unloaded
            } else {
                old(self)@.status
            },
            final(self)@.selected is None,
            final(self)@.unload_calls == if old(self)@.status == RuntimeStatus::Ready {
                old(self)@.unload_calls + 1
            } else {
                old(self)@.unload_calls
            },
            final(self)@.load_calls == old(self)@.load_calls,
            valid_transition(old(self)@.status, final(self)@.status),
    {
        if self.is_model_loaded() {
            self.status = RuntimeStatus::Unloaded;
            self.unload_calls = self.unload_calls + 1;
        }
        self.selected = None;
    }
}

/// Every hop the swap operations make is a transition the status discipline
/// allows: `Unloaded`/`Error` to `Loading`, `Loading` to `Ready` or `Error`,
/// and `Ready` to `Unloaded` only by the unload a swap begins with.
pub proof fn lemma_swap_transitions_valid(m: ManagerModel, name: Seq<char>, resolved: bool, ok: bool)
    requires
        m.status != RuntimeStatus::Loading,
    ensures
        ({
            let unloaded = if m.status == RuntimeStatus::Ready {
                ManagerModel { status: RuntimeStatus::Unloaded, unload_calls: m.unload_calls + 1, ..m }
            } else {
                m
            };
            let prepared = prepare_model(m, resolved);
            &&& valid_transition(m.status, unloaded.status)
            &&& valid_transition(unloaded.status, prepared.status)
            &&& (resolved ==> valid_transition(
                prepared.status,
                complete_model(prepared, name, ok).status,
            ))
        }),
{
}

/// One load for two callers: a first `ensure_loaded(name)` that had to swap
/// makes exactly one backend load call and leaves the named model selected
/// and ready; a second `ensure_loaded(name)` — the caller that lost the race
/// and found the work done — takes the fast path, changes nothing, and makes
/// no backend call at all. Both observe `Ready`.
pub proof fn lemma_ensure_loaded_once(m: ManagerModel, name: Seq<char>)
    requires
        m.status != RuntimeStatus::Loading,
        !fast_path_model(m, name),
    ensures
        ({
            let first = ensure_model(m, name, true, true);
            let second = ensure_model(first, name, true, true);
            &&& first.status == RuntimeStatus::Ready
            &&& first.selected == Some(name)
            &&& first.load_calls == m.load_calls + 1
            &&& fast_path_model(first, name)
            &&& second == first
            &&& second.load_calls == m.load_calls + 1
        }),
{
}

} // verus!
