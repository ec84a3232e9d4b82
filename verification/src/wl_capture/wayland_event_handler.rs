use crate::text::str_equals;
use std::collections::HashMap;
use vstd::prelude::*;

verus! {

broadcast use vstd::std_specs::hash::group_hash_axioms;

/// The kinds of global objects that this handler binds from the registry.
#[derive(Clone, Copy, Debug, PartialEq, Eq, Structural)]
pub enum WaylandObjects {
    WlOutput,
    WlShm,
    CopyManager,
}

/// The state of a capture that tracks the output size and the size of the
/// frames, keeping the protocol objects as they are.
pub struct ApplicationState<Output, Shm, CopyManager, Frame, Session> {
    pub wl_output: Option<Output>,
    pub wl_shm: Option<Shm>,
    pub capture_width: Option<i32>,
    pub capture_height: Option<i32>,
    pub object_keys: HashMap<u32, WaylandObjects>,
    pub copy_capture_manager: Option<CopyManager>,
    pub copy_capture_frame: Option<Frame>,
    pub copy_capture_session: Option<Session>,
    pub frame_width: Option<i32>,
    pub frame_height: Option<i32>,
}

/// A protocol object taken out of the state because its global went away;
/// it still has to be released or destroyed.
pub enum RemovedObject<Output, Shm, CopyManager> {
    WlOutput(Output),
    WlShm(Shm),
    CopyManager(CopyManager),
}

/// The kind of object that a global of the given interface and version is
/// bound as, if it is bound at all. The copy manager is only taken at
/// version 1.
pub open spec fn global_kind(interface: Seq<char>, version: u32) -> Option<WaylandObjects> {
    if interface == "ext_image_copy_capture_manager_v1"@ {
        if version == 1 {
            Some(WaylandObjects::CopyManager)
        } else {
            None
        }
    } else if interface == "wl_output"@ {
        Some(WaylandObjects::WlOutput)
    } else if interface == "wl_shm"@ {
        Some(WaylandObjects::WlShm)
    } else {
        None
    }
}

impl<Output, Shm, CopyManager, Frame, Session> ApplicationState<Output, Shm, CopyManager, Frame, Session> {
    /// Whether the object of the given kind is present.
    pub open spec fn holds(self, kind: WaylandObjects) -> bool {
        match kind {
            WaylandObjects::WlOutput => self.wl_output is Some,
            WaylandObjects::WlShm => self.wl_shm is Some,
            WaylandObjects::CopyManager => self.copy_capture_manager is Some,
        }
    }

    /// The state before any event: nothing bound, no sizes known.
    pub fn new() -> (state: Self)
        ensures
            state.wl_output is None,
            state.wl_shm is None,
            state.capture_width is None,
            state.capture_height is None,
            state.object_keys@ == Map::<u32, WaylandObjects>::empty(),
            state.copy_capture_manager is None,
            state.copy_capture_frame is None,
            state.copy_capture_session is None,
            state.frame_width is None,
            state.frame_height is None,
    {
        ApplicationState {
            wl_output: None,
            wl_shm: None,
            capture_width: None,
            capture_height: None,
            object_keys: HashMap::new(),
            copy_capture_manager: None,
            copy_capture_frame: None,
            copy_capture_session: None,
            frame_width: None,
            frame_height: None,
        }
    }

    /// Handles a global announced by the registry: records its name under
    /// the kind it is bound as, and says which kind to bind (the object is
    /// bound at the announced version and stored by the caller).
    pub fn on_global(&mut self, name: u32, interface: &str, version: u32) -> (bind: Option<WaylandObjects>)
        ensures
            bind == global_kind(interface@, version),
            final(self).object_keys@ == match global_kind(interface@, version) {
                Some(kind) => old(self).object_keys@.insert(name, kind),
                None => old(self).object_keys@,
            },
            *final(self) == (ApplicationState { object_keys: final(self).object_keys, ..*old(self) }),
    {
        let kind = if str_equals(interface, "ext_image_copy_capture_manager_v1") {
            if version != 1 {
                return None;
            }
            WaylandObjects::CopyManager
        } else if str_equals(interface, "wl_output") {
            WaylandObjects::WlOutput
        } else if str_equals(interface, "wl_shm") {
            WaylandObjects::WlShm
        } else {
            return None;
        };
        self.object_keys.insert(name, kind);
        Some(kind)
    }

    /// Handles the removal of a global: if its name was bound, the object it
    /// stands for is taken out of the state (for the caller to release or
    /// destroy) and the name is forgotten.
    pub fn remove_object(&mut self, name: u32) -> (removed: Option<RemovedObject<Output, Shm, CopyManager>>)
        ensures
            !old(self).object_keys@.contains_key(name) ==> {
                &&& removed is None
                &&& final(self).object_keys@ == old(self).object_keys@
                &&& *final(self) == (ApplicationState { object_keys: final(self).object_keys, ..*old(self) })
            },
            old(self).object_keys@.contains_key(name) ==> {
                let kind = old(self).object_keys@[name];
                &&& final(self).object_keys@ == old(self).object_keys@.remove(name)
                &&& !final(self).holds(kind)
                &&& removed is Some <==> old(self).holds(kind)
                &&& match kind {
                    WaylandObjects::WlOutput => {
                        &&& (old(self).wl_output matches Some(o) ==> removed == Some(RemovedObject::<Output, Shm, CopyManager>::WlOutput(o)))
                        &&& *final(self) == (ApplicationState { wl_output: None, object_keys: final(self).object_keys, ..*old(self) })
                    },
                    WaylandObjects::WlShm => {
                        &&& (old(self).wl_shm matches Some(o) ==> removed == Some(RemovedObject::<Output, Shm, CopyManager>::WlShm(o)))
                        &&& *final(self) == (ApplicationState { wl_shm: None, object_keys: final(self).object_keys, ..*old(self) })
                    },
                    WaylandObjects::CopyManager => {
                        &&& (old(self).copy_capture_manager matches Some(o) ==> removed == Some(RemovedObject::<Output, Shm, CopyManager>::CopyManager(o)))
                        &&& *final(self) == (ApplicationState { copy_capture_manager: None, object_keys: final(self).object_keys, ..*old(self) })
                    },
                }
            },
    {
        let object_type = match self.object_keys.get(&name) {
            Some(kind) => *kind,
            None => return None,
        };
        let removed = match object_type {
            WaylandObjects::WlOutput => match self.wl_output.take() {
                Some(o) => Some(RemovedObject::WlOutput(o)),
                None => None,
            },
            WaylandObjects::WlShm => match self.wl_shm.take() {
                Some(o) => Some(RemovedObject::WlShm(o)),
                None => None,
            },
            WaylandObjects::CopyManager => match self.copy_capture_manager.take() {
                Some(o) => Some(RemovedObject::CopyManager(o)),
                None => None,
            },
        };
        self.object_keys.remove(&name);
        removed
    }

    /// Handles a mode of the output: the first current mode gives the size
    /// of the capture, and later modes do not change it.
    pub fn on_output_mode(&mut self, is_current: bool, width: i32, height: i32)
        ensures
            is_current && old(self).capture_height is None && old(self).capture_width is None ==> *final(self) == (
            ApplicationState { capture_width: Some(width), capture_height: Some(height), ..*old(self) }),
            !(is_current && old(self).capture_height is None && old(self).capture_width is None) ==> *final(self)
                == *old(self),
    {
        if is_current && self.capture_height.is_none() && self.capture_width.is_none() {
            self.capture_height = Some(height);
            self.capture_width = Some(width);
        }
    }
}

/// The output and the shared-memory global are bound whatever version the
/// registry announces; the copy manager is bound only at version 1.
pub proof fn lemma_bound_globals(version: u32)
    ensures
        global_kind("wl_output"@, version) == Some(WaylandObjects::WlOutput),
        global_kind("wl_shm"@, version) == Some(WaylandObjects::WlShm),
        global_kind("ext_image_copy_capture_manager_v1"@, version) is Some <==> version == 1,
        global_kind("ext_image_copy_capture_manager_v1"@, version) is Some ==> global_kind(
            "ext_image_copy_capture_manager_v1"@,
            version,
        ) == Some(WaylandObjects::CopyManager),
{
    reveal_strlit("wl_output");
    reveal_strlit("wl_shm");
    reveal_strlit("ext_image_copy_capture_manager_v1");
    assert("wl_output"@.len() != "ext_image_copy_capture_manager_v1"@.len());
    assert("wl_output"@ != "ext_image_copy_capture_manager_v1"@);
    assert("wl_shm"@.len() != "ext_image_copy_capture_manager_v1"@.len());
    assert("wl_shm"@ != "ext_image_copy_capture_manager_v1"@);
    assert("wl_shm"@.len() != "wl_output"@.len());
    assert("wl_shm"@ != "wl_output"@);
}

} // verus!
