//! The free camera in the home scene.
//!
//! The hooks on `HomeDirector` and `HomeCameraSwitcher` remember the two
//! objects, find the home camera and its Cinemachine brain through them,
//! and each frame hand the camera to the free camera or take it back. The
//! work with the game's objects is done by the caller; the functions here
//! say, step by step, what is to be asked or done next, given what is known
//! so far (`None` for what has not been asked yet).
use vstd::prelude::*;

use crate::il2cpp::hook::{hooks, Detour, MethodHook};

verus! {

/// Offset of the `HomeCameraSwitcher` in a `HomeDirector`, and of the
/// Cinemachine brain in a `HomeCameraSwitcher`.
pub const LINK_OFFSET: usize = 0x28;

/// The home objects and methods the hooks know of (zero where unknown).
#[derive(Clone, Copy, Debug, PartialEq, Eq, Structural)]
pub struct HomeObjects {
    /// The `HomeDirector` seen last.
    pub director: usize,
    /// The `HomeCameraSwitcher` seen last.
    pub switcher: usize,
    /// `HomeDirector.GetCamera`.
    pub director_get_camera: usize,
    /// `HomeCameraSwitcher.get_Camera`.
    pub switcher_get_camera: usize,
    /// `HomeCameraSwitcher.get_CinemaBrain`.
    pub switcher_get_cinema_brain: usize,
}

impl HomeObjects {
    /// `HomeDirector.AlterUpdate` ran on `director`, whose switcher field
    /// holds `switcher_at_director`: both are remembered, the switcher only
    /// when there is one.
    pub fn on_director_update(&mut self, director: usize, switcher_at_director: usize)
        ensures
            final(self).director == director,
            final(self).switcher == (if switcher_at_director != 0 {
                switcher_at_director
            } else {
                old(self).switcher
            }),
            final(self).director_get_camera == old(self).director_get_camera,
            final(self).switcher_get_camera == old(self).switcher_get_camera,
            final(self).switcher_get_cinema_brain == old(self).switcher_get_cinema_brain,
    {
        self.director = director;
        if switcher_at_director != 0 {
            self.switcher = switcher_at_director;
        }
    }

    /// `HomeCameraSwitcher.AlterUpdate` ran on `switcher`.
    pub fn on_switcher_update(&mut self, switcher: usize)
        ensures
            final(self).switcher == switcher,
            final(self).director == old(self).director,
            final(self).director_get_camera == old(self).director_get_camera,
            final(self).switcher_get_camera == old(self).switcher_get_camera,
            final(self).switcher_get_cinema_brain == old(self).switcher_get_cinema_brain,
    {
        self.switcher = switcher;
    }

    /// `HomeDirector.OnDestroy` ran: both objects are forgotten.
    pub fn on_director_destroy(&mut self)
        ensures
            final(self).director == 0,
            final(self).switcher == 0,
            final(self).director_get_camera == old(self).director_get_camera,
            final(self).switcher_get_camera == old(self).switcher_get_camera,
            final(self).switcher_get_cinema_brain == old(self).switcher_get_cinema_brain,
    {
        self.director = 0;
        self.switcher = 0;
    }
}

/// The hooks to install on the home scene's classes: on `HomeDirector`,
/// when found, `HomeDirector_AlterUpdate` on `AlterUpdate` and
/// `HomeDirector_OnDestroy` on `OnDestroy`; then, on `HomeCameraSwitcher`
/// when found, `HomeCameraSwitcher_AlterUpdate` on `AlterUpdate` (all
/// without arguments). Without `HomeDirector` the switcher is not looked
/// up and nothing is hooked.
pub fn init(director_class: Option<usize>, switcher_class: Option<usize>) -> (r: Vec<MethodHook>)
    ensures
        director_class is None ==> r@.len() == 0,
        director_class matches Some(d) ==> {
            &&& r@.len() == (if switcher_class is Some {
                3int
            } else {
                2int
            })
            &&& hooks(r@[0], d, "AlterUpdate"@, 0, Detour::HomeDirectorAlterUpdate)
            &&& hooks(r@[1], d, "OnDestroy"@, 0, Detour::HomeDirectorOnDestroy)
            &&& switcher_class matches Some(s) ==> hooks(
                r@[2],
                s,
                "AlterUpdate"@,
                0,
                Detour::HomeCameraSwitcherAlterUpdate,
            )
        },
{
    let mut r: Vec<MethodHook> = Vec::new();
    let director = match director_class {
        Some(d) => d,
        None => return r,
    };
    r.push(
        MethodHook {
            class: director,
            method: "AlterUpdate",
            args: 0,
            detour: Detour::HomeDirectorAlterUpdate,
        },
    );
    r.push(
        MethodHook {
            class: director,
            method: "OnDestroy",
            args: 0,
            detour: Detour::HomeDirectorOnDestroy,
        },
    );
    if let Some(switcher) = switcher_class {
        r.push(
            MethodHook {
                class: switcher,
                method: "AlterUpdate",
                args: 0,
                detour: Detour::HomeCameraSwitcherAlterUpdate,
            },
        );
    }
    r
}

/// The next step of a search for a game object.
#[derive(Clone, Copy, Debug, PartialEq, Eq, Structural)]
pub enum Lookup {
    /// Call the method at `method` on `this` and report what it returns.
    Call { method: usize, this: usize },
    /// Read the object pointer at `offset` in `object` and report it.
    Read { object: usize, offset: usize },
    /// The search is over; zero when nothing was found.
    Found(usize),
}

/// The search for the home camera: the director's `GetCamera`, then the
/// switcher's `get_Camera`, each tried only when the object and the method
/// are known, and the first non-null camera wins.
pub open spec fn home_camera_lookup(
    h: HomeObjects,
    director_camera: Option<usize>,
    switcher_camera: Option<usize>,
) -> Lookup {
    let director_known = h.director != 0 && h.director_get_camera != 0;
    let switcher_known = h.switcher != 0 && h.switcher_get_camera != 0;
    if director_known && director_camera is None {
        Lookup::Call { method: h.director_get_camera, this: h.director }
    } else if director_known && director_camera.unwrap() != 0 {
        Lookup::Found(director_camera.unwrap())
    } else if switcher_known && switcher_camera is None {
        Lookup::Call { method: h.switcher_get_camera, this: h.switcher }
    } else if switcher_known && switcher_camera.unwrap() != 0 {
        Lookup::Found(switcher_camera.unwrap())
    } else {
        Lookup::Found(0)
    }
}

/// The next step of the search for the home camera, given what the
/// director's and the switcher's camera getters returned so far.
pub fn get_home_camera(h: &HomeObjects, director_camera: Option<usize>, switcher_camera: Option<
    usize,
>) -> (r: Lookup)
    ensures
        r == home_camera_lookup(*h, director_camera, switcher_camera),
{
    if h.director != 0 && h.director_get_camera != 0 {
        match director_camera {
            None => return Lookup::Call { method: h.director_get_camera, this: h.director },
            Some(cam) => {
                if cam != 0 {
                    return Lookup::Found(cam);
                }
            },
        }
    }
    if h.switcher != 0 && h.switcher_get_camera != 0 {
        match switcher_camera {
            None => return Lookup::Call { method: h.switcher_get_camera, this: h.switcher },
            Some(cam) => {
                if cam != 0 {
                    return Lookup::Found(cam);
                }
            },
        }
    }
    Lookup::Found(0)
}

/// What the search for the Cinemachine brain has learned so far.
#[derive(Clone, Copy, Debug, PartialEq, Eq, Structural)]
pub struct BrainSearch {
    /// What the switcher's `get_CinemaBrain` returned.
    pub from_getter: Option<usize>,
    /// The brain field of the switcher.
    pub at_switcher: Option<usize>,
    /// The switcher field of the director.
    pub switcher_at_director: Option<usize>,
    /// The brain field of that switcher.
    pub at_director_switcher: Option<usize>,
}

impl BrainSearch {
    /// Nothing learned yet.
    pub fn new() -> (r: Self)
        ensures
            r.from_getter is None,
            r.at_switcher is None,
            r.switcher_at_director is None,
            r.at_director_switcher is None,
    {
        BrainSearch {
            from_getter: None,
            at_switcher: None,
            switcher_at_director: None,
            at_director_switcher: None,
        }
    }
}

/// The search for the brain: through the switcher (its getter when known,
/// then its brain field), then through the director's switcher field and
/// that switcher's brain field; the first non-null brain wins.
pub open spec fn brain_lookup(h: HomeObjects, s: BrainSearch) -> Lookup {
    if h.switcher != 0 && h.switcher_get_cinema_brain != 0 && s.from_getter is None {
        Lookup::Call { method: h.switcher_get_cinema_brain, this: h.switcher }
    } else if h.switcher != 0 && h.switcher_get_cinema_brain != 0 && s.from_getter.unwrap() != 0 {
        Lookup::Found(s.from_getter.unwrap())
    } else if h.switcher != 0 && s.at_switcher is None {
        Lookup::Read { object: h.switcher, offset: LINK_OFFSET }
    } else if h.switcher != 0 && s.at_switcher.unwrap() != 0 {
        Lookup::Found(s.at_switcher.unwrap())
    } else if h.director != 0 && s.switcher_at_director is None {
        Lookup::Read { object: h.director, offset: LINK_OFFSET }
    } else if h.director != 0 && s.switcher_at_director.unwrap() != 0
        && s.at_director_switcher is None {
        Lookup::Read { object: s.switcher_at_director.unwrap(), offset: LINK_OFFSET }
    } else if h.director != 0 && s.switcher_at_director.unwrap() != 0
        && s.at_director_switcher.unwrap() != 0 {
        Lookup::Found(s.at_director_switcher.unwrap())
    } else {
        Lookup::Found(0)
    }
}

/// The next step of the search for the home camera's Cinemachine brain.
pub fn get_cinemachine_brain(h: &HomeObjects, s: &BrainSearch) -> (r: Lookup)
    ensures
        r == brain_lookup(*h, *s),
        (h.switcher != 0 && h.switcher_get_cinema_brain != 0 && s.from_getter is Some
            && s.from_getter.unwrap() != 0) ==> r == Lookup::Found(s.from_getter.unwrap()),
{
    if h.switcher != 0 {
        if h.switcher_get_cinema_brain != 0 {
            match s.from_getter {
                None => return Lookup::Call {
                    method: h.switcher_get_cinema_brain,
                    this: h.switcher,
                },
                Some(brain) => {
                    if brain != 0 {
                        return Lookup::Found(brain);
                    }
                },
            }
        }
        match s.at_switcher {
            None => return Lookup::Read { object: h.switcher, offset: LINK_OFFSET },
            Some(brain) => {
                if brain != 0 {
                    return Lookup::Found(brain);
                }
            },
        }
    }
    if h.director != 0 {
        match s.switcher_at_director {
            None => return Lookup::Read { object: h.director, offset: LINK_OFFSET },
            Some(switcher) => {
                if switcher != 0 {
                    match s.at_director_switcher {
                        None => return Lookup::Read { object: switcher, offset: LINK_OFFSET },
                        Some(brain) => {
                            if brain != 0 {
                                return Lookup::Found(brain);
                            }
                        },
                    }
                }
            },
        }
    }
    Lookup::Found(0)
}

/// What placing the free camera in the home scene has learned so far.
#[derive(Clone, Copy, Debug, PartialEq, Eq, Structural)]
pub struct ApplyHomeCamera {
    /// Whether the free camera is on in the home scene.
    pub scene_enabled: Option<bool>,
    /// The home camera (zero when there is none).
    pub camera: Option<usize>,
    /// The camera's transform (zero when there is none).
    pub transform: Option<usize>,
    /// Whether the free camera has a rotation of its own.
    pub has_rotation: Option<bool>,
}

impl ApplyHomeCamera {
    /// Nothing learned yet.
    pub fn new() -> (r: Self)
        ensures
            r.scene_enabled is None,
            r.camera is None,
            r.transform is None,
            r.has_rotation is None,
    {
        ApplyHomeCamera { scene_enabled: None, camera: None, transform: None, has_rotation: None }
    }
}

/// The next step of placing the free camera.
#[derive(Clone, Copy, Debug, PartialEq, Eq, Structural)]
pub enum ApplyStep {
    /// Ask whether the free camera is on in the home scene.
    AskSceneEnabled,
    /// Find the home camera.
    FindCamera,
    /// Get the transform of this camera.
    GetTransform(usize),
    /// Ask whether the free camera has a rotation.
    AskRotation,
    /// Set this transform's position, then its rotation, to the free camera's.
    PlaceWithRotation(usize),
    /// Set this transform's position to the free camera's and turn it to
    /// look at the free camera's target, with the world's up (0, 1, 0).
    PlaceLookingAt(usize),
    /// Nothing (more) to do.
    Done,
}

/// Placing the free camera: only when it is on in the home scene and the
/// home camera and its transform exist; with the free camera's rotation
/// when it has one, else looking at its target.
pub open spec fn apply_step(p: ApplyHomeCamera) -> ApplyStep {
    match p.scene_enabled {
        None => ApplyStep::AskSceneEnabled,
        Some(false) => ApplyStep::Done,
        Some(true) => match p.camera {
            None => ApplyStep::FindCamera,
            Some(camera) => if camera == 0 {
                ApplyStep::Done
            } else {
                match p.transform {
                    None => ApplyStep::GetTransform(camera),
                    Some(transform) => if transform == 0 {
                        ApplyStep::Done
                    } else {
                        match p.has_rotation {
                            None => ApplyStep::AskRotation,
                            Some(true) => ApplyStep::PlaceWithRotation(transform),
                            Some(false) => ApplyStep::PlaceLookingAt(transform),
                        }
                    },
                }
            },
        },
    }
}

/// The next step of placing the free camera in the home scene.
pub fn apply_home_free_camera(p: &ApplyHomeCamera) -> (r: ApplyStep)
    ensures
        r == apply_step(*p),
        r is GetTransform ==> r->GetTransform_0 != 0 && p.camera == Some(r->GetTransform_0),
        (p.scene_enabled is Some && p.camera == Some(0usize)) ==> r == ApplyStep::Done,
{
    let enabled = match p.scene_enabled {
        None => return ApplyStep::AskSceneEnabled,
        Some(e) => e,
    };
    if !enabled {
        return ApplyStep::Done;
    }
    let camera = match p.camera {
        None => return ApplyStep::FindCamera,
        Some(c) => c,
    };
    if camera == 0 {
        return ApplyStep::Done;
    }
    let transform = match p.transform {
        None => return ApplyStep::GetTransform(camera),
        Some(t) => t,
    };
    if transform == 0 {
        return ApplyStep::Done;
    }
    match p.has_rotation {
        None => ApplyStep::AskRotation,
        Some(true) => ApplyStep::PlaceWithRotation(transform),
        Some(false) => ApplyStep::PlaceLookingAt(transform),
    }
}

/// What a home frame has learned and done so far.
#[derive(Clone, Copy, Debug, PartialEq, Eq, Structural)]
pub struct HomeFrame {
    /// The home camera (zero when there is none).
    pub camera: Option<usize>,
    /// The camera's transform (zero when there is none).
    pub transform: Option<usize>,
    /// Whether the free camera was on in the home scene before the tick.
    pub scene_enabled: Option<bool>,
    /// Whether the camera's position and rotation were saved.
    pub saved: bool,
    /// The Cinemachine brain, before the tick (zero when there is none).
    pub brain: Option<usize>,
    /// Whether that brain was enabled.
    pub brain_enabled: Option<bool>,
    /// Whether that brain was enabled by this frame.
    pub brain_restored: bool,
    /// Whether the free camera was told the scene is active and ticked.
    pub ticked: bool,
    /// Whether the free camera is on in the home scene after the tick.
    pub scene_enabled_after: Option<bool>,
    /// The Cinemachine brain, after the tick (zero when there is none).
    pub brain_after: Option<usize>,
    /// Whether that brain was enabled.
    pub brain_after_enabled: Option<bool>,
    /// Whether that brain was disabled by this frame.
    pub brain_released: bool,
    /// Whether the free camera was placed.
    pub applied: bool,
}

impl HomeFrame {
    /// A frame that has done nothing yet.
    pub fn new() -> (r: Self)
        ensures
            r == home_frame_start(),
    {
        HomeFrame {
            camera: None,
            transform: None,
            scene_enabled: None,
            saved: false,
            brain: None,
            brain_enabled: None,
            brain_restored: false,
            ticked: false,
            scene_enabled_after: None,
            brain_after: None,
            brain_after_enabled: None,
            brain_released: false,
            applied: false,
        }
    }
}

/// A frame that has done nothing yet.
pub open spec fn home_frame_start() -> HomeFrame {
    HomeFrame {
        camera: None,
        transform: None,
        scene_enabled: None,
        saved: false,
        brain: None,
        brain_enabled: None,
        brain_restored: false,
        ticked: false,
        scene_enabled_after: None,
        brain_after: None,
        brain_after_enabled: None,
        brain_released: false,
        applied: false,
    }
}

/// The next step of a home frame.
#[derive(Clone, Copy, Debug, PartialEq, Eq, Structural)]
pub enum HomeFrameAction {
    /// Find the home camera.
    FindCamera,
    /// Get the transform of this camera.
    GetTransform(usize),
    /// Ask whether the free camera is on in the home scene (before the tick).
    AskSceneEnabled,
    /// Save this transform's position and rotation as the last ones of the game's camera.
    SaveTransform(usize),
    /// Find the Cinemachine brain (before the tick).
    FindBrain,
    /// Ask whether this brain is enabled (before the tick).
    AskBrainEnabled(usize),
    /// Enable this brain.
    EnableBrain(usize),
    /// Tell the free camera the home scene is active, with the last saved
    /// position and rotation, and tick it.
    ActivateAndTick,
    /// Ask whether the free camera is on in the home scene (after the tick).
    AskSceneEnabledAfterTick,
    /// Find the Cinemachine brain (after the tick).
    FindBrainAfterTick,
    /// Ask whether this brain is enabled (after the tick).
    AskBrainEnabledAfterTick(usize),
    /// Disable this brain.
    DisableBrain(usize),
    /// Place the free camera (see `apply_home_free_camera`).
    ApplyCamera,
    /// The frame is over.
    Done,
}

/// Before the tick: while the free camera is off, the game's camera is
/// followed (its transform saved) and its brain kept enabled; `None` when
/// this part is over.
pub open spec fn before_tick_step(f: HomeFrame) -> Option<HomeFrameAction> {
    match f.camera {
        None => Some(HomeFrameAction::FindCamera),
        Some(camera) => if camera == 0 {
            None
        } else {
            match f.transform {
                None => Some(HomeFrameAction::GetTransform(camera)),
                Some(transform) => if transform == 0 {
                    None
                } else {
                    match f.scene_enabled {
                        None => Some(HomeFrameAction::AskSceneEnabled),
                        Some(true) => None,
                        Some(false) => if !f.saved {
                            Some(HomeFrameAction::SaveTransform(transform))
                        } else {
                            match f.brain {
                                None => Some(HomeFrameAction::FindBrain),
                                Some(brain) => if brain == 0 {
                                    None
                                } else {
                                    match f.brain_enabled {
                                        None => Some(HomeFrameAction::AskBrainEnabled(brain)),
                                        Some(true) => None,
                                        Some(false) => if !f.brain_restored {
                                            Some(HomeFrameAction::EnableBrain(brain))
                                        } else {
                                            None
                                        },
                                    }
                                },
                            }
                        },
                    }
                },
            }
        },
    }
}

/// After the tick: while the free camera is on, the brain is disabled and
/// the free camera placed.
pub open spec fn after_tick_step(f: HomeFrame) -> HomeFrameAction {
    match f.scene_enabled_after {
        None => HomeFrameAction::AskSceneEnabledAfterTick,
        Some(false) => HomeFrameAction::Done,
        Some(true) => match f.brain_after {
            None => HomeFrameAction::FindBrainAfterTick,
            Some(brain) => if brain != 0 && f.brain_after_enabled is None {
                HomeFrameAction::AskBrainEnabledAfterTick(brain)
            } else if brain != 0 && f.brain_after_enabled == Some(true) && !f.brain_released {
                HomeFrameAction::DisableBrain(brain)
            } else if !f.applied {
                HomeFrameAction::ApplyCamera
            } else {
                HomeFrameAction::Done
            },
        },
    }
}

/// A home frame: the part before the tick, the tick, then the part after it.
pub open spec fn home_frame_step(f: HomeFrame) -> HomeFrameAction {
    match before_tick_step(f) {
        Some(a) => a,
        None => if !f.ticked {
            HomeFrameAction::ActivateAndTick
        } else {
            after_tick_step(f)
        },
    }
}

fn before_tick(f: &HomeFrame) -> (r: Option<HomeFrameAction>)
    ensures
        r == before_tick_step(*f),
{
    let camera = match f.camera {
        None => return Some(HomeFrameAction::FindCamera),
        Some(c) => c,
    };
    if camera == 0 {
        return None;
    }
    let transform = match f.transform {
        None => return Some(HomeFrameAction::GetTransform(camera)),
        Some(t) => t,
    };
    if transform == 0 {
        return None;
    }
    let enabled = match f.scene_enabled {
        None => return Some(HomeFrameAction::AskSceneEnabled),
        Some(e) => e,
    };
    if enabled {
        return None;
    }
    if !f.saved {
        return Some(HomeFrameAction::SaveTransform(transform));
    }
    let brain = match f.brain {
        None => return Some(HomeFrameAction::FindBrain),
        Some(b) => b,
    };
    if brain == 0 {
        return None;
    }
    match f.brain_enabled {
        None => Some(HomeFrameAction::AskBrainEnabled(brain)),
        Some(true) => None,
        Some(false) => if !f.brain_restored {
            Some(HomeFrameAction::EnableBrain(brain))
        } else {
            None
        },
    }
}

/// The next step of the frame that the home scene's hooks run before the
/// game's `AlterUpdate`.
pub fn on_home_frame(f: &HomeFrame) -> (r: HomeFrameAction)
    ensures
        r == home_frame_step(*f),
{
    if let Some(a) = before_tick(f) {
        return a;
    }
    if !f.ticked {
        return HomeFrameAction::ActivateAndTick;
    }
    let enabled = match f.scene_enabled_after {
        None => return HomeFrameAction::AskSceneEnabledAfterTick,
        Some(e) => e,
    };
    if !enabled {
        return HomeFrameAction::Done;
    }
    let brain = match f.brain_after {
        None => return HomeFrameAction::FindBrainAfterTick,
        Some(b) => b,
    };
    if brain != 0 {
        match f.brain_after_enabled {
            None => return HomeFrameAction::AskBrainEnabledAfterTick(brain),
            Some(true) => {
                if !f.brain_released {
                    return HomeFrameAction::DisableBrain(brain);
                }
            },
            Some(false) => {},
        }
    }
    if !f.applied {
        HomeFrameAction::ApplyCamera
    } else {
        HomeFrameAction::Done
    }
}

/// Once `HomeDirector.OnDestroy` has run, the searches for the home camera
/// and its brain end at once, finding nothing and asking nothing of the game.
pub proof fn law_destroyed_scene_has_no_camera(
    h: HomeObjects,
    director_camera: Option<usize>,
    switcher_camera: Option<usize>,
    s: BrainSearch,
)
    requires
        h.director == 0,
        h.switcher == 0,
    ensures
        home_camera_lookup(h, director_camera, switcher_camera) == Lookup::Found(0),
        brain_lookup(h, s) == Lookup::Found(0),
{
}

/// The free camera is placed only while it is on in the home scene, and
/// only on the transform of an existing home camera.
pub proof fn law_placement_needs_enabled_scene(p: ApplyHomeCamera)
    ensures
        apply_step(p) matches ApplyStep::PlaceWithRotation(t) ==> p.scene_enabled == Some(true)
            && p.camera.unwrap() != 0 && p.camera is Some && p.transform == Some(t) && t != 0,
        apply_step(p) matches ApplyStep::PlaceLookingAt(t) ==> p.scene_enabled == Some(true)
            && p.camera.unwrap() != 0 && p.camera is Some && p.transform == Some(t) && t != 0,
{
}

/// In a home frame, the game's camera is followed (its transform saved,
/// its brain enabled) only while the free camera is off, and taken over
/// (its brain disabled, the free camera placed) only after the tick and
/// while the free camera is on.
pub proof fn law_frame_roles(f: HomeFrame)
    ensures
        home_frame_step(f) matches HomeFrameAction::SaveTransform(t) ==> f.scene_enabled == Some(
            false,
        ) && f.transform == Some(t),
        home_frame_step(f) matches HomeFrameAction::EnableBrain(b) ==> f.scene_enabled == Some(
            false,
        ) && f.brain == Some(b) && f.brain_enabled == Some(false),
        home_frame_step(f) matches HomeFrameAction::DisableBrain(b) ==> f.ticked
            && f.scene_enabled_after == Some(true) && f.brain_after == Some(b)
            && f.brain_after_enabled == Some(true),
        home_frame_step(f) == HomeFrameAction::ApplyCamera ==> f.ticked && f.scene_enabled_after
            == Some(true),
{
}

/// One for a step not yet taken.
pub open spec fn open_item(pending: bool) -> nat {
    if pending {
        1
    } else {
        0
    }
}

/// The number of questions of a placement not yet answered.
pub open spec fn apply_pending(p: ApplyHomeCamera) -> nat {
    open_item(p.scene_enabled is None) + open_item(p.camera is None) + open_item(
        p.transform is None,
    ) + open_item(p.has_rotation is None)
}

/// The placement once `answer` is given to the question `step` (an object
/// address, or a flag that is true when non-zero).
pub open spec fn apply_record(p: ApplyHomeCamera, step: ApplyStep, answer: usize) -> ApplyHomeCamera {
    match step {
        ApplyStep::AskSceneEnabled => ApplyHomeCamera { scene_enabled: Some(answer != 0), ..p },
        ApplyStep::FindCamera => ApplyHomeCamera { camera: Some(answer), ..p },
        ApplyStep::GetTransform(_) => ApplyHomeCamera { transform: Some(answer), ..p },
        ApplyStep::AskRotation => ApplyHomeCamera { has_rotation: Some(answer != 0), ..p },
        _ => p,
    }
}

impl ApplyHomeCamera {
    /// Records `answer` to the question `step`: an object address, or a
    /// flag that is true when non-zero; other steps change nothing.
    pub fn record(&mut self, step: ApplyStep, answer: usize)
        ensures
            *final(self) == apply_record(*old(self), step, answer),
    {
        match step {
            ApplyStep::AskSceneEnabled => self.scene_enabled = Some(answer != 0),
            ApplyStep::FindCamera => self.camera = Some(answer),
            ApplyStep::GetTransform(_) => self.transform = Some(answer),
            ApplyStep::AskRotation => self.has_rotation = Some(answer != 0),
            _ => {},
        }
    }
}

/// Placing the free camera ends: every step it asks for, once answered,
/// leaves fewer questions open, and a step that asks nothing ends it.
pub proof fn law_placement_ends(p: ApplyHomeCamera, answer: usize)
    ensures
        match apply_step(p) {
            ApplyStep::AskSceneEnabled | ApplyStep::FindCamera | ApplyStep::GetTransform(_)
            | ApplyStep::AskRotation => apply_pending(apply_record(p, apply_step(p), answer))
                < apply_pending(p),
            _ => true,
        },
{
}

/// The number of steps of a home frame not yet taken.
pub open spec fn frame_pending(f: HomeFrame) -> nat {
    open_item(f.camera is None) + open_item(f.transform is None) + open_item(
        f.scene_enabled is None,
    ) + open_item(!f.saved) + open_item(f.brain is None) + open_item(f.brain_enabled is None)
        + open_item(!f.brain_restored) + open_item(!f.ticked) + open_item(
        f.scene_enabled_after is None,
    ) + open_item(f.brain_after is None) + open_item(f.brain_after_enabled is None) + open_item(
        !f.brain_released,
    ) + open_item(!f.applied)
}

/// The frame once the step `a` is taken, with `answer` as its outcome (an
/// object address, or a flag that is true when non-zero).
pub open spec fn frame_record(f: HomeFrame, a: HomeFrameAction, answer: usize) -> HomeFrame {
    match a {
        HomeFrameAction::FindCamera => HomeFrame { camera: Some(answer), ..f },
        HomeFrameAction::GetTransform(_) => HomeFrame { transform: Some(answer), ..f },
        HomeFrameAction::AskSceneEnabled => HomeFrame { scene_enabled: Some(answer != 0), ..f },
        HomeFrameAction::SaveTransform(_) => HomeFrame { saved: true, ..f },
        HomeFrameAction::FindBrain => HomeFrame { brain: Some(answer), ..f },
        HomeFrameAction::AskBrainEnabled(_) => HomeFrame { brain_enabled: Some(answer != 0), ..f },
        HomeFrameAction::EnableBrain(_) => HomeFrame { brain_restored: true, ..f },
        HomeFrameAction::ActivateAndTick => HomeFrame { ticked: true, ..f },
        HomeFrameAction::AskSceneEnabledAfterTick => HomeFrame {
            scene_enabled_after: Some(answer != 0),
            ..f
        },
        HomeFrameAction::FindBrainAfterTick => HomeFrame { brain_after: Some(answer), ..f },
        HomeFrameAction::AskBrainEnabledAfterTick(_) => HomeFrame {
            brain_after_enabled: Some(answer != 0),
            ..f
        },
        HomeFrameAction::DisableBrain(_) => HomeFrame { brain_released: true, ..f },
        HomeFrameAction::ApplyCamera => HomeFrame { applied: true, ..f },
        HomeFrameAction::Done => f,
    }
}

impl HomeFrame {
    /// Records that the step `a` was taken, with `answer` as its outcome:
    /// an object address, or a flag that is true when non-zero (ignored by
    /// steps that have no outcome).
    pub fn record(&mut self, a: HomeFrameAction, answer: usize)
        ensures
            *final(self) == frame_record(*old(self), a, answer),
    {
        match a {
            HomeFrameAction::FindCamera => self.camera = Some(answer),
            HomeFrameAction::GetTransform(_) => self.transform = Some(answer),
            HomeFrameAction::AskSceneEnabled => self.scene_enabled = Some(answer != 0),
            HomeFrameAction::SaveTransform(_) => self.saved = true,
            HomeFrameAction::FindBrain => self.brain = Some(answer),
            HomeFrameAction::AskBrainEnabled(_) => self.brain_enabled = Some(answer != 0),
            HomeFrameAction::EnableBrain(_) => self.brain_restored = true,
            HomeFrameAction::ActivateAndTick => self.ticked = true,
            HomeFrameAction::AskSceneEnabledAfterTick => self.scene_enabled_after = Some(
                answer != 0,
            ),
            HomeFrameAction::FindBrainAfterTick => self.brain_after = Some(answer),
            HomeFrameAction::AskBrainEnabledAfterTick(_) => self.brain_after_enabled = Some(
                answer != 0,
            ),
            HomeFrameAction::DisableBrain(_) => self.brain_released = true,
            HomeFrameAction::ApplyCamera => self.applied = true,
            HomeFrameAction::Done => {},
        }
    }
}

proof fn lemma_step_is_open(f: HomeFrame)
    ensures
        match home_frame_step(f) {
            HomeFrameAction::FindCamera => f.camera is None,
            HomeFrameAction::GetTransform(_) => f.transform is None,
            HomeFrameAction::AskSceneEnabled => f.scene_enabled is None,
            HomeFrameAction::SaveTransform(_) => !f.saved,
            HomeFrameAction::FindBrain => f.brain is None,
            HomeFrameAction::AskBrainEnabled(_) => f.brain_enabled is None,
            HomeFrameAction::EnableBrain(_) => !f.brain_restored,
            HomeFrameAction::ActivateAndTick => !f.ticked,
            HomeFrameAction::AskSceneEnabledAfterTick => f.scene_enabled_after is None,
            HomeFrameAction::FindBrainAfterTick => f.brain_after is None,
            HomeFrameAction::AskBrainEnabledAfterTick(_) => f.brain_after_enabled is None,
            HomeFrameAction::DisableBrain(_) => !f.brain_released,
            HomeFrameAction::ApplyCamera => !f.applied,
            HomeFrameAction::Done => f.ticked,
        },
{
}

/// Every home frame ends: each step it asks for, once taken and recorded,
/// leaves fewer steps to take, so a frame takes at most thirteen steps
/// before `Done`, and the tick always comes before it.
#[verifier::rlimit(40)]
pub proof fn law_home_frame_ends(f: HomeFrame, answer: usize)
    ensures
        home_frame_step(f) != HomeFrameAction::Done ==> frame_pending(
            frame_record(f, home_frame_step(f), answer),
        ) < frame_pending(f),
        frame_pending(home_frame_start()) == 13,
        home_frame_step(f) == HomeFrameAction::Done ==> f.ticked,
{
    lemma_step_is_open(f);
    let a = home_frame_step(f);
    let g = frame_record(f, a, answer);
    match a {
        HomeFrameAction::Done => {},
        _ => {
            assert(frame_pending(g) < frame_pending(f));
        },
    }
}

/// `v` when `known`, else null.
pub open spec fn if_known(known: bool, v: usize) -> usize {
    if known {
        v
    } else {
        0
    }
}

/// The first non-null of `a` and `b` (null when both are).
pub open spec fn first_found(a: usize, b: usize) -> usize {
    if a != 0 {
        a
    } else {
        b
    }
}

/// Once both getters have answered, the home camera found is the first
/// non-null of the director's camera and the switcher's camera, each
/// counting only when its object and getter are known.
pub proof fn law_home_camera_is_first_found(h: HomeObjects, director_camera: usize, switcher_camera: usize)
    ensures
        home_camera_lookup(h, Some(director_camera), Some(switcher_camera)) == Lookup::Found(
            first_found(
                if_known(h.director != 0 && h.director_get_camera != 0, director_camera),
                if_known(h.switcher != 0 && h.switcher_get_camera != 0, switcher_camera),
            ),
        ),
{
}

/// Once every source has answered, the brain found is the first non-null
/// of: the switcher's `get_CinemaBrain` (when the switcher and the getter
/// are known), the switcher's brain field (when the switcher is known), and
/// the brain field of the switcher that the director's field holds (when
/// the director is known and that field is not null).
pub proof fn law_brain_is_first_found(
    h: HomeObjects,
    from_getter: usize,
    at_switcher: usize,
    switcher_at_director: usize,
    at_director_switcher: usize,
)
    ensures
        brain_lookup(
            h,
            BrainSearch {
                from_getter: Some(from_getter),
                at_switcher: Some(at_switcher),
                switcher_at_director: Some(switcher_at_director),
                at_director_switcher: Some(at_director_switcher),
            },
        ) == Lookup::Found(
            first_found(
                if_known(h.switcher != 0 && h.switcher_get_cinema_brain != 0, from_getter),
                first_found(
                    if_known(h.switcher != 0, at_switcher),
                    if_known(h.director != 0 && switcher_at_director != 0, at_director_switcher),
                ),
            ),
        ),
{
}

/// Once every question is answered, the free camera is placed exactly when
/// it is on in the home scene and the camera and its transform exist: with
/// its rotation when it has one, else looking at its target.
pub proof fn law_placement_outcome(enabled: bool, camera: usize, transform: usize, has_rotation: bool)
    ensures
        apply_step(
            ApplyHomeCamera {
                scene_enabled: Some(enabled),
                camera: Some(camera),
                transform: Some(transform),
                has_rotation: Some(has_rotation),
            },
        ) == (if enabled && camera != 0 && transform != 0 {
            if has_rotation {
                ApplyStep::PlaceWithRotation(transform)
            } else {
                ApplyStep::PlaceLookingAt(transform)
            }
        } else {
            ApplyStep::Done
        }),
{
}

/// What the game and the free camera answer during a home frame.
pub struct FrameWorld {
    pub camera: usize,
    pub transform: usize,
    pub enabled_before: bool,
    pub brain: usize,
    pub brain_enabled: bool,
    pub enabled_after: bool,
    pub brain_after: usize,
    pub brain_after_enabled: bool,
}

/// A flag as an answer.
pub open spec fn flag(b: bool) -> usize {
    if b {
        1
    } else {
        0
    }
}

/// The answer that `w` gives to the step `a`.
pub open spec fn world_answer(w: FrameWorld, a: HomeFrameAction) -> usize {
    match a {
        HomeFrameAction::FindCamera => w.camera,
        HomeFrameAction::GetTransform(_) => w.transform,
        HomeFrameAction::AskSceneEnabled => flag(w.enabled_before),
        HomeFrameAction::FindBrain => w.brain,
        HomeFrameAction::AskBrainEnabled(_) => flag(w.brain_enabled),
        HomeFrameAction::AskSceneEnabledAfterTick => flag(w.enabled_after),
        HomeFrameAction::FindBrainAfterTick => w.brain_after,
        HomeFrameAction::AskBrainEnabledAfterTick(_) => flag(w.brain_after_enabled),
        _ => 0,
    }
}

/// In `w`, the game's camera transform is saved: there is a camera with a
/// transform and the free camera is off.
pub open spec fn saves_transform(w: FrameWorld) -> bool {
    w.camera != 0 && w.transform != 0 && !w.enabled_before
}

/// In `w`, the brain is enabled: the transform is saved and the brain
/// exists and is disabled.
pub open spec fn enables_brain(w: FrameWorld) -> bool {
    saves_transform(w) && w.brain != 0 && !w.brain_enabled
}

/// In `w`, the brain is disabled: the free camera is on after the tick and
/// the brain exists and is enabled.
pub open spec fn disables_brain(w: FrameWorld) -> bool {
    w.enabled_after && w.brain_after != 0 && w.brain_after_enabled
}

/// `f` holds only answers that `w` gives, and has done only what `w` calls for.
pub open spec fn frame_agrees(f: HomeFrame, w: FrameWorld) -> bool {
    &&& (f.camera is Some ==> f.camera == Some(w.camera))
    &&& (f.transform is Some ==> f.transform == Some(w.transform))
    &&& (f.scene_enabled is Some ==> f.scene_enabled == Some(w.enabled_before))
    &&& (f.brain is Some ==> f.brain == Some(w.brain))
    &&& (f.brain_enabled is Some ==> f.brain_enabled == Some(w.brain_enabled))
    &&& (f.scene_enabled_after is Some ==> f.scene_enabled_after == Some(w.enabled_after))
    &&& (f.brain_after is Some ==> f.brain_after == Some(w.brain_after))
    &&& (f.brain_after_enabled is Some ==> f.brain_after_enabled == Some(w.brain_after_enabled))
    &&& (f.saved ==> saves_transform(w))
    &&& (f.brain_restored ==> enables_brain(w))
    &&& (f.brain_released ==> disables_brain(w))
    &&& (f.applied ==> w.enabled_after)
}

/// A frame driven by the answers of `w` only ever does what `w` calls for:
/// it starts in agreement with `w`, and taking and recording each step it
/// asks for keeps it so.
#[verifier::rlimit(60)]
pub proof fn law_frame_follows_world(f: HomeFrame, w: FrameWorld)
    ensures
        frame_agrees(home_frame_start(), w),
        frame_agrees(f, w) ==> frame_agrees(
            frame_record(f, home_frame_step(f), world_answer(w, home_frame_step(f))),
            w,
        ),
{
    lemma_step_is_open(f);
    law_frame_roles(f);
}

/// When a frame driven by the answers of `w` is over, it has saved the
/// camera's transform, enabled the brain, disabled it and placed the free
/// camera exactly when `w` calls for each, and it has always ticked the
/// free camera.
#[verifier::rlimit(60)]
pub proof fn law_frame_outcome(f: HomeFrame, w: FrameWorld)
    requires
        frame_agrees(f, w),
        home_frame_step(f) == HomeFrameAction::Done,
    ensures
        f.ticked,
        f.saved == saves_transform(w),
        f.brain_restored == enables_brain(w),
        f.brain_released == disables_brain(w),
        f.applied == w.enabled_after,
{
    lemma_step_is_open(f);
}

/// The search for the home camera asks each getter only while it may still
/// matter, and ends with a camera only when it is the first non-null
/// answer, in the order director then switcher, among the known getters.
pub proof fn law_home_camera_steps(h: HomeObjects, dc: Option<usize>, sc: Option<usize>)
    ensures
        ({
            let dk = h.director != 0 && h.director_get_camera != 0;
            let sk = h.switcher != 0 && h.switcher_get_camera != 0;
            let director_done = !dk || dc == Some(0usize);
            let r = home_camera_lookup(h, dc, sc);
            &&& (dk && dc is Some && dc.unwrap() != 0) ==> r == Lookup::Found(dc.unwrap())
            &&& (director_done && sk && sc is Some && sc.unwrap() != 0) ==> r == Lookup::Found(
                sc.unwrap(),
            )
            &&& (r is Call) ==> (dk && dc is None && r->method == h.director_get_camera && r->this
                == h.director) || (director_done && sk && sc is None && r->method
                == h.switcher_get_camera && r->this == h.switcher)
            &&& (r is Found && r->Found_0 != 0) ==> (dk && dc == Some(r->Found_0)) || (
            director_done && sk && sc == Some(r->Found_0))
            &&& r == Lookup::Found(0) ==> director_done && (!sk || sc == Some(0usize))
            &&& !(r is Read)
        }),
{
}

/// The search for the brain takes its sources in priority order — the
/// switcher's `get_CinemaBrain`, the switcher's brain field, then the brain
/// field of the director's switcher — asks a source only when every source
/// before it is unknown or answered null, and ends with a brain only when
/// it is the first non-null answer in that order. In particular a non-null
/// brain from the getter ends the search at once, whatever the later
/// sources have or have not answered.
pub proof fn law_brain_steps(h: HomeObjects, s: BrainSearch)
    ensures
        ({
            let gk = h.switcher != 0 && h.switcher_get_cinema_brain != 0;
            let sw = h.switcher != 0;
            let dir = h.director != 0;
            let getter_done = !gk || s.from_getter == Some(0usize);
            let switcher_done = getter_done && (!sw || s.at_switcher == Some(0usize));
            let dsw = s.switcher_at_director is Some && s.switcher_at_director.unwrap() != 0;
            let r = brain_lookup(h, s);
            &&& (gk && s.from_getter is Some && s.from_getter.unwrap() != 0) ==> r == Lookup::Found(
                s.from_getter.unwrap(),
            )
            &&& (getter_done && sw && s.at_switcher is Some && s.at_switcher.unwrap() != 0) ==> r
                == Lookup::Found(s.at_switcher.unwrap())
            &&& (switcher_done && dir && dsw && s.at_director_switcher is Some
                && s.at_director_switcher.unwrap() != 0) ==> r == Lookup::Found(
                s.at_director_switcher.unwrap(),
            )
            &&& (r is Found && r->Found_0 != 0) ==> (gk && s.from_getter == Some(r->Found_0)) || (
            getter_done && sw && s.at_switcher == Some(r->Found_0)) || (switcher_done && dir && dsw
                && s.at_director_switcher == Some(r->Found_0))
            &&& r == Lookup::Found(0) ==> switcher_done && (!dir || s.switcher_at_director == Some(
                0usize,
            ) || (dsw && s.at_director_switcher == Some(0usize)))
            &&& (r is Call) ==> gk && s.from_getter is None && r->method == h.switcher_get_cinema_brain
                && r->this == h.switcher
            &&& (r is Read) ==> r->offset == LINK_OFFSET && ((getter_done && sw && s.at_switcher is None
                && r->object == h.switcher) || (switcher_done && dir && ((s.switcher_at_director is None
                && r->object == h.director) || (dsw && s.at_director_switcher is None && r->object
                == s.switcher_at_director.unwrap()))))
        }),
{
}

/// Each step of placing the free camera is taken only when what it needs
/// is known and what it asks is not: the scene is asked first; a camera is
/// looked for only with the free camera on; the transform only of a
/// non-null camera; the rotation only for a non-null transform. The
/// placement ends without placing exactly when the free camera is off, or
/// the camera or its transform is null.
pub proof fn law_placement_steps(p: ApplyHomeCamera)
    ensures
        (apply_step(p) == ApplyStep::AskSceneEnabled) == (p.scene_enabled is None),
        apply_step(p) == ApplyStep::FindCamera ==> p.scene_enabled == Some(true) && p.camera is None,
        apply_step(p) is GetTransform ==> apply_step(p)->GetTransform_0 != 0 && p.camera == Some(
            apply_step(p)->GetTransform_0,
        ) && p.scene_enabled == Some(true) && p.transform is None,
        apply_step(p) == ApplyStep::AskRotation ==> p.scene_enabled == Some(true) && (
        p.camera is Some && p.camera.unwrap() != 0) && (p.transform is Some && p.transform.unwrap() != 0)
            && p.has_rotation is None,
        (p.scene_enabled is Some && p.camera == Some(0usize)) ==> apply_step(p) == ApplyStep::Done,
        (p.scene_enabled is Some && (p.camera is Some && p.camera.unwrap() != 0) && p.transform == Some(
            0usize,
        )) ==> apply_step(p) == ApplyStep::Done,
        (apply_step(p) == ApplyStep::Done) == (p.scene_enabled == Some(false) || (p.scene_enabled
            == Some(true) && (p.camera == Some(0usize) || ((p.camera is Some && p.camera.unwrap() != 0)
            && p.transform == Some(0usize))))),
{
}

/// A home frame asks for the transform only of a non-null camera, asks
/// whether a brain is enabled only of a non-null brain, and saves only a
/// non-null transform.
pub proof fn law_frame_objects_non_null(f: HomeFrame)
    ensures
        home_frame_step(f) matches HomeFrameAction::GetTransform(c) ==> c != 0 && f.camera == Some(
            c,
        ) && f.transform is None,
        home_frame_step(f) matches HomeFrameAction::SaveTransform(t) ==> t != 0,
        home_frame_step(f) matches HomeFrameAction::AskBrainEnabled(b) ==> b != 0 && f.brain
            == Some(b),
        home_frame_step(f) matches HomeFrameAction::EnableBrain(b) ==> b != 0,
        home_frame_step(f) matches HomeFrameAction::AskBrainEnabledAfterTick(b) ==> b != 0
            && f.brain_after == Some(b),
        home_frame_step(f) matches HomeFrameAction::DisableBrain(b) ==> b != 0,
{
}

} // verus!
